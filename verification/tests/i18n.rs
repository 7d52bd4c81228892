use niri_screencast::ui::i18n::{
    messages_for_locale, messages_from_lookup, messages_from_values, normalize_locale,
};

#[test]
fn normalizes_posix_locale_names() {
    assert_eq!(normalize_locale("zh_CN.UTF-8"), "zh-cn");
    assert_eq!(normalize_locale("zh_Hans_CN@variant"), "zh-hans-cn");
    assert_eq!(normalize_locale(" en_US.utf8 "), "en-us");
}

#[test]
fn resolves_supported_locales_without_crossing_scripts() {
    assert_eq!(messages_for_locale("zh_CN.UTF-8").unwrap().locale, "zh-CN");
    assert_eq!(messages_for_locale("zh-Hans-CN").unwrap().locale, "zh-CN");
    assert_eq!(messages_for_locale("en_GB.UTF-8").unwrap().locale, "en-US");
    assert!(messages_for_locale("zh_TW.UTF-8").is_none());
    assert!(messages_for_locale("zh-Hant").is_none());
}

#[test]
fn locale_categories_follow_posix_precedence() {
    let messages = messages_from_lookup(|name: &str| match name {
        "LC_ALL" => Some(String::new()),
        "LC_MESSAGES" => Some(String::from("zh_CN.UTF-8")),
        "LANG" => Some(String::from("en_US.UTF-8")),
        _ => None,
    });
    assert_eq!(messages.locale, "zh-CN");

    let messages = messages_from_lookup(|name: &str| match name {
        "LC_ALL" => Some(String::from("C")),
        "LC_MESSAGES" => Some(String::from("zh_CN.UTF-8")),
        _ => None,
    });
    assert_eq!(messages.locale, "en-US");
}

#[test]
fn unsupported_locales_fall_back_to_english() {
    let messages = messages_from_lookup(|name: &str| {
        if name == "LANG" {
            Some(String::from("fr_FR.UTF-8"))
        } else {
            None
        }
    });
    assert_eq!(messages.locale, "en-US");
}

#[test]
fn variables_are_asked_only_until_one_has_a_value() {
    let mut asked: Vec<String> = Vec::new();
    let messages = messages_from_lookup(|name: &str| {
        asked.push(name.to_owned());
        if name == "LC_MESSAGES" {
            Some(String::from("zh_SG"))
        } else {
            Some(String::from(" \t\u{3000}"))
        }
    });
    assert_eq!(messages.locale, "zh-CN");
    assert_eq!(asked, ["LC_ALL", "LC_MESSAGES"]);
}

#[test]
fn blank_and_missing_values_are_skipped() {
    let values = vec![None, Some(String::from("\u{a0}")), Some(String::from("zh-hans"))];
    assert_eq!(messages_from_values(&values).locale, "zh-CN");
    assert_eq!(messages_from_values(&Vec::new()).locale, "en-US");
}

#[test]
fn prefixes_of_a_tag_count_in_whole_parts() {
    assert_eq!(messages_for_locale("zh_Hans_CN_x").unwrap().locale, "zh-CN");
    assert_eq!(messages_for_locale("en").unwrap().locale, "en-US");
    assert_eq!(messages_for_locale("POSIX").unwrap().locale, "en-US");
    assert!(messages_for_locale("zh").is_none());
    assert!(messages_for_locale("zh_CNX").is_none());
    assert!(messages_for_locale("enx").is_none());
    assert!(messages_for_locale("zh_HK.UTF-8").is_none());
    assert!(messages_for_locale("").is_none());
}

#[test]
fn the_description_names_the_app() {
    let english = messages_for_locale("en").unwrap();
    assert_eq!(
        english.share_description(Some("org.example.App")),
        "org.example.App wants to share your screen. Choose what you would like to share."
    );
    assert_eq!(
        english.share_description(None),
        "An app wants to share your screen. Choose what you would like to share."
    );
    let chinese = messages_for_locale("zh_CN").unwrap();
    assert_eq!(
        chinese.share_description(Some("org.example.App")),
        "org.example.App 想要共享你的屏幕。请选择要共享的内容。"
    );
    assert_eq!(
        chinese.share_description(None),
        "有应用想要共享你的屏幕。请选择要共享的内容。"
    );
    assert_eq!(chinese.cancel, "取消");
    assert_eq!(chinese.hidden_from_screen_share, "已从屏幕共享中隐藏");
}
