//! Texts and settings: numbers, locale names, languages, and what a configuration sets.

use vstd::prelude::*;

use crate::config::{overridden, ScreenCastPicker, ScreenCastPickerPart};
use crate::text::{decimal, digit, opt_text};
use crate::ui::i18n::{
    asked_in_order, catalog_of_locale, catalog_or_english, ends_a_part,
    ends_language, first_usable, is_white_space, language_part, leading_space, locale_tag,
    tag_char, tag_picks_by_whole_parts, tags, trimmed, usable, without_trailing_space, Catalog,
    Messages,
};

verus! {

/// A number is written in decimal digits, without a zero in front unless it is zero. Its last digit
/// is its remainder by ten, and the digits before it are those of its tenth.
pub proof fn numbers_are_written_in_decimal(n: nat)
    ensures
        decimal(n).len() > 0,
        forall|i: int|
            0 <= i < decimal(n).len() ==> '0' <= #[trigger] decimal(n)[i] && decimal(n)[i] <= '9',
        n > 0 ==> decimal(n)[0] != '0',
        decimal(n).last() as int == '0' as int + n % 10,
        n < 10 ==> decimal(n).len() == 1,
        n >= 10 ==> decimal(n).drop_last() == decimal(n / 10),
    decreases n,
{
    assert(digit(n % 10) as int == '0' as int + n % 10);
    if n >= 10 {
        numbers_are_written_in_decimal(n / 10);
        let head = decimal(n / 10);
        assert(decimal(n).drop_last() =~= head);
        assert(decimal(n)[0] == head[0]);
        assert forall|i: int| 0 <= i < decimal(n).len() implies '0' <= #[trigger] decimal(n)[i]
            && decimal(n)[i] <= '9' by {
            if i < head.len() {
                assert(decimal(n)[i] == head[i]);
            }
        }
    } else {
        assert(n % 10 == n);
    }
}

/// An optional string has a text exactly if it is there.
pub proof fn optional_strings_have_their_text(s: Option<String>)
    ensures
        s is None <==> opt_text(s) is None,
        s is Some ==> opt_text(s) == Some(s->0@),
{
}

/// White space is what Unicode calls so: of ASCII the space and the five characters from the tab to
/// the carriage return.
pub proof fn ascii_white_space(c: char)
    requires
        (c as int) < 0x80,
    ensures
        is_white_space(c) <==> c == ' ' || c == '\t' || c == '\n' || c == '\r' || c as int == 0xb
            || c as int == 0xc,
{
}

proof fn leading_space_stops(s: Seq<char>)
    ensures
        leading_space(s) <= s.len(),
        forall|i: int| 0 <= i < leading_space(s) ==> is_white_space(#[trigger] s[i]),
        leading_space(s) < s.len() ==> !is_white_space(s[leading_space(s) as int]),
    decreases s.len(),
{
    if s.len() > 0 && is_white_space(s.first()) {
        let rest = s.drop_first();
        leading_space_stops(rest);
        assert forall|i: int| 0 <= i < leading_space(s) implies is_white_space(#[trigger] s[i]) by {
            if i > 0 {
                assert(rest[i - 1] == s[i]);
            }
        }
        if leading_space(s) < s.len() {
            assert(rest[leading_space(rest) as int] == s[leading_space(s) as int]);
        }
    }
}

proof fn trailing_space_stops(s: Seq<char>)
    ensures
        without_trailing_space(s).len() <= s.len(),
        without_trailing_space(s) == s.take(without_trailing_space(s).len() as int),
        forall|i: int|
            without_trailing_space(s).len() <= i < s.len() ==> is_white_space(#[trigger] s[i]),
        without_trailing_space(s).len() > 0 ==> !is_white_space(without_trailing_space(s).last()),
    decreases s.len(),
{
    if s.len() > 0 && is_white_space(s.last()) {
        let head = s.drop_last();
        trailing_space_stops(head);
        let n = without_trailing_space(s).len() as int;
        assert(head.take(n) =~= s.take(n));
        assert forall|i: int| n <= i < s.len() implies is_white_space(#[trigger] s[i]) by {
            if i < head.len() {
                assert(head[i] == s[i]);
            }
        }
    } else {
        assert(s.take(s.len() as int) =~= s);
    }
}

/// Trimming takes white space off both ends, all of it and nothing else: what is left is a piece of
/// the text that neither begins nor ends with white space, with only white space around it.
pub proof fn trimming_takes_off_white_space(s: Seq<char>) -> (start: int)
    ensures
        0 <= start,
        start + trimmed(s).len() <= s.len(),
        trimmed(s) == s.subrange(start, start + trimmed(s).len()),
        forall|i: int| 0 <= i < start ==> is_white_space(#[trigger] s[i]),
        forall|i: int|
            start + trimmed(s).len() <= i < s.len() ==> is_white_space(#[trigger] s[i]),
        trimmed(s).len() > 0 ==> !is_white_space(trimmed(s).first()) && !is_white_space(
            trimmed(s).last(),
        ),
{
    leading_space_stops(s);
    let start = leading_space(s) as int;
    let rest = s.skip(start);
    trailing_space_stops(rest);
    let n = trimmed(s).len() as int;
    assert(rest.take(n) =~= s.subrange(start, start + n));
    assert forall|i: int| start + n <= i < s.len() implies is_white_space(#[trigger] s[i]) by {
        assert(rest[i - start] == s[i]);
    }
    if n > 0 {
        assert(trimmed(s)[0] == s[start]);
    }
    start
}

/// The language of a locale name is what stands before its first dot or at sign.
pub proof fn languages_end_at_a_dot_or_an_at_sign(s: Seq<char>)
    ensures
        language_part(s).len() <= s.len(),
        language_part(s) == s.take(language_part(s).len() as int),
        forall|i: int|
            0 <= i < language_part(s).len() ==> #[trigger] s[i] != '.' && s[i] != '@',
        language_part(s).len() < s.len() ==> s[language_part(s).len() as int] == '.'
            || s[language_part(s).len() as int] == '@',
    decreases s.len(),
{
    if s.len() > 0 && !ends_language(s.first()) {
        let rest = s.drop_first();
        languages_end_at_a_dot_or_an_at_sign(rest);
        let n = language_part(rest).len() as int;
        assert(language_part(s).len() == n + 1);
        assert(language_part(s) =~= s.take(n + 1));
        assert forall|i: int| 0 <= i < n + 1 implies #[trigger] s[i] != '.' && s[i] != '@' by {
            if i > 0 {
                assert(rest[i - 1] == s[i]);
            }
        }
        if n + 1 < s.len() {
            assert(rest[n] == s[n + 1]);
        }
    } else {
        assert(language_part(s) =~= s.take(0));
    }
}

/// In a tag, underscores are hyphens and ASCII letters are small. Everything else stays.
pub proof fn tags_are_spelled_alike(c: char)
    ensures
        tag_char('_') == '-',
        'A' <= c && c <= 'Z' ==> 'a' <= tag_char(c) && tag_char(c) <= 'z' && tag_char(c) as int
            - 'a' as int == c as int - 'A' as int,
        c != '_' && !('A' <= c && c <= 'Z') ==> tag_char(c) == c,
        tag_char(tag_char(c)) == tag_char(c),
{
}

/// The tag of a locale name spells its language: what stands before the first dot or at sign,
/// without the white space around the name, in small letters and with hyphens.
pub proof fn locale_names_are_normalized(locale: Seq<char>, i: int)
    ensures
        locale_tag(locale).len() == language_part(trimmed(locale)).len(),
        0 <= i < locale_tag(locale).len() ==> locale_tag(locale)[i] == tag_char(
            trimmed(locale)[i],
        ),
{
    languages_end_at_a_dot_or_an_at_sign(trimmed(locale));
    if 0 <= i < locale_tag(locale).len() {
        let part = language_part(trimmed(locale));
        assert(part[i] == trimmed(locale).take(part.len() as int)[i]);
    }
}

/// English is picked by its name, with or without the United States, and Simplified Chinese by its
/// script, by its regions, or by both.
pub proof fn languages_are_picked_by_their_tags(tag: Seq<char>)
    ensures
        tags(Catalog::EnUs).contains(tag) <==> tag == "en"@ || tag == "en-us"@,
        tags(Catalog::ZhCn).contains(tag) <==> tag == "zh-cn"@ || tag == "zh-sg"@ || tag
            == "zh-hans"@ || tag == "zh-hans-cn"@ || tag == "zh-hans-sg"@,
{
}

/// The standard locale is English. Every other locale name picks the language that its tag, or a
/// part of the tag that ends at a hyphen, picks.
pub proof fn locales_pick_their_language(locale: Seq<char>, catalog: Catalog)
    ensures
        locale_tag(locale) == "c"@ || locale_tag(locale) == "posix"@ ==> catalog_of_locale(locale)
            == Some(Catalog::EnUs),
        locale_tag(locale) != "c"@ && locale_tag(locale) != "posix"@ ==> (catalog_of_locale(locale)
            == Some(catalog) <==> exists|i: int| #[trigger]
            ends_a_part(locale_tag(locale), i) && tags(catalog).contains(
                locale_tag(locale).take(i),
            )),
{
    tag_picks_by_whole_parts(locale_tag(locale), catalog);
}

/// A part of a tag ends at its end, or where a hyphen stands.
pub proof fn parts_end_at_hyphens(tag: Seq<char>, i: int)
    ensures
        ends_a_part(tag, tag.len() as int),
        0 <= i < tag.len() ==> (ends_a_part(tag, i) <==> tag[i] == '-'),
        i < 0 || i > tag.len() ==> !ends_a_part(tag, i),
{
}

/// A value that holds nothing but white space counts as absent.
pub proof fn blank_values_do_not_count(value: Option<String>)
    ensures
        usable(value) <==> value is Some && exists|i: int|
            0 <= i < value->0@.len() && !is_white_space(#[trigger] value->0@[i]),
{
}

/// Of the locale variables the first one that is there and not blank counts.
pub proof fn the_first_usable_value_counts(values: Seq<Option<String>>)
    ensures
        match first_usable(values) {
            Some(text) => exists|i: int|
                0 <= i < values.len() && usable(#[trigger] values[i]) && values[i]->0@ == text
                    && forall|j: int| 0 <= j < i ==> !usable(#[trigger] values[j]),
            None => forall|j: int| 0 <= j < values.len() ==> !usable(#[trigger] values[j]),
        },
    decreases values.len(),
{
    if values.len() > 0 {
        let rest = values.drop_first();
        the_first_usable_value_counts(rest);
        if usable(values[0]) {
            assert(values[0]->0@ == first_usable(values)->0);
        } else {
            match first_usable(values) {
                Some(text) => {
                    let i = choose|i: int|
                        0 <= i < rest.len() && usable(#[trigger] rest[i]) && rest[i]->0@ == text
                            && forall|j: int| 0 <= j < i ==> !usable(#[trigger] rest[j]);
                    assert(values[i + 1] == rest[i]);
                    assert forall|j: int| 0 <= j < i + 1 implies !usable(#[trigger] values[j]) by {
                        if j > 0 {
                            assert(rest[j - 1] == values[j]);
                        }
                    }
                },
                None => {
                    assert forall|j: int| 0 <= j < values.len() implies !usable(
                        #[trigger] values[j],
                    ) by {
                        if j > 0 {
                            assert(rest[j - 1] == values[j]);
                        }
                    }
                },
            }
        }
    }
}

/// Without a locale, and for one in another language, the texts are English.
pub proof fn english_is_the_fallback(locale: Seq<char>)
    ensures
        catalog_or_english(None) is EnUs,
        catalog_of_locale(locale) is None ==> catalog_or_english(Some(locale)) is EnUs,
        catalog_of_locale(locale) is Some ==> Some(catalog_or_english(Some(locale)))
            == catalog_of_locale(locale),
{
}

/// The texts of a language are in that language, all of them.
pub proof fn texts_are_in_their_language(m: Messages, app_id: Seq<char>)
    ensures
        m.speaks(Catalog::EnUs) ==> {
            &&& m.catalog is EnUs
            &&& m.locale@ == "en-US"@
            &&& m.cancel@ == "Cancel"@
            &&& m.share@ == "Share"@
            &&& m.share_screen@ == "Share Screen"@
            &&& m.remember_selection@ == "Remember this selection"@
            &&& m.window@ == "Window"@
            &&& m.display@ == "Display"@
            &&& m.untitled_window@ == "Untitled window"@
            &&& m.protected_window@ == "Protected window"@
            &&& m.hidden_from_screen_share@ == "Hidden from screen sharing"@
            &&& m.description(None)
                == "An app wants to share your screen. Choose what you would like to share."@
        },
        m.speaks(Catalog::ZhCn) ==> {
            &&& m.catalog is ZhCn
            &&& m.locale@ == "zh-CN"@
            &&& m.cancel@ == "取消"@
            &&& m.share@ == "共享"@
            &&& m.share_screen@ == "共享屏幕"@
            &&& m.remember_selection@ == "记住此选择"@
            &&& m.window@ == "窗口"@
            &&& m.display@ == "显示器"@
            &&& m.untitled_window@ == "无标题窗口"@
            &&& m.protected_window@ == "受保护窗口"@
            &&& m.hidden_from_screen_share@ == "已从屏幕共享中隐藏"@
            &&& m.description(None) == "有应用想要共享你的屏幕。请选择要共享的内容。"@
        },
        m.speaks(Catalog::EnUs) ==> !m.speaks(Catalog::ZhCn),
{
}

/// The user reads the name of the app that asks, whole and at the start of the sentence.
pub proof fn descriptions_name_the_app(m: Messages, app_id: Seq<char>)
    ensures
        m.description(Some(app_id)).len() > app_id.len(),
        m.description(Some(app_id)).take(app_id.len() as int) == app_id,
        m.catalog is EnUs ==> m.description(Some(app_id)).skip(app_id.len() as int)
            == " wants to share your screen. Choose what you would like to share."@,
        m.catalog is ZhCn ==> m.description(Some(app_id)).skip(app_id.len() as int)
            == " 想要共享你的屏幕。请选择要共享的内容。"@,
{
    reveal_strlit(" wants to share your screen. Choose what you would like to share.");
    reveal_strlit(" 想要共享你的屏幕。请选择要共享的内容。");
    let text = m.description(Some(app_id));
    assert(text.take(app_id.len() as int) =~= app_id);
    match m.catalog {
        Catalog::EnUs => {
            assert(text.skip(app_id.len() as int)
                =~= " wants to share your screen. Choose what you would like to share."@);
        },
        Catalog::ZhCn => {
            assert(text.skip(app_id.len() as int) =~= " 想要共享你的屏幕。请选择要共享的内容。"@);
        },
    }
}

/// A part of the configuration sets what it mentions, and leaves the rest.
pub proof fn parts_set_what_they_mention<C: Copy, R: Copy>(
    settings: ScreenCastPicker<C, R>,
    part: ScreenCastPickerPart<C, R>,
    value: C,
    set: C,
)
    ensures
        overridden(value, Some(set)) == set,
        overridden(value, None) == value,
        ({
            let merged = settings.merged(part);
            &&& merged.background_color == if part.background_color is Some {
                part.background_color->0
            } else {
                settings.background_color
            }
            &&& merged.accent_color == if part.accent_color is Some {
                part.accent_color->0
            } else {
                settings.accent_color
            }
            &&& merged.text_color == if part.text_color is Some {
                part.text_color->0
            } else {
                settings.text_color
            }
            &&& merged.accent_text_color == if part.accent_text_color is Some {
                part.accent_text_color->0
            } else {
                settings.accent_text_color
            }
            &&& merged.corner_radius == if part.corner_radius is Some {
                part.corner_radius->0
            } else {
                settings.corner_radius
            }
        }),
{
}

/// Of the characters that are not ASCII, nineteen are white space.
pub proof fn other_white_space(c: char)
    requires
        c as int >= 0x80,
    ensures
        is_white_space(c) <==> c as int == 0x85 || c as int == 0xa0 || c as int == 0x1680 || (0x2000
            <= c as int && c as int <= 0x200a) || c as int == 0x2028 || c as int == 0x2029 || c
            as int == 0x202f || c as int == 0x205f || c as int == 0x3000,
{
}

/// The variable that overrides the others is asked for first, and each of the others only if those
/// before it have no value that counts.
pub proof fn variables_are_asked_for_in_order<F: FnMut(&str) -> Option<String>>(
    lookup: F,
    values: Seq<Option<String>>,
)
    requires
        asked_in_order(lookup, values),
    ensures
        1 <= values.len() <= 3,
        call_ensures(lookup, ("LC_ALL",), values[0]),
        usable(values[0]) ==> values.len() == 1,
        !usable(values[0]) ==> values.len() >= 2 && call_ensures(
            lookup,
            ("LC_MESSAGES",),
            values[1],
        ),
        !usable(values[0]) && usable(values[1]) ==> values.len() == 2,
        !usable(values[0]) && !usable(values[1]) ==> values.len() == 3 && call_ensures(
            lookup,
            ("LANG",),
            values[2],
        ),
{
}

} // verus!
