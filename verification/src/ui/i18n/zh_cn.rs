//! Simplified Chinese texts.

use vstd::prelude::*;

use crate::text::join;
use crate::ui::i18n::{Catalog, Messages};

verus! {

/// Whether `m` holds the Simplified Chinese texts.
pub open spec fn texts(m: Messages) -> bool {
    &&& m.locale@ == "zh-CN"@
    &&& m.cancel@ == "取消"@
    &&& m.share@ == "共享"@
    &&& m.share_screen@ == "共享屏幕"@
    &&& m.remember_selection@ == "记住此选择"@
    &&& m.window@ == "窗口"@
    &&& m.display@ == "显示器"@
    &&& m.untitled_window@ == "无标题窗口"@
    &&& m.protected_window@ == "受保护窗口"@
    &&& m.hidden_from_screen_share@ == "已从屏幕共享中隐藏"@
}

/// The Simplified Chinese texts.
pub fn messages() -> (m: Messages)
    ensures
        m.speaks(Catalog::ZhCn),
{
    Messages {
        catalog: Catalog::ZhCn,
        locale: "zh-CN",
        cancel: "取消",
        share: "共享",
        share_screen: "共享屏幕",
        remember_selection: "记住此选择",
        window: "窗口",
        display: "显示器",
        untitled_window: "无标题窗口",
        protected_window: "受保护窗口",
        hidden_from_screen_share: "已从屏幕共享中隐藏",
    }
}

/// What a Chinese speaker reads about the app that wants to share the screen.
pub open spec fn description(app_id: Option<Seq<char>>) -> Seq<char> {
    match app_id {
        Some(app_id) => app_id + " 想要共享你的屏幕。请选择要共享的内容。"@,
        None => "有应用想要共享你的屏幕。请选择要共享的内容。"@,
    }
}

/// Tells a Chinese speaker which app wants to share the screen.
pub fn share_description(app_id: Option<&str>) -> (s: String)
    ensures
        s@ == description(
            match app_id {
                Some(app_id) => Some(app_id@),
                None => None,
            },
        ),
{
    match app_id {
        Some(app_id) => join(app_id, " 想要共享你的屏幕。请选择要共享的内容。"),
        None => "有应用想要共享你的屏幕。请选择要共享的内容。".to_owned(),
    }
}

} // verus!
