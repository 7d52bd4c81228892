//! English texts.

use vstd::prelude::*;

use crate::text::join;
use crate::ui::i18n::{Catalog, Messages};

verus! {

/// Whether `m` holds the English texts.
pub open spec fn texts(m: Messages) -> bool {
    &&& m.locale@ == "en-US"@
    &&& m.cancel@ == "Cancel"@
    &&& m.share@ == "Share"@
    &&& m.share_screen@ == "Share Screen"@
    &&& m.remember_selection@ == "Remember this selection"@
    &&& m.window@ == "Window"@
    &&& m.display@ == "Display"@
    &&& m.untitled_window@ == "Untitled window"@
    &&& m.protected_window@ == "Protected window"@
    &&& m.hidden_from_screen_share@ == "Hidden from screen sharing"@
}

/// The English texts.
pub fn messages() -> (m: Messages)
    ensures
        m.speaks(Catalog::EnUs),
{
    Messages {
        catalog: Catalog::EnUs,
        locale: "en-US",
        cancel: "Cancel",
        share: "Share",
        share_screen: "Share Screen",
        remember_selection: "Remember this selection",
        window: "Window",
        display: "Display",
        untitled_window: "Untitled window",
        protected_window: "Protected window",
        hidden_from_screen_share: "Hidden from screen sharing",
    }
}

/// What an English speaker reads about the app that wants to share the screen.
pub open spec fn description(app_id: Option<Seq<char>>) -> Seq<char> {
    match app_id {
        Some(app_id) => app_id
            + " wants to share your screen. Choose what you would like to share."@,
        None => "An app wants to share your screen. Choose what you would like to share."@,
    }
}

/// Tells an English speaker which app wants to share the screen.
pub fn share_description(app_id: Option<&str>) -> (s: String)
    ensures
        s@ == description(
            match app_id {
                Some(app_id) => Some(app_id@),
                None => None,
            },
        ),
{
    match app_id {
        Some(app_id) => join(
            app_id,
            " wants to share your screen. Choose what you would like to share.",
        ),
        None =>
            "An app wants to share your screen. Choose what you would like to share.".to_owned(),
    }
}

} // verus!
