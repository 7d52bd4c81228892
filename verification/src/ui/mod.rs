//! What the user sees: the texts and the source picker.

pub mod i18n;
pub mod picker;
