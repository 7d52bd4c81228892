//! The source picker: the dialog in which the user chooses what to share.

pub mod candidate;
pub mod frame;
pub mod grid;
pub mod open_picker;
pub mod panel;
pub mod picker_ui;
pub mod previews;
