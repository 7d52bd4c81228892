//! What the library promises, stated of the inputs and the results of its operations.

pub mod grid;
pub mod options;
pub mod outputs;
pub mod picker;
pub mod portal;
pub mod previews;
pub mod screenshots;
pub mod services;
pub mod states;
pub mod texts;
