//! Screen casting for a Wayland compositor: who may record what, how the user picks it, and how
//! the desktop portals are answered.
//!
//! - [`dbus`]: the services that clients talk to, without the bus itself.
//! - [`ui`]: the source picker and its texts.
//! - [`config`]: the settings of the picker.
//! - [`laws`]: what the library promises, stated of inputs and results.
//! - [`text`], [`assoc`], [`double`]: strings, maps kept as lists, and numbers with a fraction.

pub mod assoc;
pub mod config;
pub mod dbus;
pub mod double;
pub mod laws;
pub mod text;
pub mod ui;
