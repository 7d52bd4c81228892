//! The services that clients talk to, without the bus itself.

pub mod bus;
pub mod freedesktop_portal;
pub mod gnome_shell_screenshot;
pub mod mutter_screen_cast;
pub mod niri_portal_screen_cast;
pub mod outputs;
pub mod picker_options;
pub mod portal_backend;
pub mod restore_data;
pub mod selection_tokens;
pub mod target;
