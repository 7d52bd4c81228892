# niri_screencast

Screen casting for a Wayland compositor: who may record what, how the user picks it, and how the
desktop portals are answered. The logic is written in Verus and proved against its contracts.

- `src/dbus`: the services that clients talk to, without the bus itself. Messages, replies and
  object exports are plain values; channels and ids are numbers.
- `src/ui`: the source picker (its grid of cards, its input, what a frame of it shows) and its
  texts.
- `src/config.rs`: the settings of the picker.
- `src/text.rs`, `src/assoc.rs`, `src/double.rs`: strings, maps kept as lists, and numbers with a
  fraction.
- `app`: ordinary Rust around the library. It puts the services on the bus, sends the messages,
  computes positions and sizes, and hands the renderer what to draw.

What the library takes on trust stands in `src/dbus/selection_tokens.rs` (the system's random
numbers), `src/dbus/niri_portal_screen_cast.rs` (the text of their errors),
`src/dbus/restore_data.rs` (values of the bus) and `src/text.rs` (appending to a string).
