use niri_screencast::config::{ScreenCastPicker, ScreenCastPickerPart};

#[test]
fn parts_override_what_they_set() {
    let mut settings = ScreenCastPicker {
        background_color: 1,
        accent_color: 2,
        text_color: 3,
        accent_text_color: 4,
        corner_radius: 16.,
    };
    settings.merge_with(&ScreenCastPickerPart::default());
    assert_eq!(settings.background_color, 1);
    assert_eq!(settings.corner_radius, 16.);

    let part = ScreenCastPickerPart {
        background_color: None,
        accent_color: Some(20),
        text_color: None,
        accent_text_color: Some(40),
        corner_radius: Some(0.5),
    };
    settings.merge_with(&part);
    let once = settings;
    settings.merge_with(&part);
    assert_eq!(settings, once);
    assert_eq!(settings.background_color, 1);
    assert_eq!(settings.accent_color, 20);
    assert_eq!(settings.text_color, 3);
    assert_eq!(settings.accent_text_color, 40);
    assert_eq!(settings.corner_radius, 0.5);
}
