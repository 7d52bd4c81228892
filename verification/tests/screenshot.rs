use niri_screencast::dbus::bus::{BusError, RESPONSE_CANCELLED, RESPONSE_ERROR, RESPONSE_SUCCESS};
use niri_screencast::dbus::gnome_shell_screenshot::{
    file_uri, interactive_screenshot, pick_color, receive_area, receive_path, send_error,
    ScreenshotPortalError, ScreenshotToNiri,
};
use niri_screencast::dbus::portal_backend::ScreenshotBackend;

#[test]
fn file_uri_percent_encodes_path_bytes() {
    assert_eq!(
        file_uri("/tmp/a screenshot #1.png".as_bytes()),
        "file:///tmp/a%20screenshot%20%231.png"
    );
}

#[test]
fn file_uri_keeps_unreserved_bytes_and_encodes_the_rest() {
    assert_eq!(file_uri(b"/aZ09-._~/"), "file:///aZ09-._~/");
    assert_eq!(file_uri(&[0x2f, 0x00, 0x25, 0xc3, 0xbc, 0xff]), "file:///%00%25%C3%BC%FF");
    assert_eq!(file_uri(&[]), "file://");
}

#[test]
fn answers_are_mapped_to_errors() {
    let failed = |text: &str| BusError::Failed(text.to_owned());
    assert_eq!(receive_path(Ok(Ok(5))).unwrap(), 5);
    assert_eq!(
        receive_path::<u8>(Ok(Err(ScreenshotPortalError::Cancelled))).unwrap_err(),
        failed("screenshot was canceled")
    );
    assert_eq!(
        receive_path::<u8>(Ok(Err(ScreenshotPortalError::Failed("disk".to_owned())))).unwrap_err(),
        failed("disk")
    );
    assert_eq!(
        receive_path::<u8>(Err("closed".to_owned())).unwrap_err(),
        failed("screenshot reply channel closed: closed")
    );
    assert_eq!(
        receive_area(Err("closed".to_owned())).unwrap_err(),
        failed("selection reply channel closed: closed")
    );
    assert_eq!(receive_area(Ok(Ok((1, 2, 3, 4)))).unwrap(), (1, 2, 3, 4));
    assert_eq!(pick_color(Ok(Some(7))).unwrap(), 7);
    assert_eq!(
        pick_color::<u8>(Ok(None)).unwrap_err(),
        failed("no color picked")
    );
    assert_eq!(
        pick_color::<u8>(Err(())).unwrap_err(),
        failed("internal error")
    );
}

#[test]
fn interactive_screenshots_report_cancellation() {
    assert_eq!(
        interactive_screenshot(Ok(Ok(b"/a b".to_vec()))).unwrap(),
        (true, "file:///a%20b".to_owned())
    );
    assert_eq!(
        interactive_screenshot(Ok(Err(ScreenshotPortalError::Cancelled))).unwrap(),
        (false, String::new())
    );
    assert!(
        interactive_screenshot(Ok(Err(ScreenshotPortalError::Failed("x".to_owned())))).is_err()
    );
    assert!(interactive_screenshot(Err("x".to_owned())).is_err());
}

#[test]
fn send_errors_depend_on_the_message() {
    let failed = |text: &str| BusError::Failed(text.to_owned());
    let take = ScreenshotToNiri::TakeScreenshot {
        include_cursor: true,
        reply: 1,
    };
    assert_eq!(send_error(&take, "x"), failed("internal error"));
    assert_eq!(
        send_error(&ScreenshotToNiri::PickColor { reply: 1 }, "x"),
        failed("internal error")
    );
    assert_eq!(
        send_error(&ScreenshotToNiri::CancelScreenshot, "x"),
        failed("error sending cancellation to niri: x")
    );
    assert_eq!(
        send_error(&ScreenshotToNiri::SelectArea { reply: 1 }, "x"),
        failed("error sending message to niri: x")
    );
}

#[test]
fn the_portal_answers_with_response_codes() {
    let (response, results) = ScreenshotBackend::screenshot(Some(Ok(b"/a".to_vec())));
    assert_eq!(response, RESPONSE_SUCCESS);
    assert_eq!(results.uri.as_deref(), Some("file:///a"));
    let (response, results) =
        ScreenshotBackend::screenshot(Some(Err(ScreenshotPortalError::Cancelled)));
    assert_eq!(response, RESPONSE_CANCELLED);
    assert!(results.uri.is_none());
    let (response, _) = ScreenshotBackend::screenshot(Some(Err(ScreenshotPortalError::Failed(
        "x".to_owned(),
    ))));
    assert_eq!(response, RESPONSE_ERROR);
    assert_eq!(ScreenshotBackend::screenshot(None).0, RESPONSE_ERROR);

    let (response, results) = ScreenshotBackend::pick_color(Some(Some((0.5, 0.25, 1.0))));
    assert_eq!(response, RESPONSE_SUCCESS);
    assert_eq!(results.color, Some((0.5, 0.25, 1.0)));
    assert_eq!(
        ScreenshotBackend::pick_color::<u8>(Some(None)).0,
        RESPONSE_CANCELLED
    );
    assert_eq!(ScreenshotBackend::pick_color::<u8>(None).0, RESPONSE_ERROR);
    assert_eq!(
        ScreenshotBackend::screenshot_unreachable("x"),
        BusError::Failed("error sending screenshot request to niri: x".to_owned())
    );
    assert_eq!(
        ScreenshotBackend::color_unreachable("x"),
        BusError::Failed("error sending pick color request to niri: x".to_owned())
    );
    assert_eq!(ScreenshotBackend::version(), 2);
}
