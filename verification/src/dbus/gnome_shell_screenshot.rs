//! The screenshot service: what it asks of the compositor, and what it makes of the answers.

use vstd::prelude::*;

use crate::dbus::bus::{BusError, Fault};

verus! {

/// What the screenshot services ask of the compositor. `reply` is the number of the channel that
/// waits for the answer.
#[derive(Debug, Clone, Copy, PartialEq, Eq, Structural)]
pub enum ScreenshotToNiri {
    TakeScreenshot { include_cursor: bool, reply: u64 },
    InteractiveScreenshot { reply: u64 },
    TakeWindow { include_cursor: bool, reply: u64 },
    SelectArea { reply: u64 },
    TakeArea { x: i32, y: i32, width: i32, height: i32, reply: u64 },
    CancelScreenshot,
    PickColor { reply: u64 },
}

/// Why there is no screenshot.
#[derive(Debug, PartialEq, Eq)]
pub enum ScreenshotPortalError {
    Cancelled,
    Failed(String),
}

/// The fault that a missing screenshot is answered with.
pub open spec fn screenshot_fault(error: ScreenshotPortalError) -> Fault {
    match error {
        ScreenshotPortalError::Cancelled => Fault::Failed("screenshot was canceled"@),
        ScreenshotPortalError::Failed(message) => Fault::Failed(message@),
    }
}

/// The error that a missing screenshot is answered with.
pub fn portal_error(error: ScreenshotPortalError) -> (err: BusError)
    ensures
        err@ == screenshot_fault(error),
{
    match error {
        ScreenshotPortalError::Cancelled => BusError::failed("screenshot was canceled"),
        ScreenshotPortalError::Failed(message) => BusError::Failed(message),
    }
}

/// The error for a message that could not be sent; `why` says what went wrong.
pub fn send_error(message: &ScreenshotToNiri, why: &str) -> (err: BusError)
    ensures
        err@ == Fault::Failed(
            match *message {
                ScreenshotToNiri::TakeScreenshot { .. } => "internal error"@,
                ScreenshotToNiri::PickColor { .. } => "internal error"@,
                ScreenshotToNiri::CancelScreenshot => "error sending cancellation to niri: "@
                    + why@,
                _ => "error sending message to niri: "@ + why@,
            },
        ),
{
    match message {
        ScreenshotToNiri::TakeScreenshot { .. } => BusError::failed("internal error"),
        ScreenshotToNiri::PickColor { .. } => BusError::failed("internal error"),
        ScreenshotToNiri::CancelScreenshot => BusError::failed_because(
            "error sending cancellation to niri: ",
            why,
        ),
        _ => BusError::failed_because("error sending message to niri: ", why),
    }
}

/// What an answer to a request for `P` amounts to, where `lost` says what it means that the
/// channel was closed. Such an answer holds the reason for that in its error.
fn receive<P>(received: Result<Result<P, ScreenshotPortalError>, String>, lost: &str) -> (r: Result<
    P,
    BusError,
>)
    ensures
        match received {
            Ok(Ok(p)) => r == Ok::<P, BusError>(p),
            Ok(Err(error)) => r is Err && r->Err_0@ == screenshot_fault(error),
            Err(why) => r is Err && r->Err_0@ == Fault::Failed(lost@ + why@),
        },
{
    match received {
        Ok(Ok(p)) => Ok(p),
        Ok(Err(error)) => Err(portal_error(error)),
        Err(why) => Err(BusError::failed_because(lost, why.as_str())),
    }
}

/// What the answer to a request for a screenshot amounts to. The outer error says why the channel
/// was closed.
pub fn receive_path<P>(received: Result<Result<P, ScreenshotPortalError>, String>) -> (r: Result<
    P,
    BusError,
>)
    ensures
        match received {
            Ok(Ok(p)) => r == Ok::<P, BusError>(p),
            Ok(Err(error)) => r is Err && r->Err_0@ == screenshot_fault(error),
            Err(why) => r is Err && r->Err_0@ == Fault::Failed(
                "screenshot reply channel closed: "@ + why@,
            ),
        },
{
    receive(received, "screenshot reply channel closed: ")
}

/// What the answer to a request for an area amounts to. The outer error says why the channel was
/// closed.
pub fn receive_area(
    received: Result<Result<(i32, i32, i32, i32), ScreenshotPortalError>, String>,
) -> (r: Result<(i32, i32, i32, i32), BusError>)
    ensures
        match received {
            Ok(Ok(area)) => r == Ok::<(i32, i32, i32, i32), BusError>(area),
            Ok(Err(error)) => r is Err && r->Err_0@ == screenshot_fault(error),
            Err(why) => r is Err && r->Err_0@ == Fault::Failed(
                "selection reply channel closed: "@ + why@,
            ),
        },
{
    receive(received, "selection reply channel closed: ")
}

/// What an interactive screenshot is answered with: whether there is one, and its URI. The path is
/// absolute.
pub fn interactive_screenshot(
    received: Result<Result<Vec<u8>, ScreenshotPortalError>, String>,
) -> (r: Result<(bool, String), BusError>)
    ensures
        match received {
            Ok(Ok(path)) => r is Ok && r->Ok_0.0 && r->Ok_0.1@ == uri_of(path@),
            Ok(Err(ScreenshotPortalError::Cancelled)) => r is Ok && !r->Ok_0.0 && r->Ok_0.1@
                == Seq::<char>::empty(),
            Ok(Err(error)) => r is Err && r->Err_0@ == screenshot_fault(error),
            Err(why) => r is Err && r->Err_0@ == Fault::Failed(
                "screenshot reply channel closed: "@ + why@,
            ),
        },
{
    match received {
        Ok(Err(ScreenshotPortalError::Cancelled)) => Ok((false, String::new())),
        other => match receive_path(other) {
            Ok(path) => Ok((true, file_uri(path.as_slice()))),
            Err(err) => Err(err),
        },
    }
}

/// What the answer to a request for a color amounts to. Nothing is known of why a channel was
/// closed.
pub fn pick_color<C>(received: Result<Option<C>, ()>) -> (r: Result<C, BusError>)
    ensures
        match received {
            Ok(Some(color)) => r == Ok::<C, BusError>(color),
            Ok(None) => r is Err && r->Err_0@ == Fault::Failed("no color picked"@),
            Err(_) => r is Err && r->Err_0@ == Fault::Failed("internal error"@),
        },
{
    match received {
        Ok(Some(color)) => Ok(color),
        Ok(None) => Err(BusError::failed("no color picked")),
        Err(_) => Err(BusError::failed("internal error")),
    }
}

/// Whether a byte of a path stands for itself in a URI.
pub open spec fn stands_for_itself(byte: u8) -> bool {
    ||| 0x41 <= byte <= 0x5a
    ||| 0x61 <= byte <= 0x7a
    ||| 0x30 <= byte <= 0x39
    ||| byte == 0x2d
    ||| byte == 0x2e
    ||| byte == 0x5f
    ||| byte == 0x7e
    ||| byte == 0x2f
}

/// The hexadecimal digit `d`.
pub open spec fn hex_digit(d: u8) -> char {
    if d < 10 {
        (0x30 + d) as char
    } else {
        (0x41 + d - 10) as char
    }
}

/// What a byte of a path becomes in a URI: itself, or its number in hexadecimal behind a percent
/// sign.
pub open spec fn encoded_byte(byte: u8) -> Seq<char> {
    if stands_for_itself(byte) {
        seq![byte as char]
    } else {
        seq!['%', hex_digit(byte / 16), hex_digit(byte % 16)]
    }
}

/// What the bytes of a path become in a URI.
pub open spec fn encoded(path: Seq<u8>) -> Seq<char>
    decreases path.len(),
{
    if path.len() == 0 {
        Seq::empty()
    } else {
        encoded(path.drop_last()) + encoded_byte(path.last())
    }
}

/// The URI of an absolute path.
pub open spec fn uri_of(path: Seq<u8>) -> Seq<char> {
    "file://"@ + encoded(path)
}

fn hex_char(d: u8) -> (c: char)
    requires
        d < 16,
    ensures
        c == hex_digit(d),
{
    if d < 10 {
        (48u8 + d) as char
    } else {
        (65u8 + (d - 10)) as char
    }
}

/// The URI of an absolute path.
pub fn file_uri(path: &[u8]) -> (uri: String)
    ensures
        uri@ == uri_of(path@),
{
    let mut uri: String = "file://".to_owned();
    assert(uri@ =~= "file://"@ + encoded(path@.take(0)));
    for i in 0..path.len()
        invariant
            uri@ == "file://"@ + encoded(path@.take(i as int)),
    {
        let byte: u8 = path[i];
        let ghost before = path@.take(i as int);
        let ghost seen = path@.take(i + 1);
        assert(seen.drop_last() =~= before);
        assert(seen.last() == byte);
        let ghost start = uri@;
        if (0x41 <= byte && byte <= 0x5a) || (0x61 <= byte && byte <= 0x7a) || (0x30 <= byte && byte
            <= 0x39) || byte == 0x2d || byte == 0x2e || byte == 0x5f || byte == 0x7e || byte
            == 0x2f {
            uri.push(byte as char);
        } else {
            uri.push('%');
            uri.push(hex_char(byte / 16));
            uri.push(hex_char(byte % 16));
        }
        assert(uri@ =~= start + encoded_byte(byte));
        assert(uri@ =~= "file://"@ + encoded(seen));
    }
    assert(path@.take(path@.len() as int) =~= path@);
    uri
}

/// The number that a hexadecimal digit stands for.
pub open spec fn hex_value(c: char) -> int {
    if c as int >= 0x41 {
        c as int - 0x41 + 10
    } else {
        c as int - 0x30
    }
}

/// The bytes that a part of a URI stands for.
pub open spec fn decoded(text: Seq<char>) -> Seq<u8>
    decreases text.len(),
{
    if text.len() == 0 {
        Seq::empty()
    } else if text[0] == '%' && text.len() >= 3 {
        seq![(hex_value(text[1]) * 16 + hex_value(text[2])) as u8] + decoded(text.skip(3))
    } else {
        seq![text[0] as u8] + decoded(text.skip(1))
    }
}

proof fn byte_is_read_back(byte: u8, rest: Seq<char>)
    ensures
        decoded(encoded_byte(byte) + rest) == seq![byte] + decoded(rest),
{
    let text = encoded_byte(byte) + rest;
    if stands_for_itself(byte) {
        assert(text[0] == byte as char);
        assert((byte as char) as u8 == byte);
        assert(text[0] != '%');
        assert(text.skip(1) =~= rest);
    } else {
        assert(text[0] == '%');
        assert(text[1] == hex_digit(byte / 16));
        assert(text[2] == hex_digit(byte % 16));
        assert(text.skip(3) =~= rest);
        assert(hex_value(hex_digit(byte / 16)) == byte / 16);
        assert(hex_value(hex_digit(byte % 16)) == byte % 16);
    }
}

proof fn bytes_are_read_back(path: Seq<u8>, rest: Seq<char>)
    ensures
        decoded(encoded(path) + rest) == path + decoded(rest),
    decreases path.len(),
{
    if path.len() == 0 {
        assert(encoded(path) + rest =~= rest);
        assert(path + decoded(rest) =~= decoded(rest));
    } else {
        let head = path.drop_last();
        let tail = encoded_byte(path.last()) + rest;
        assert(encoded(path) + rest =~= encoded(head) + tail);
        bytes_are_read_back(head, tail);
        byte_is_read_back(path.last(), rest);
        assert(head + (seq![path.last()] + decoded(rest)) =~= path + decoded(rest));
    }
}

/// The path can be read back from its URI, so different paths have different URIs.
pub proof fn path_is_read_back(path: Seq<u8>)
    ensures
        decoded(uri_of(path).skip(7)) == path,
{
    reveal_strlit("file://");
    assert(uri_of(path).skip(7) =~= encoded(path));
    bytes_are_read_back(path, Seq::empty());
    assert(encoded(path) + Seq::<char>::empty() =~= encoded(path));
    assert(path + decoded(Seq::empty()) =~= path);
}

} // verus!
