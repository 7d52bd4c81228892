//! Screenshots: the URIs that they are answered with.

use vstd::prelude::*;

use crate::dbus::bus::Fault;
use crate::dbus::gnome_shell_screenshot::{
    encoded, encoded_byte, screenshot_fault, uri_of, ScreenshotPortalError,
};

verus! {

/// A URI begins with its scheme, and what follows spells the path byte by byte: the URI of a longer
/// path is that of its beginning, followed by what its end becomes.
pub proof fn uris_spell_the_path_byte_by_byte(head: Seq<u8>, tail: Seq<u8>)
    ensures
        uri_of(head).len() >= 7,
        uri_of(head).take(7) == seq!['f', 'i', 'l', 'e', ':', '/', '/'],
        uri_of(Seq::empty()).len() == 7,
        uri_of(head + tail) == uri_of(head) + uri_of(tail).skip(7),
    decreases tail.len(),
{
    reveal_strlit("file://");
    assert("file://"@ =~= seq!['f', 'i', 'l', 'e', ':', '/', '/']);
    assert(uri_of(head).take(7) =~= "file://"@);
    assert(uri_of(tail).skip(7) =~= encoded(tail));
    if tail.len() == 0 {
        assert(head + tail =~= head);
        assert(uri_of(head) + encoded(tail) =~= uri_of(head));
    } else {
        let less = tail.drop_last();
        uris_spell_the_path_byte_by_byte(head, less);
        assert(uri_of(less).skip(7) =~= encoded(less));
        assert((head + tail).drop_last() =~= head + less);
        assert((head + tail).last() == tail.last());
        assert(uri_of(head + tail) =~= uri_of(head + less) + encoded(seq![tail.last()])) by {
            one_byte(tail.last());
        }
        assert(encoded(tail) =~= encoded(less) + encoded(seq![tail.last()])) by {
            one_byte(tail.last());
        }
    }
}

proof fn one_byte(byte: u8)
    ensures
        encoded(seq![byte]) == encoded_byte(byte),
{
    assert(seq![byte].drop_last() =~= Seq::<u8>::empty());
    assert(encoded(seq![byte].drop_last()).len() == 0);
    assert(encoded(seq![byte]) =~= encoded_byte(byte));
}

/// Each byte of a path becomes one ASCII character or three: an ASCII letter, an ASCII digit, a
/// hyphen, a dot, an underscore, a tilde and a slash become themselves, and every other byte, among
/// them all that are not ASCII, a percent sign and its two hexadecimal digits.
pub proof fn every_other_byte_is_escaped(byte: u8)
    ensures
        ({
            let c = byte as char;
            let text = uri_of(seq![byte]).skip(7);
            let plain = ('A' <= c && c <= 'Z') || ('a' <= c && c <= 'z') || ('0' <= c && c <= '9')
                || c == '-' || c == '.' || c == '_' || c == '~' || c == '/';
            &&& plain ==> text == seq![c]
            &&& byte >= 0x80 ==> !plain
            &&& !plain ==> {
                &&& text.len() == 3
                &&& text[0] == '%'
                &&& forall|i: int|
                    1 <= i < 3 ==> ('0' <= #[trigger] text[i] && text[i] <= '9') || ('A' <= text[i]
                        && text[i] <= 'F')
                &&& byte as int == 16 * (if text[1] <= '9' {
                    text[1] as int - '0' as int
                } else {
                    text[1] as int - 'A' as int + 10
                }) + (if text[2] <= '9' {
                    text[2] as int - '0' as int
                } else {
                    text[2] as int - 'A' as int + 10
                })
            }
        }),
{
    one_byte(byte);
    reveal_strlit("file://");
    assert(uri_of(seq![byte]).skip(7) =~= encoded(seq![byte]));
    let c = byte as char;
    assert(c as int == byte);
}

/// A URI is ASCII throughout: behind the scheme stand only letters, digits, the five characters
/// that stand for themselves, and percent signs with two hexadecimal digits behind each.
pub proof fn uris_are_ascii(path: Seq<u8>, i: int)
    requires
        7 <= i < uri_of(path).len(),
    ensures
        ({
            let uri = uri_of(path);
            let c = uri[i];
            &&& (c as int) < 0x80
            &&& ('A' <= c && c <= 'Z') || ('a' <= c && c <= 'z') || ('0' <= c && c <= '9') || c
                == '-' || c == '.' || c == '_' || c == '~' || c == '/' || c == '%'
            &&& c == '%' ==> i + 2 < uri.len() && (('0' <= uri[i + 1] && uri[i + 1] <= '9') || (
            'A' <= uri[i + 1] && uri[i + 1] <= 'F')) && (('0' <= uri[i + 2] && uri[i + 2] <= '9')
                || ('A' <= uri[i + 2] && uri[i + 2] <= 'F'))
        }),
    decreases path.len(),
{
    reveal_strlit("file://");
    if path.len() > 0 {
        let head = path.drop_last();
        let last = seq![path.last()];
        assert(path =~= head + last);
        uris_spell_the_path_byte_by_byte(head, last);
        every_other_byte_is_escaped(path.last());
        let n = uri_of(head).len() as int;
        let text = uri_of(last).skip(7);
        if i < n {
            uris_are_ascii(head, i);
        } else {
            assert(uri_of(path)[i] == text[i - n]);
            if text.len() == 3 {
                assert(uri_of(path)[n] == text[0]);
                assert(uri_of(path)[n + 1] == text[1]);
                assert(uri_of(path)[n + 2] == text[2]);
            }
        }
    }
}

/// A screenshot that was cancelled says so, and one that failed says why.
pub proof fn missing_screenshots_say_why(error: ScreenshotPortalError)
    ensures
        error is Cancelled ==> screenshot_fault(error) == Fault::Failed("screenshot was canceled"@),
        error is Failed ==> screenshot_fault(error) == Fault::Failed(error->Failed_0@),
{
}

} // verus!
