//! Helpers for the string fields the value types hold.
//!
//! Strings passed in are borrowed and copied; strings handed out are owned
//! copies, so a caller never shares storage with the value it read from.

use vstd::prelude::*;
use vstd::utf8::{decode_utf8, valid_utf8};

verus! {

/// The text `String::from_utf8_lossy` makes of `bytes`: the bytes decoded as
/// UTF-8, with each invalid sequence replaced by U+FFFD.
pub uninterp spec fn lossy_utf8(bytes: Seq<u8>) -> Seq<char>;

/// Calls `String::from_utf8_lossy` and takes ownership of its result.
///
/// Its result is named by [`lossy_utf8`]; of it the contract states only what
/// the standard library documents: bytes that are valid UTF-8 come back as the
/// text they encode, unchanged. How invalid sequences are replaced is not stated.
#[verifier::external_body]
fn utf8_lossy(bytes: &[u8]) -> (r: String)
    ensures
        r@ == lossy_utf8(bytes@),
        valid_utf8(bytes@) ==> r@ == decode_utf8(bytes@),
{
    String::from_utf8_lossy(bytes).into_owned()
}

/// The text a string the SDK delivered stands for: nothing for a missing
/// buffer or an empty one, otherwise its bytes decoded leniently.
pub open spec fn sdk_text(bytes: Option<Seq<u8>>) -> Seq<char> {
    match bytes {
        Some(b) => if b.len() == 0 {
            Seq::empty()
        } else {
            lossy_utf8(b)
        },
        None => Seq::empty(),
    }
}

/// The bytes of an optional borrowed buffer, if present.
pub open spec fn view_bytes(bytes: Option<&[u8]>) -> Option<Seq<u8>> {
    match bytes {
        Some(b) => Some(b@),
        None => None,
    }
}

/// Decode a length-delimited string the SDK delivered.
///
/// `None` stands for a null buffer. A null or empty buffer gives an empty
/// string. Otherwise invalid UTF-8 is replaced rather than rejected: the SDK
/// sources these from user-authored content, and a lossy name is far better
/// than a failure deep inside a callback. The buffer is not NUL-terminated, so
/// an embedded NUL is kept like any other character.
pub fn decode_lossy(bytes: Option<&[u8]>) -> (r: String)
    ensures
        r@ == sdk_text(view_bytes(bytes)),
        bytes is Some && valid_utf8(bytes.unwrap()@) ==> r@ == decode_utf8(bytes.unwrap()@),
{
    match bytes {
        Some(b) => {
            if b.len() == 0 {
                String::new()
            } else {
                utf8_lossy(b)
            }
        },
        None => String::new(),
    }
}

/// The character sequence an optional owned string holds, if any.
pub open spec fn view_opt(value: Option<String>) -> Option<Seq<char>> {
    match value {
        Some(s) => Some(s@),
        None => None,
    }
}

/// The character sequence an optional borrowed string holds, if any.
pub open spec fn view_opt_str(value: Option<&str>) -> Option<Seq<char>> {
    match value {
        Some(s) => Some(s@),
        None => None,
    }
}

/// An owned copy of an optional borrowed string.
pub(crate) fn own_opt(value: Option<&str>) -> (r: Option<String>)
    ensures
        view_opt(r) == view_opt_str(value),
{
    match value {
        Some(s) => Some(s.to_owned()),
        None => None,
    }
}

/// Whether two optional strings hold the same text, or are both absent.
pub(crate) fn same_opt(a: &Option<String>, b: &Option<String>) -> (r: bool)
    ensures
        r == (view_opt(*a) == view_opt(*b)),
{
    match (a, b) {
        (Some(x), Some(y)) => *x == *y,
        (None, None) => true,
        _ => false,
    }
}

/// An owned copy of an optional owned string.
pub(crate) fn copy_opt(value: &Option<String>) -> (r: Option<String>)
    ensures
        view_opt(r) == view_opt(*value),
{
    match value {
        Some(s) => Some(s.clone()),
        None => None,
    }
}

} // verus!
