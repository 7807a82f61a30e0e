//! The sample payload: a fixed buffer of 101 bytes that is read as text
//! for display only.

use vstd::prelude::*;
use vstd::utf8::{decode_utf8, valid_utf8};

verus! {

/// Number of bytes in every payload, whatever its logical content.
pub const PAYLOAD_LEN: usize = 101;

/// One unit of streamed data. The view is the byte sequence, always of
/// length [`PAYLOAD_LEN`]; trailing bytes that carry no content are zero
/// or stale.
pub struct MapApiLanesStamped {
    pub string_data: [u8; 101],
}

impl View for MapApiLanesStamped {
    type V = Seq<u8>;

    open spec fn view(&self) -> Seq<u8> {
        self.string_data@
    }
}

/// The text shown for a payload: the decoded characters where the bytes
/// are UTF-8, the placeholder where they are not. A zero byte is a valid
/// encoding of U+0000, so zero padding shows up as that many NUL
/// characters at the end of the text.
pub open spec fn shown_text(bytes: Seq<u8>) -> Seq<char> {
    if valid_utf8(bytes) {
        decode_utf8(bytes)
    } else {
        "<invalid utf8>"@
    }
}

/// `core::str::from_utf8`, with the error dropped. Trusted: it returns a
/// string exactly when the bytes are well-formed UTF-8, and that string is
/// the decoding of the very same bytes.
#[verifier::external_body]
fn checked_utf8(bytes: &[u8]) -> (r: Option<&str>)
    ensures
        r is Some <==> valid_utf8(bytes@),
        r matches Some(s) ==> s@ == decode_utf8(bytes@),
{
    match core::str::from_utf8(bytes) {
        Ok(s) => Some(s),
        Err(_) => None,
    }
}

impl Default for MapApiLanesStamped {
    /// The zero-filled payload.
    fn default() -> (r: Self)
        ensures
            r@ == Seq::new(PAYLOAD_LEN as nat, |i: int| 0u8),
    {
        let r = Self { string_data: [0u8; 101] };
        assert(r@ =~= Seq::new(PAYLOAD_LEN as nat, |i: int| 0u8));
        r
    }
}

impl MapApiLanesStamped {
    /// The size of a payload in bytes.
    pub fn size(&self) -> (n: usize)
        ensures
            n == PAYLOAD_LEN,
            n == self@.len(),
    {
        self.string_data.as_slice().len()
    }

    /// The payload as text, validated on every read: `Some` exactly when
    /// all 101 bytes form well-formed UTF-8.
    pub fn as_text(&self) -> (r: Option<&str>)
        ensures
            r is Some <==> valid_utf8(self@),
            r matches Some(s) ==> s@ == decode_utf8(self@),
    {
        checked_utf8(self.string_data.as_slice())
    }

    /// The text to display for this payload. Never fails: bytes that are
    /// not UTF-8 give the placeholder.
    pub fn display_text(&self) -> (r: &str)
        ensures
            r@ == shown_text(self@),
    {
        match self.as_text() {
            Some(s) => s,
            None => "<invalid utf8>",
        }
    }
}

} // verus!
