//! Texts that cross the boundary to a foreign caller.
//!
//! A text is handed over as a NUL-terminated string, so a text with a NUL
//! character inside cannot be represented and is replaced by a fallback.
//! Received bytes become text by a lossy decoding that never fails.

use vstd::prelude::*;
use vstd::string::*;
use vstd::utf8::*;

verus! {

/// A text has a NUL inside when one of its characters is U+0000.
pub open spec fn has_nul(text: Seq<char>) -> bool {
    text.contains('\0')
}

/// The text that stands for `text` at the boundary: `text` itself where it
/// can be NUL-terminated, `fallback` where it cannot.
pub open spec fn boundary_text(text: Seq<char>, fallback: Seq<char>) -> Seq<char> {
    if has_nul(text) {
        fallback
    } else {
        text
    }
}

/// The event kind as it reaches the callback: `"err"` replaces a kind that
/// cannot be represented.
pub open spec fn event_text(kind: Seq<char>) -> Seq<char> {
    boundary_text(kind, "err"@)
}

/// The payload as it reaches the callback: the empty text replaces a payload
/// that cannot be represented.
pub open spec fn payload_text(payload: Seq<char>) -> Seq<char> {
    boundary_text(payload, Seq::<char>::empty())
}

proof fn lemma_width_1_byte(scalar: u32)
    by (bit_vector)
    requires
        scalar <= 0x7F,
    ensures
        (scalar & 0x7F) as u8 == 0u8 <==> scalar == 0,
{
}

proof fn lemma_leading_bytes_nonzero(scalar: u32)
    by (bit_vector)
    ensures
        0xC0u8 | ((scalar >> 6) & 0x1F) as u8 != 0u8,
        0xE0u8 | ((scalar >> 12) & 0x0F) as u8 != 0u8,
        0xF0u8 | ((scalar >> 18) & 0x7) as u8 != 0u8,
{
}

proof fn lemma_continuation_bytes_nonzero(scalar: u32)
    by (bit_vector)
    ensures
        0x80u8 | (scalar & 0x3F) as u8 != 0u8,
        0x80u8 | ((scalar >> 6) & 0x3F) as u8 != 0u8,
        0x80u8 | ((scalar >> 12) & 0x3F) as u8 != 0u8,
{
}

/// The encoding of one character holds a zero byte exactly when the
/// character is U+0000.
proof fn lemma_scalar_nul(c: char)
    ensures
        encode_scalar(c as u32).contains(0u8) <==> c == '\0',
{
    let scalar = c as u32;
    let bytes = encode_scalar(scalar);
    lemma_leading_bytes_nonzero(scalar);
    lemma_continuation_bytes_nonzero(scalar);
    if has_width_1_encoding(scalar) {
        lemma_width_1_byte(scalar);
        assert(bytes.len() == 1);
        if c == '\0' {
            assert(bytes[0] == 0u8);
        }
    }
    if bytes.contains(0u8) {
        let i = choose|i: int| 0 <= i < bytes.len() && bytes[i] == 0u8;
        assert(bytes[i] == 0u8);
    }
}

/// The UTF-8 encoding of a text holds a zero byte exactly when the text has
/// a NUL inside.
pub proof fn lemma_encoded_nul(text: Seq<char>)
    ensures
        encode_utf8(text).contains(0u8) <==> has_nul(text),
    decreases text.len(),
{
    if text.len() > 0 {
        let head = encode_scalar(text[0] as u32);
        let rest = text.drop_first();
        let tail = encode_utf8(rest);
        lemma_scalar_nul(text[0]);
        lemma_encoded_nul(rest);
        assert(encode_utf8(text) == head + tail);
        if (head + tail).contains(0u8) {
            let i = choose|i: int| 0 <= i < (head + tail).len() && (head + tail)[i] == 0u8;
            if i < head.len() {
                assert(head[i] == 0u8);
            } else {
                assert(tail[i - head.len()] == 0u8);
                let j = choose|j: int| 0 <= j < rest.len() && rest[j] == '\0';
                assert(text[j + 1] == '\0');
            }
        }
        if has_nul(text) {
            let j = choose|j: int| 0 <= j < text.len() && text[j] == '\0';
            if j == 0 {
                let k = choose|k: int| 0 <= k < head.len() && head[k] == 0u8;
                assert((head + tail)[k] == 0u8);
            } else {
                assert(rest[j - 1] == '\0');
                let k = choose|k: int| 0 <= k < tail.len() && tail[k] == 0u8;
                assert((head + tail)[k + head.len()] == 0u8);
            }
        }
    }
}

/// Whether `text` has a NUL inside.
pub fn contains_nul(text: &str) -> (found: bool)
    ensures
        found == has_nul(text@),
{
    let bytes = text.as_bytes();
    proof {
        lemma_encoded_nul(text@);
    }
    let mut i: usize = 0;
    while i < bytes.len()
        invariant
            i <= bytes.len(),
            bytes@.contains(0u8) <==> has_nul(text@),
            forall|j: int| 0 <= j < i ==> bytes@[j] != 0u8,
        decreases bytes.len() - i,
    {
        if bytes[i] == 0 {
            assert(bytes@[i as int] == 0u8);
            return true;
        }
        i += 1;
    }
    false
}

/// The text that stands for `text` at the boundary, as an owned string.
fn to_boundary(text: &str, fallback: &str) -> (shown: String)
    ensures
        shown@ == boundary_text(text@, fallback@),
{
    if contains_nul(text) {
        fallback.to_owned()
    } else {
        text.to_owned()
    }
}

/// The event kind as it is handed to the callback.
pub fn to_event_text(kind: &str) -> (shown: String)
    ensures
        shown@ == event_text(kind@),
        !has_nul(shown@),
{
    proof {
        reveal_strlit("err");
        assert(!has_nul("err"@)) by {
            if has_nul("err"@) {
                let i = choose|i: int| 0 <= i < "err"@.len() && "err"@[i] == '\0';
                assert("err"@[i] == '\0');
            }
        }
    }
    to_boundary(kind, "err")
}

/// The payload as it is handed to the callback.
pub fn to_payload_text(payload: &str) -> (shown: String)
    ensures
        shown@ == payload_text(payload@),
        !has_nul(shown@),
{
    proof {
        reveal_strlit("");
        assert("".view() =~= Seq::<char>::empty());
    }
    to_boundary(payload, "")
}

/// The text that `String::from_utf8_lossy` makes of `bytes`.
pub uninterp spec fn utf8_lossy(bytes: Seq<u8>) -> Seq<char>;

/// The text that received bytes are shown as: their decoding where they are
/// valid UTF-8, and otherwise the lossy decoding, in which each invalid
/// sequence is replaced.
pub open spec fn received_text(bytes: Seq<u8>) -> Seq<char> {
    if valid_utf8(bytes) {
        decode_utf8(bytes)
    } else {
        utf8_lossy(bytes)
    }
}

/// Calls `String::from_utf8_lossy`. Trusted: the result is a function of the
/// bytes alone, and for valid UTF-8 it is the text that the bytes encode.
/// Nothing is claimed of how invalid sequences are replaced.
#[verifier::external_body]
pub(crate) fn from_utf8_lossy(bytes: &[u8]) -> (text: String)
    ensures
        text@ == utf8_lossy(bytes@),
        valid_utf8(bytes@) ==> text@ == decode_utf8(bytes@),
{
    String::from_utf8_lossy(bytes).to_string()
}

/// Calls `std::str::from_utf8`. Trusted: it accepts exactly the valid UTF-8
/// byte strings, and then gives the text that the bytes encode.
#[verifier::external_body]
pub(crate) fn from_utf8(bytes: &[u8]) -> (text: Option<&str>)
    ensures
        text is Some <==> valid_utf8(bytes@),
        text matches Some(t) ==> t@ == decode_utf8(bytes@),
{
    std::str::from_utf8(bytes).ok()
}

/// A text that is encoded and received again is shown unchanged.
pub proof fn lemma_received_encoded(text: Seq<char>)
    ensures
        valid_utf8(encode_utf8(text)),
        received_text(encode_utf8(text)) == text,
{
    encode_utf8_valid_utf8(text);
    encode_utf8_decode_utf8(text);
}

} // verus!
