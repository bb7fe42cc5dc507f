//! Window titles as C strings.
//!
//! AppKit takes the title as NUL-terminated UTF-8. A title that itself holds
//! a NUL would end there, so such a title is refused instead of shortened.

use vstd::prelude::*;
use vstd::slice::slice_to_vec;
use vstd::utf8::{char_u32_cast, encode_scalar, encode_utf8};
use crate::error::WindowError;

verus! {

/// The bytes of a title: its UTF-8 encoding.
pub open spec fn title_bytes(title: Seq<char>) -> Seq<u8> {
    encode_utf8(title)
}

/// Whether a NUL byte occurs among `bytes`.
pub open spec fn has_nul(bytes: Seq<u8>) -> bool {
    exists|i: int| 0 <= i < bytes.len() && bytes[i] == 0u8
}

/// Whether the NUL character occurs in `title`.
pub open spec fn has_nul_char(title: Seq<char>) -> bool {
    exists|i: int| 0 <= i < title.len() && title[i] == '\0'
}

/// The C string of `bytes`: the same bytes, closed by one NUL.
pub open spec fn c_string_of(bytes: Seq<u8>) -> Seq<u8> {
    bytes.push(0u8)
}

/// Tells whether a NUL byte occurs among `bytes`.
pub fn contains_nul(bytes: &[u8]) -> (found: bool)
    ensures
        found == has_nul(bytes@),
{
    let mut i: usize = 0;
    while i < bytes.len()
        invariant
            i <= bytes@.len(),
            forall|j: int| 0 <= j < i ==> bytes@[j] != 0u8,
        decreases bytes@.len() - i,
    {
        if bytes[i] == 0 {
            return true;
        }
        i += 1;
    }
    false
}

/// Converts a title to the NUL-terminated UTF-8 bytes that are handed to
/// `stringWithUTF8String:`.
///
/// A title with an embedded NUL is refused: as a C string it would end at
/// that byte, and the window would show a shortened title.
pub fn c_title(title: &str) -> (converted: Result<Vec<u8>, WindowError>)
    ensures
        converted is Err <==> has_nul(title_bytes(title@)),
        converted is Err <==> has_nul_char(title@),
        converted matches Err(error) ==> error == WindowError::TitleContainsNul,
        converted matches Ok(bytes) ==> bytes@ == c_string_of(title_bytes(title@)),
{
    proof {
        lemma_nul_byte_iff_nul_char(title@);
    }
    let bytes = title.as_bytes();
    if contains_nul(bytes) {
        Err(WindowError::TitleContainsNul)
    } else {
        let mut c_string = slice_to_vec(bytes);
        c_string.push(0);
        Ok(c_string)
    }
}

/// The encoding of one scalar value holds a NUL byte only if the value is
/// zero: every byte of a longer encoding has its top bit set.
proof fn lemma_scalar_nul(scalar: u32)
    ensures
        has_nul(encode_scalar(scalar)) <==> scalar == 0,
{
    let encoded = encode_scalar(scalar);
    assert(scalar <= 0x7F ==> ((scalar & 0x7F) as u8 == 0 <==> scalar == 0)) by (bit_vector);
    assert(0xC0 | ((scalar >> 6) & 0x1F) as u8 != 0) by (bit_vector);
    assert(0xE0 | ((scalar >> 12) & 0x0F) as u8 != 0) by (bit_vector);
    assert(0xF0 | ((scalar >> 18) & 0x7) as u8 != 0) by (bit_vector);
    assert(0x80 | (scalar & 0x3F) as u8 != 0) by (bit_vector);
    assert(0x80 | ((scalar >> 6) & 0x3F) as u8 != 0) by (bit_vector);
    assert(0x80 | ((scalar >> 12) & 0x3F) as u8 != 0) by (bit_vector);
    if scalar == 0 {
        assert(encoded[0] == 0u8);
    }
}

/// A NUL byte lies in a concatenation exactly when it lies in a part.
proof fn lemma_has_nul_concat(a: Seq<u8>, b: Seq<u8>)
    ensures
        has_nul(a + b) <==> has_nul(a) || has_nul(b),
{
    if has_nul(a) {
        let i = choose|i: int| 0 <= i < a.len() && a[i] == 0u8;
        assert((a + b)[i] == 0u8);
    }
    if has_nul(b) {
        let i = choose|i: int| 0 <= i < b.len() && b[i] == 0u8;
        assert((a + b)[a.len() + i] == 0u8);
    }
    if has_nul(a + b) {
        let i = choose|i: int| 0 <= i < (a + b).len() && (a + b)[i] == 0u8;
        if i < a.len() {
            assert(a[i] == 0u8);
        } else {
            assert(b[i - a.len()] == 0u8);
        }
    }
}

/// UTF-8 spends the NUL byte on the NUL character alone: a title's bytes
/// hold a NUL byte exactly when the title holds the NUL character.
pub proof fn lemma_nul_byte_iff_nul_char(title: Seq<char>)
    ensures
        has_nul(title_bytes(title)) <==> has_nul_char(title),
    decreases title.len(),
{
    if title.len() > 0 {
        let rest = title.drop_first();
        lemma_nul_byte_iff_nul_char(rest);
        let first: char = title[0];
        let scalar: u32 = first as u32;
        lemma_scalar_nul(scalar);
        lemma_has_nul_concat(encode_scalar(scalar), encode_utf8(rest));
        assert(first == '\0' <==> scalar == 0) by {
            char_u32_cast(first, scalar);
            char_u32_cast('\0', 0u32);
        }
        if has_nul_char(rest) {
            let i = choose|i: int| 0 <= i < rest.len() && rest[i] == '\0';
            assert(title[i + 1] == '\0');
        }
        if has_nul_char(title) {
            let i = choose|i: int| 0 <= i < title.len() && title[i] == '\0';
            if i > 0 {
                assert(rest[i - 1] == '\0');
            }
        }
    }
}

} // verus!
