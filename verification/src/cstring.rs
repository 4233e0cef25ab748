//! Text on its way out: the bytes of a nul-terminated buffer.
//!
//! A text can be handed out as a nul-terminated buffer only if it holds no nul
//! character itself. This module decides that and lays out the bytes.

use vstd::prelude::*;
use vstd::slice::slice_to_vec;
use vstd::utf8::encode_scalar;
use vstd::utf8::encode_utf8;

verus! {

/// No character of `s` is the nul character.
pub open spec fn has_no_nul(s: Seq<char>) -> bool {
    forall|i: int| 0 <= i < s.len() ==> #[trigger] s[i] != '\0'
}

/// No byte of `bytes` is zero.
pub open spec fn has_no_zero(bytes: Seq<u8>) -> bool {
    forall|i: int| 0 <= i < bytes.len() ==> #[trigger] bytes[i] != 0
}

/// The bytes of the nul-terminated buffer that holds `s`: its UTF-8 encoding
/// and a closing zero.
pub open spec fn c_bytes(s: Seq<char>) -> Seq<u8> {
    encode_utf8(s).push(0u8)
}

/// The encoding of a character holds a zero byte only if the character is nul.
proof fn lemma_scalar_zero(c: char)
    ensures
        has_no_zero(encode_scalar(c as u32)) <==> c != '\0',
{
    let v = c as u32;
    assert(v <= 0x7F ==> (((v & 0x7F) as u8 == 0) <==> v == 0)) by (bit_vector);
    assert((0xC0u8 | ((v >> 6) & 0x1F) as u8) != 0) by (bit_vector);
    assert((0xE0u8 | ((v >> 12) & 0x0F) as u8) != 0) by (bit_vector);
    assert((0xF0u8 | ((v >> 18) & 0x7) as u8) != 0) by (bit_vector);
    assert((0x80u8 | (v & 0x3F) as u8) != 0) by (bit_vector);
    assert((0x80u8 | ((v >> 6) & 0x3F) as u8) != 0) by (bit_vector);
    assert((0x80u8 | ((v >> 12) & 0x3F) as u8) != 0) by (bit_vector);
    let bytes = encode_scalar(v);
    if c == '\0' {
        assert(bytes[0] == 0);
    }
}

/// A text holds a nul character exactly if its UTF-8 encoding holds a zero
/// byte.
pub proof fn lemma_nul_is_zero_byte(s: Seq<char>)
    ensures
        has_no_nul(s) <==> has_no_zero(encode_utf8(s)),
    decreases s.len(),
{
    if s.len() > 0 {
        let head = encode_scalar(s[0] as u32);
        let rest = s.drop_first();
        let tail = encode_utf8(rest);
        lemma_scalar_zero(s[0]);
        lemma_nul_is_zero_byte(rest);
        assert(encode_utf8(s) == head + tail);
        if has_no_nul(s) {
            assert forall|i: int| 0 <= i < rest.len() implies #[trigger] rest[i] != '\0' by {
                assert(rest[i] == s[i + 1]);
            }
        }
        if has_no_zero(encode_utf8(s)) {
            assert forall|i: int| 0 <= i < head.len() implies #[trigger] head[i] != 0 by {
                assert(head[i] == (head + tail)[i]);
            }
            assert forall|i: int| 0 <= i < tail.len() implies #[trigger] tail[i] != 0 by {
                assert(tail[i] == (head + tail)[head.len() + i]);
            }
            assert forall|i: int| 0 <= i < s.len() implies #[trigger] s[i] != '\0' by {
                if i > 0 {
                    assert(rest[i - 1] == s[i]);
                }
            }
        }
    }
}

/// Lays `s` out as a nul-terminated buffer, or nothing if `s` holds a nul
/// character and so cannot be one.
pub fn cstring_or_null(s: String) -> (buffer: Option<Vec<u8>>)
    ensures
        buffer is Some <==> has_no_nul(s@),
        buffer matches Some(bytes) ==> bytes@ == c_bytes(s@),
{
    let bytes = s.as_str().as_bytes();
    proof {
        lemma_nul_is_zero_byte(s@);
    }
    let mut i: usize = 0;
    while i < bytes.len()
        invariant
            i <= bytes.len(),
            bytes@ == encode_utf8(s@),
            has_no_nul(s@) <==> has_no_zero(encode_utf8(s@)),
            forall|j: int| 0 <= j < i ==> #[trigger] bytes@[j] != 0,
        decreases bytes.len() - i,
    {
        if bytes[i] == 0 {
            assert(encode_utf8(s@)[i as int] == 0);
            return None;
        }
        i += 1;
    }
    let mut buffer = slice_to_vec(bytes);
    buffer.push(0);
    Some(buffer)
}

} // verus!
