//! Facts about text and its bytes: where a byte below `0x80` stands in valid
//! UTF-8, a character of that number stands in the text, and the reverse.
//! Cutting text at such bytes rests on them.

use vstd::prelude::*;
use vstd::string::StringSliceAdditionalSpecFns;
use vstd::utf8::{
    char_u32_cast, decode_utf8, decode_utf8_split, encode_scalar, encode_utf8,
    encode_utf8_decode_utf8, encode_utf8_first_scalar, encode_utf8_valid_utf8, is_char_boundary,
    valid_utf8,
};

verus! {

/// The bytes of text that is not empty are not empty, and they are the bytes
/// of the first character followed by those of the rest.
pub(crate) proof fn lemma_encode_unfold(chars: Seq<char>)
    requires
        chars.len() > 0,
    ensures
        encode_utf8(chars) == encode_scalar(chars[0] as u32) + encode_utf8(chars.drop_first()),
        encode_utf8(chars).len() >= 1,
{
}

/// A byte below `0x80` is the one-byte encoding of the scalar of its number.
pub(crate) proof fn lemma_ascii_scalar(b: u8)
    requires
        b < 0x80,
    ensures
        ((b as u32) & 0x7F) as u8 == b,
        ((b & 0x7F) as u32) == b as u32,
{
    assert(((b as u32) & 0x7F) as u8 == b) by (bit_vector)
        requires
            b < 0x80,
    ;
    assert(((b & 0x7F) as u32) == b as u32) by (bit_vector)
        requires
            b < 0x80,
    ;
}

/// Text whose bytes begin with a byte below `0x80` begins with the character
/// of that number, and the other bytes are the bytes of the rest.
pub(crate) proof fn lemma_first_ascii(chars: Seq<char>, b: u8)
    requires
        b < 0x80,
        encode_utf8(chars).len() > 0,
        encode_utf8(chars)[0] == b,
    ensures
        chars.len() > 0,
        chars[0] as u32 == b as u32,
        encode_utf8(chars).subrange(1, encode_utf8(chars).len() as int) == encode_utf8(
            chars.drop_first(),
        ),
        is_char_boundary(encode_utf8(chars), 1),
{
    let bytes = encode_utf8(chars);
    encode_utf8_valid_utf8(chars);
    encode_utf8_first_scalar(chars);
    lemma_ascii_scalar(b);
    lemma_encode_unfold(chars);
    assert(chars[0] as u32 == b as u32);
    assert(encode_scalar(chars[0] as u32) =~= seq![b]);
    assert(bytes.subrange(1, bytes.len() as int) =~= encode_utf8(chars.drop_first()));
    reveal_with_fuel(is_char_boundary, 2);
}

/// Text whose bytes hold no byte `b` below `0x80` holds no character of that
/// number.
pub(crate) proof fn lemma_absent_ascii(chars: Seq<char>, b: u8)
    requires
        b < 0x80,
        forall|i: int| 0 <= i < encode_utf8(chars).len() ==> encode_utf8(chars)[i] != b,
    ensures
        forall|j: int| 0 <= j < chars.len() ==> chars[j] as u32 != b as u32,
    decreases chars.len(),
{
    if chars.len() > 0 {
        let bytes = encode_utf8(chars);
        let head = encode_scalar(chars[0] as u32);
        let rest = chars.drop_first();
        lemma_encode_unfold(chars);
        lemma_ascii_scalar(b);
        if chars[0] as u32 == b as u32 {
            assert(head =~= seq![b]);
            assert(bytes[0] == b);
        }
        assert forall|i: int| 0 <= i < encode_utf8(rest).len() implies encode_utf8(rest)[i]
            != b by {
            assert(encode_utf8(rest)[i] == bytes[head.len() + i]);
        }
        lemma_absent_ascii(rest, b);
        assert forall|j: int| 0 <= j < chars.len() implies chars[j] as u32 != b as u32 by {
            if j > 0 {
                assert(chars[j] == rest[j - 1]);
            }
        }
    }
}

/// Text that ends in the character of number `b`, below `0x80`, has `b` as
/// its last byte.
pub(crate) proof fn lemma_last_ascii(chars: Seq<char>, b: u8)
    requires
        b < 0x80,
        chars.len() > 0,
        chars.last() as u32 == b as u32,
    ensures
        encode_utf8(chars).len() > 0,
        encode_utf8(chars).last() == b,
    decreases chars.len(),
{
    let rest = chars.drop_first();
    lemma_encode_unfold(chars);
    lemma_ascii_scalar(b);
    if rest.len() == 0 {
        assert(encode_scalar(chars[0] as u32) =~= seq![b]);
        assert(encode_utf8(rest) =~= Seq::<u8>::empty());
    } else {
        assert(rest.last() == chars.last());
        lemma_last_ascii(rest, b);
    }
}

/// The characters of a piece of text are those that its bytes decode to.
pub(crate) proof fn lemma_view_is_decoded(text: &str)
    ensures
        valid_utf8(text.spec_bytes()),
        text@ == decode_utf8(text.spec_bytes()),
{
    encode_utf8_valid_utf8(text@);
    encode_utf8_decode_utf8(text@);
}

/// Two pieces cut from text at a character boundary hold, one after the
/// other, the characters of the whole.
pub(crate) proof fn lemma_cut(text: &str, head: &str, tail: &str, mid: int)
    requires
        is_char_boundary(text.spec_bytes(), mid),
        0 <= mid <= text.spec_bytes().len(),
        head.spec_bytes() == text.spec_bytes().subrange(0, mid),
        tail.spec_bytes() == text.spec_bytes().subrange(mid, text.spec_bytes().len() as int),
    ensures
        text@ == head@ + tail@,
{
    lemma_view_is_decoded(text);
    lemma_view_is_decoded(head);
    lemma_view_is_decoded(tail);
    decode_utf8_split(text.spec_bytes(), mid);
}

/// Characters of the same number are the same character.
pub(crate) proof fn lemma_same_char(a: char, b: char)
    requires
        a as u32 == b as u32,
    ensures
        a == b,
{
    char_u32_cast(a, a as u32);
    char_u32_cast(b, b as u32);
}

/// Text of one byte below `0x80` is the one character of that number.
pub(crate) proof fn lemma_single_ascii(piece: &str, b: u8)
    requires
        b < 0x80,
        piece.spec_bytes() == seq![b],
    ensures
        piece@.len() == 1,
        piece@[0] as u32 == b as u32,
{
    lemma_first_ascii(piece@, b);
    let rest = piece@.drop_first();
    assert(encode_utf8(rest).len() == 0);
    if rest.len() > 0 {
        lemma_encode_unfold(rest);
    }
}

/// Text has no more characters than bytes.
pub(crate) proof fn lemma_len_le_bytes(chars: Seq<char>)
    ensures
        chars.len() <= encode_utf8(chars).len(),
    decreases chars.len(),
{
    if chars.len() > 0 {
        lemma_encode_unfold(chars);
        lemma_len_le_bytes(chars.drop_first());
    }
}

} // verus!
