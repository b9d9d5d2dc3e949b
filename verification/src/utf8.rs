//! Characters as bytes of UTF-8.

use vstd::prelude::*;
use vstd::utf8::encode_scalar;
use vstd::utf8::encode_utf8;

verus! {

/// Appends `c` in UTF-8 to `writer`.
pub fn push_utf8(writer: &mut Vec<u8>, c: char)
    ensures
        final(writer)@ == old(writer)@ + encode_scalar(c as u32),
{
    let scalar: u32 = c as u32;
    if scalar <= 0x7f {
        writer.push((scalar & 0x7F) as u8);
    } else if scalar <= 0x7ff {
        writer.push(0xC0 | ((scalar >> 6) & 0x1F) as u8);
        writer.push(0x80 | (scalar & 0x3F) as u8);
    } else if scalar <= 0xffff {
        writer.push(0xE0 | ((scalar >> 12) & 0x0F) as u8);
        writer.push(0x80 | ((scalar >> 6) & 0x3F) as u8);
        writer.push(0x80 | (scalar & 0x3F) as u8);
    } else {
        writer.push(0xF0 | ((scalar >> 18) & 0x7) as u8);
        writer.push(0x80 | ((scalar >> 12) & 0x3F) as u8);
        writer.push(0x80 | ((scalar >> 6) & 0x3F) as u8);
        writer.push(0x80 | (scalar & 0x3F) as u8);
    }
}

/// The encoding of a text is the encoding of its beginning and that of its last
/// character.
pub proof fn lemma_encode_utf8_push(chars: Seq<char>, c: char)
    ensures
        encode_utf8(chars.push(c)) == encode_utf8(chars) + encode_scalar(c as u32),
    decreases chars.len(),
{
    if chars.len() == 0 {
        assert(chars.push(c).drop_first() =~= Seq::<char>::empty());
        assert(encode_utf8(chars.push(c)) =~= encode_scalar(c as u32) + encode_utf8(
            Seq::<char>::empty(),
        ));
    } else {
        assert(chars.push(c).drop_first() =~= chars.drop_first().push(c));
        lemma_encode_utf8_push(chars.drop_first(), c);
    }
}

} // verus!
