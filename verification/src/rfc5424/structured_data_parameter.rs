use vstd::prelude::*;
use vstd::std_specs::iter::IteratorSpec;
use vstd::utf8::encode_scalar;
use vstd::utf8::encode_utf8;
use crate::ascii::BACKSLASH;
use crate::ascii::CLOSING_SQUARE_BRACKET;
use crate::ascii::DOUBLE_QUOTE;
use crate::ascii::EQUALS_SIGN;
use crate::ascii::OPENING_SQUARE_BRACKET;
use crate::ascii::SPACE;
use crate::rfc5424::truncated_us_ascii_printable_string::lemma_char_code;
use crate::rfc5424::truncated_us_ascii_printable_string::TruncatedUsAsciiPrintableString;
use crate::rfc5424::truncated_us_ascii_printable_string::WriteTruncatedUsAsciiPrintableString;
use crate::utf8::lemma_encode_utf8_push;
use crate::utf8::push_utf8;

verus! {

/// Whether `c` is escaped in a parameter's value: a double quote, a backslash or a
/// closing square bracket.
pub open spec fn is_escaped(c: char) -> bool {
    c == '"' || c == '\\' || c == ']'
}

/// What stands for `c` in a parameter's value: `\"` for a double quote, `\\` for a
/// backslash, `\[` for a closing square bracket, and for any other character its UTF-8.
pub open spec fn escaped_character(c: char) -> Seq<u8> {
    if c == '"' {
        seq![BACKSLASH, DOUBLE_QUOTE]
    } else if c == '\\' {
        seq![BACKSLASH, BACKSLASH]
    } else if c == ']' {
        seq![BACKSLASH, OPENING_SQUARE_BRACKET]
    } else {
        encode_scalar(c as u32)
    }
}

/// What stands for `chars` in a parameter's value: each character in turn, as
/// `escaped_character` has it.
pub open spec fn escaped_value(chars: Seq<char>) -> Seq<u8>
    decreases chars.len(),
{
    if chars.len() == 0 {
        Seq::empty()
    } else {
        escaped_value(chars.drop_last()) + escaped_character(chars.last())
    }
}

/// A parameter as it stands in a message: a space, the name, `="`, the escaped value
/// and `"`.
pub open spec fn parameter_rendering(name: Seq<u8>, value: Seq<char>) -> Seq<u8> {
    seq![SPACE] + name + seq![EQUALS_SIGN, DOUBLE_QUOTE] + escaped_value(value) + seq![
        DOUBLE_QUOTE,
    ]
}

/// A value in which nothing is escaped stands in a message as its UTF-8, unchanged.
pub proof fn lemma_unescaped_value_is_utf8(chars: Seq<char>)
    requires
        forall|i: int| 0 <= i < chars.len() ==> !is_escaped(#[trigger] chars[i]),
    ensures
        escaped_value(chars) == encode_utf8(chars),
    decreases chars.len(),
{
    if chars.len() > 0 {
        let front = chars.drop_last();
        lemma_unescaped_value_is_utf8(front);
        lemma_encode_utf8_push(front, chars.last());
        assert(front.push(chars.last()) =~= chars);
    }
}

/// The escaped value of a text is the escaped values of its parts, one after the other:
/// what stands for a character does not depend on what is around it.
pub proof fn lemma_escaped_value_concat(left: Seq<char>, right: Seq<char>)
    ensures
        escaped_value(left + right) == escaped_value(left) + escaped_value(right),
    decreases right.len(),
{
    if right.len() > 0 {
        assert((left + right).drop_last() =~= left + right.drop_last());
        lemma_escaped_value_concat(left, right.drop_last());
    }
}

/// The escaped value of a text is what stands for its first character, and the
/// escaped value of the rest.
pub proof fn lemma_escaped_value_first(chars: Seq<char>)
    requires
        chars.len() > 0,
    ensures
        escaped_value(chars) == escaped_character(chars[0]) + escaped_value(chars.drop_first()),
{
    let first = seq![chars[0]];
    assert(escaped_value(first.drop_last()) =~= Seq::<u8>::empty());
    assert(first + chars.drop_first() =~= chars);
    lemma_escaped_value_concat(first, chars.drop_first());
}

/// The byte that stands behind a backslash for `byte`'s sake: `[` for `]`, and for a
/// double quote and a backslash the byte itself.
pub open spec fn unescaped_byte(byte: u8) -> u8 {
    if byte == OPENING_SQUARE_BRACKET {
        CLOSING_SQUARE_BRACKET
    } else {
        byte
    }
}

/// What an escaped value stands for: a backslash says that the byte behind it is
/// meant, a closing square bracket where that is `[`; any other byte means itself.
pub open spec fn unescaped_value(bytes: Seq<u8>) -> Seq<u8>
    decreases bytes.len(),
{
    if bytes.len() == 0 {
        Seq::empty()
    } else if bytes[0] == BACKSLASH && bytes.len() >= 2 {
        seq![unescaped_byte(bytes[1])] + unescaped_value(bytes.skip(2))
    } else {
        seq![bytes[0]] + unescaped_value(bytes.skip(1))
    }
}

/// Bytes that hold no backslash mean themselves, whatever follows them.
proof fn lemma_unescaped_plain(plain: Seq<u8>, rest: Seq<u8>)
    requires
        forall|i: int| 0 <= i < plain.len() ==> #[trigger] plain[i] != BACKSLASH,
    ensures
        unescaped_value(plain + rest) == plain + unescaped_value(rest),
    decreases plain.len(),
{
    if plain.len() > 0 {
        assert((plain + rest).skip(1) =~= plain.skip(1) + rest);
        lemma_unescaped_plain(plain.skip(1), rest);
    }
}

/// The bytes of a character in UTF-8 hold no backslash, unless the character is one;
/// and a character of US-ASCII is one byte, its code.
proof fn lemma_utf8_of_character(c: char)
    ensures
        c as u32 <= 0x7f ==> encode_scalar(c as u32) == seq![c as u8],
        c != '\\' ==> forall|i: int|
            0 <= i < encode_scalar(c as u32).len() ==> #[trigger] encode_scalar(c as u32)[i]
                != BACKSLASH,
{
    lemma_utf8_bytes(c as u32);
}

/// Which bytes the UTF-8 of a scalar is made of.
proof fn lemma_utf8_bytes(scalar: u32)
    by (bit_vector)
    ensures
        scalar <= 0x7f ==> (scalar & 0x7f) as u8 == scalar,
        (0xC0u8 | ((scalar >> 6) & 0x1F) as u8) >= 0x80,
        (0xE0u8 | ((scalar >> 12) & 0x0F) as u8) >= 0x80,
        (0xF0u8 | ((scalar >> 18) & 0x7) as u8) >= 0x80,
        (0x80u8 | (scalar & 0x3F) as u8) >= 0x80,
        (0x80u8 | ((scalar >> 6) & 0x3F) as u8) >= 0x80,
        (0x80u8 | ((scalar >> 12) & 0x3F) as u8) >= 0x80,
{
}

/// Escaping loses nothing: what the escaped value of a text stands for is the text, in
/// UTF-8.
pub proof fn lemma_escaping_is_undone(chars: Seq<char>)
    ensures
        unescaped_value(escaped_value(chars)) == encode_utf8(chars),
    decreases chars.len(),
{
    if chars.len() > 0 {
        let c = chars[0];
        let rest = escaped_value(chars.drop_first());
        lemma_escaped_value_first(chars);
        lemma_escaping_is_undone(chars.drop_first());
        lemma_utf8_of_character(c);
        if is_escaped(c) {
            assert((escaped_character(c) + rest).skip(2) =~= rest);
        } else {
            lemma_unescaped_plain(encode_scalar(c as u32), rest);
        }
    }
}

/// Two texts with the same escaped value are the same text.
pub proof fn lemma_escaping_tells_values_apart(left: Seq<char>, right: Seq<char>)
    requires
        escaped_value(left) == escaped_value(right),
    ensures
        left == right,
{
    lemma_escaping_is_undone(left);
    lemma_escaping_is_undone(right);
    vstd::utf8::encode_utf8_decode_utf8(left);
    vstd::utf8::encode_utf8_decode_utf8(right);
}

/// A name and a value, as one parameter of a structured data element.
#[derive(Debug)]
pub struct StructuredDataParameter {
    name: TruncatedUsAsciiPrintableString,
    value: String,
}

impl StructuredDataParameter {
    pub closed spec fn name(&self) -> Seq<u8> {
        self.name@
    }

    pub closed spec fn value(&self) -> Seq<char> {
        self.value@
    }

    /// The parameter as it stands in a message.
    pub open spec fn rendering(&self) -> Seq<u8> {
        parameter_rendering(self.name(), self.value())
    }

    pub fn new(name: TruncatedUsAsciiPrintableString, value: String) -> (parameter:
        StructuredDataParameter)
        ensures
            parameter.name() == name@,
            parameter.value() == value@,
    {
        StructuredDataParameter { name, value }
    }

    /// Appends the parameter to `writer`. The name is written as it is: what it was
    /// made by has seen to it that nothing in it needs escaping.
    pub fn write(&self, writer: &mut Vec<u8>)
        ensures
            final(writer)@ == old(writer)@ + self.rendering(),
    {
        writer.push(SPACE);
        writer.write_truncated(&self.name);
        writer.push(EQUALS_SIGN);
        writer.push(DOUBLE_QUOTE);
        let ghost start = writer@;
        let value: &str = self.value.as_str();
        for character in it: value.chars()
            invariant
                it.seq() == value@,
                writer@ == start + escaped_value(value@.take(it.index() as int)),
        {
            proof {
                assert(value@.take(it.index() + 1).drop_last() =~= value@.take(it.index() as int));
            }
            if character == '"' {
                writer.push(BACKSLASH);
                writer.push(DOUBLE_QUOTE);
            } else if character == '\\' {
                writer.push(BACKSLASH);
                writer.push(BACKSLASH);
            } else if character == ']' {
                writer.push(BACKSLASH);
                writer.push(OPENING_SQUARE_BRACKET);
            } else {
                push_utf8(writer, character);
            }
        }
        assert(value@.take(value@.len() as int) =~= value@);
        writer.push(DOUBLE_QUOTE);
    }
}

} // verus!
