//! The bytes of US-ASCII that the formats of messages are made of.

use vstd::prelude::*;

verus! {

pub const LINE_FEED: u8 = 0x0a;

pub const CARRIAGE_RETURN: u8 = 0x0d;

pub const SPACE: u8 = 0x20;

pub const DOUBLE_QUOTE: u8 = 0x22;

pub const HYPHEN: u8 = 0x2d;

pub const FULL_STOP: u8 = 0x2e;

pub const DIGIT_ZERO: u8 = 0x30;

pub const DIGIT_ONE: u8 = 0x31;

pub const DIGIT_NINE: u8 = 0x39;

pub const COLON: u8 = 0x3a;

pub const LESS_THAN: u8 = 0x3c;

pub const EQUALS_SIGN: u8 = 0x3d;

pub const GREATER_THAN: u8 = 0x3e;

pub const QUESTION_MARK: u8 = 0x3f;

pub const CAPITAL_T: u8 = 0x54;

pub const CAPITAL_Z: u8 = 0x5a;

pub const OPENING_SQUARE_BRACKET: u8 = 0x5b;

pub const BACKSLASH: u8 = 0x5c;

pub const CLOSING_SQUARE_BRACKET: u8 = 0x5d;

/// The last printable character of US-ASCII, `~`.
pub const TILDE: u8 = 0x7e;

/// The control code DEL, which follows the printable characters.
pub const DELETE: u8 = 0x7f;

/// Whether `byte` is printable US-ASCII: a space, or a visible character.
pub open spec fn is_printable(byte: u8) -> bool {
    SPACE <= byte <= TILDE
}

/// Whether every byte of `bytes` is printable US-ASCII.
pub open spec fn all_printable(bytes: Seq<u8>) -> bool {
    forall|i: int| 0 <= i < bytes.len() ==> is_printable(#[trigger] bytes[i])
}

/// The characters that bytes of US-ASCII stand for.
pub open spec fn as_chars(bytes: Seq<u8>) -> Seq<char> {
    Seq::new(bytes.len(), |i: int| bytes[i] as char)
}

/// The bytes that stand for characters of US-ASCII.
pub open spec fn as_bytes(chars: Seq<char>) -> Seq<u8> {
    Seq::new(chars.len(), |i: int| chars[i] as u8)
}

} // verus!
