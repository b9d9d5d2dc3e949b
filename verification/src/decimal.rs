//! Numbers in decimal notation, as bytes of US-ASCII and as text.

use vstd::prelude::*;
use vstd::string::StringExecFns;
use crate::ascii::all_printable;
use crate::ascii::as_chars;
use crate::ascii::DIGIT_NINE;
use crate::ascii::DIGIT_ZERO;
use crate::ascii::HYPHEN;

verus! {

/// The digit that stands for `d`, a number from 0 to 9.
pub open spec fn digit(d: int) -> u8 {
    (DIGIT_ZERO + d) as u8
}

/// The digits of `n`, the most significant first, with no leading zero.
pub open spec fn decimal_digits(n: nat) -> Seq<u8>
    decreases n,
{
    if n < 10 {
        seq![digit(n as int)]
    } else {
        decimal_digits(n / 10).push(digit((n % 10) as int))
    }
}

/// `v` in decimal notation, with `-` before the digits of a negative number.
pub open spec fn decimal(v: int) -> Seq<u8> {
    if v < 0 {
        seq![HYPHEN] + decimal_digits((-v) as nat)
    } else {
        decimal_digits(v as nat)
    }
}

/// The digits of `n` behind as many zeros as it takes to fill `width` places; the
/// digits alone where they fill them already.
pub open spec fn zero_padded(n: nat, width: nat) -> Seq<u8> {
    let digits = decimal_digits(n);
    if digits.len() >= width {
        digits
    } else {
        Seq::new((width - digits.len()) as nat, |i: int| DIGIT_ZERO) + digits
    }
}

/// Whether every byte of `bytes` is a digit.
pub open spec fn all_digits(bytes: Seq<u8>) -> bool {
    forall|i: int| 0 <= i < bytes.len() ==> DIGIT_ZERO <= #[trigger] bytes[i] <= DIGIT_NINE
}

/// The number that digits stand for, the most significant first.
pub open spec fn digits_value(digits: Seq<u8>) -> int
    decreases digits.len(),
{
    if digits.len() == 0 {
        0
    } else {
        digits_value(digits.drop_last()) * 10 + (digits.last() - DIGIT_ZERO)
    }
}

/// Ten to the power of `k`.
pub open spec fn pow10(k: nat) -> nat
    decreases k,
{
    if k == 0 {
        1
    } else {
        10 * pow10((k - 1) as nat)
    }
}

/// The digits of a number are digits, at least one of them, and they stand for the
/// number. The first of them is no zero, unless the number is zero.
pub proof fn lemma_decimal_digits(n: nat)
    ensures
        all_digits(decimal_digits(n)),
        decimal_digits(n).len() >= 1,
        digits_value(decimal_digits(n)) == n,
        n > 0 ==> decimal_digits(n)[0] != DIGIT_ZERO,
    decreases n,
{
    let digits = decimal_digits(n);
    if n >= 10 {
        lemma_decimal_digits(n / 10);
        assert(digits.drop_last() =~= decimal_digits(n / 10));
    } else {
        assert(digits_value(digits) == digits_value(digits.drop_last()) * 10 + (digits.last()
            - DIGIT_ZERO));
    }
}

/// A number below `10^places` has at most `places` digits.
pub proof fn lemma_decimal_length(n: nat, places: nat)
    requires
        places >= 1,
        n < pow10(places),
    ensures
        decimal_digits(n).len() <= places,
    decreases places,
{
    reveal_with_fuel(pow10, 2);
    if n >= 10 {
        lemma_decimal_length(n / 10, (places - 1) as nat);
    }
}

/// A number that fits in 64 bits with a sign has at most 20 bytes in decimal
/// notation, each of them printable US-ASCII.
pub proof fn lemma_decimal_of_i64(v: int)
    requires
        -0x8000_0000_0000_0000 <= v <= 0x7fff_ffff_ffff_ffff,
    ensures
        1 <= decimal(v).len() <= 20,
        all_printable(decimal(v)),
{
    let magnitude: nat = if v < 0 {
        (-v) as nat
    } else {
        v as nat
    };
    lemma_decimal_digits(magnitude);
    assert(pow10(19) == 10_000_000_000_000_000_000nat) by {
        reveal_with_fuel(pow10, 20);
    }
    lemma_decimal_length(magnitude, 19);
}

/// Appends the digits of `n` to `writer`.
pub fn push_decimal_digits(writer: &mut Vec<u8>, n: u64)
    ensures
        final(writer)@ == old(writer)@ + decimal_digits(n as nat),
    decreases n,
{
    if n >= 10 {
        push_decimal_digits(writer, n / 10);
    }
    let last: u8 = (n % 10) as u8;
    writer.push(DIGIT_ZERO + last);
}

/// Appends `v` in decimal notation to `writer`.
pub fn push_decimal(writer: &mut Vec<u8>, v: i64)
    ensures
        final(writer)@ == old(writer)@ + decimal(v as int),
{
    if v < 0 {
        writer.push(HYPHEN);
        // The magnitude of the least number does not fit with a sign.
        let magnitude: u64 = ((-(v + 1)) as u64) + 1;
        push_decimal_digits(writer, magnitude);
    } else {
        push_decimal_digits(writer, v as u64);
    }
}

/// Appends the digits of `n` to `writer`, behind as many zeros as it takes to fill
/// `width` places.
pub fn push_zero_padded(writer: &mut Vec<u8>, n: u32, width: usize)
    ensures
        final(writer)@ == old(writer)@ + zero_padded(n as nat, width as nat),
{
    let mut digits: Vec<u8> = Vec::new();
    push_decimal_digits(&mut digits, n as u64);
    let mut filled: usize = digits.len();
    while filled < width
        invariant
            digits@ == decimal_digits(n as nat),
            digits@.len() <= filled,
            filled <= width || filled == digits@.len(),
            writer@ == old(writer)@ + Seq::new(
                (filled - digits@.len()) as nat,
                |i: int| DIGIT_ZERO,
            ),
        decreases width - filled,
    {
        writer.push(DIGIT_ZERO);
        filled = filled + 1;
    }
    writer.append(&mut digits);
}

/// The one-character text that a digit, or `-`, stands for.
fn sign_or_digit_text(b: u8) -> (text: &'static str)
    requires
        b == HYPHEN || DIGIT_ZERO <= b <= DIGIT_NINE,
    ensures
        text@ == seq![b as char],
{
    proof {
        reveal_strlit("-");
        reveal_strlit("0");
        reveal_strlit("1");
        reveal_strlit("2");
        reveal_strlit("3");
        reveal_strlit("4");
        reveal_strlit("5");
        reveal_strlit("6");
        reveal_strlit("7");
        reveal_strlit("8");
        reveal_strlit("9");
    }
    let text: &'static str = match b {
        0x30 => "0",
        0x31 => "1",
        0x32 => "2",
        0x33 => "3",
        0x34 => "4",
        0x35 => "5",
        0x36 => "6",
        0x37 => "7",
        0x38 => "8",
        0x39 => "9",
        _ => "-",
    };
    text
}

/// `v` in decimal notation, as text.
pub fn decimal_string(v: i64) -> (text: String)
    ensures
        text@ == as_chars(decimal(v as int)),
{
    let mut bytes: Vec<u8> = Vec::new();
    push_decimal(&mut bytes, v);
    proof {
        if v < 0 {
            lemma_decimal_digits((-v) as nat);
        } else {
            lemma_decimal_digits(v as nat);
        }
    }
    let mut text: String = String::new();
    let mut i: usize = 0;
    while i < bytes.len()
        invariant
            i <= bytes@.len(),
            bytes@ == decimal(v as int),
            forall|k: int|
                0 <= k < bytes@.len() ==> #[trigger] bytes@[k] == HYPHEN || DIGIT_ZERO
                    <= bytes@[k] <= DIGIT_NINE,
            text@ == as_chars(bytes@.take(i as int)),
        decreases bytes@.len() - i,
    {
        let piece: &'static str = sign_or_digit_text(bytes[i]);
        text.append(piece);
        i = i + 1;
    }
    text
}

/// `value` in decimal notation, as text.
pub fn unsigned_decimal_string(value: u64) -> (text: String)
    ensures
        text@ == as_chars(decimal(value as int)),
{
    if value <= 0x7fff_ffff_ffff_ffff {
        decimal_string(value as i64)
    } else {
        // The digits but the last fit with a sign, and so does the last.
        let mut text: String = decimal_string((value / 10) as i64);
        let last: String = decimal_string((value % 10) as i64);
        text.append(last.as_str());
        text
    }
}

} // verus!
