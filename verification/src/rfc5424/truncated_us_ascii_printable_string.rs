use vstd::prelude::*;
use vstd::std_specs::cmp::PartialEqSpecImpl;
use vstd::std_specs::iter::IteratorSpec;
use crate::ascii::all_printable;
use crate::ascii::is_printable;
use crate::ascii::DELETE;
use crate::ascii::QUESTION_MARK;
use crate::ascii::SPACE;
use crate::ascii::TILDE;
use crate::rfc5424::structured_data_parameter::StructuredDataParameter;

verus! {

/// What stands in for a character that is not printable US-ASCII: a question mark.
pub const REPLACEMENT_CHARACTER: u8 = QUESTION_MARK;

/// The longest name that a structured data element or parameter can have.
pub const MAXIMUM_SD_NAME_LENGTH: usize = 32;

/// Whether `c` is printable US-ASCII: a space, or a visible character below DEL.
pub open spec fn is_us_ascii_printable(c: char) -> bool {
    SPACE <= c as u32 <= TILDE
}

/// The byte that stands for `c`: `c` itself where it is printable US-ASCII, and the
/// replacement character where it is not.
pub open spec fn us_ascii_printable_or_replacement(c: char) -> u8 {
    if is_us_ascii_printable(c) {
        c as u8
    } else {
        REPLACEMENT_CHARACTER
    }
}

/// The first `maximum_length` characters of `chars`, each as the byte that stands for it.
pub open spec fn truncate_to_us_ascii_printable(chars: Seq<char>, maximum_length: nat) -> Seq<u8> {
    Seq::new(
        if chars.len() <= maximum_length {
            chars.len()
        } else {
            maximum_length
        },
        |i: int| us_ascii_printable_or_replacement(chars[i]),
    )
}

/// What is made of a text is printable US-ASCII, and no longer than the text or than
/// the maximum length. A text of printable US-ASCII that is no longer than the maximum
/// length is kept as it is.
pub proof fn lemma_truncate_to_us_ascii_printable(chars: Seq<char>, maximum_length: nat)
    ensures
        all_printable(truncate_to_us_ascii_printable(chars, maximum_length)),
        truncate_to_us_ascii_printable(chars, maximum_length).len() <= maximum_length,
        truncate_to_us_ascii_printable(chars, maximum_length).len() <= chars.len(),
        forall|i: int|
            0 <= i < truncate_to_us_ascii_printable(chars, maximum_length).len()
                && is_us_ascii_printable(chars[i]) ==> #[trigger] truncate_to_us_ascii_printable(
                chars,
                maximum_length,
            )[i] == chars[i] as u8,
        chars.len() <= maximum_length ==> truncate_to_us_ascii_printable(
            chars,
            maximum_length,
        ).len() == chars.len(),
{
    let bytes = truncate_to_us_ascii_printable(chars, maximum_length);
    assert forall|i: int| 0 <= i < bytes.len() implies is_printable(#[trigger] bytes[i]) by {
        lemma_char_code(chars[i]);
    }
}

/// The bytes of a name made of `chars`.
pub open spec fn sd_name_bytes(chars: Seq<char>) -> Seq<u8> {
    truncate_to_us_ascii_printable(chars, MAXIMUM_SD_NAME_LENGTH as nat)
}

/// Why a text cannot be the name of a structured data element or parameter.
#[derive(Debug, Clone, Copy, PartialEq, Eq, Structural)]
pub enum SdNameError {
    /// It holds a control code, a space, DEL, a double quote, a backslash or a closing
    /// square bracket.
    ForbiddenCharacter,
    /// It holds a character beyond US-ASCII.
    NotUsAscii,
}

/// What is wrong with `c` in a name, if anything is.
pub open spec fn sd_name_character_fault(c: char) -> Option<SdNameError> {
    if c == '"' || c == '\\' || c == ']' || c as u32 <= SPACE || c as u32 == DELETE {
        Some(SdNameError::ForbiddenCharacter)
    } else if c as u32 <= TILDE {
        None
    } else {
        Some(SdNameError::NotUsAscii)
    }
}

/// What is wrong with the first character of `chars` that cannot stand in a name, if
/// there is such a character.
pub open spec fn sd_name_fault(chars: Seq<char>) -> Option<SdNameError>
    decreases chars.len(),
{
    if chars.len() == 0 {
        None
    } else {
        match sd_name_fault(chars.drop_last()) {
            Some(fault) => Some(fault),
            None => sd_name_character_fault(chars.last()),
        }
    }
}

/// Whether `chars` can be a name: each of its characters is visible US-ASCII, and none
/// is a double quote, a backslash or a closing square bracket.
pub open spec fn is_sd_name(chars: Seq<char>) -> bool {
    forall|i: int|
        0 <= i < chars.len() ==> {
            let c = #[trigger] chars[i];
            SPACE < c as u32 <= TILDE && c != '"' && c != '\\' && c != ']'
        }
}

/// A text has a fault exactly if it cannot be a name.
pub proof fn lemma_sd_name_fault(chars: Seq<char>)
    ensures
        sd_name_fault(chars) is None <==> is_sd_name(chars),
    decreases chars.len(),
{
    if chars.len() > 0 {
        let front = chars.drop_last();
        lemma_sd_name_fault(front);
        if is_sd_name(chars) {
            assert forall|i: int| 0 <= i < front.len() implies {
                let c = #[trigger] front[i];
                SPACE < c as u32 <= TILDE && c != '"' && c != '\\' && c != ']'
            } by {}
        }
        if sd_name_fault(chars) is None {
            assert forall|i: int| 0 <= i < chars.len() implies {
                let c = #[trigger] chars[i];
                SPACE < c as u32 <= TILDE && c != '"' && c != '\\' && c != ']'
            } by {
                if i < front.len() {
                    assert(front[i] == chars[i]);
                }
            }
        }
    }
}

/// A character is its code: a number that fits in 21 bits.
pub proof fn lemma_char_code(c: char)
    ensures
        0 <= c as int <= 0x10ffff,
        (c as u32) as int == c as int,
{
}

/// Text of printable US-ASCII that is no longer than what it was made for.
///
/// It is made once, from any text: each character that is not printable US-ASCII is
/// replaced by a question mark, and what is beyond the maximum length is cut off.
#[derive(Debug, Hash)]
pub struct TruncatedUsAsciiPrintableString {
    value: Vec<u8>,
}

impl View for TruncatedUsAsciiPrintableString {
    type V = Seq<u8>;

    closed spec fn view(&self) -> Seq<u8> {
        self.value@
    }
}

impl TruncatedUsAsciiPrintableString {
    #[verifier::type_invariant]
    spec fn printable(&self) -> bool {
        all_printable(self.value@)
    }

    pub fn new(string: &str, maximum_length: usize) -> (truncated: TruncatedUsAsciiPrintableString)
        ensures
            truncated@ == truncate_to_us_ascii_printable(string@, maximum_length as nat),
    {
        let value: Vec<u8> = Self::truncate_us_ascii_printable(string, maximum_length);
        TruncatedUsAsciiPrintableString { value }
    }

    /// The name of a structured data element or of a parameter. A name is part of the
    /// message's structure, so a text that cannot be one is refused, not repaired.
    pub fn new_sd_name(sd_name: &str) -> (name: Result<TruncatedUsAsciiPrintableString, SdNameError>)
        ensures
            name is Ok <==> is_sd_name(sd_name@),
            name matches Ok(truncated) ==> truncated@ == sd_name_bytes(sd_name@),
            name matches Err(fault) ==> sd_name_fault(sd_name@) == Some(fault),
    {
        proof {
            lemma_sd_name_fault(sd_name@);
        }
        for character in it: sd_name.chars()
            invariant
                it.seq() == sd_name@,
                sd_name_fault(sd_name@.take(it.index() as int)) is None,
        {
            proof {
                lemma_char_code(character);
                assert(sd_name@.take(it.index() + 1).drop_last() =~= sd_name@.take(
                    it.index() as int,
                ));
            }
            if character == '"' || character == '\\' || character == ']' || character <= ' '
                || character == '\x7f' {
                proof {
                    lemma_fault_stays(sd_name@, it.index() + 1);
                }
                return Err(SdNameError::ForbiddenCharacter);
            } else if character > '~' {
                proof {
                    lemma_fault_stays(sd_name@, it.index() + 1);
                }
                return Err(SdNameError::NotUsAscii);
            }
        }
        assert(sd_name@.take(sd_name@.len() as int) =~= sd_name@);
        Ok(TruncatedUsAsciiPrintableString::new(sd_name, MAXIMUM_SD_NAME_LENGTH))
    }

    /// The bytes that stand for the first `maximum_length` characters of `string`.
    /// What is beyond them is not looked at.
    fn truncate_us_ascii_printable(string: &str, maximum_length: usize) -> (value: Vec<u8>)
        ensures
            value@ == truncate_to_us_ascii_printable(string@, maximum_length as nat),
            all_printable(value@),
    {
        broadcast use vstd::string::group_string_axioms;

        let ghost whole = truncate_to_us_ascii_printable(string@, maximum_length as nat);
        let mut value: Vec<u8> = Vec::new();
        let mut characters = string.chars();
        let mut exhausted: bool = false;
        while !exhausted && value.len() < maximum_length
            invariant
                characters.obeys_prophetic_iter_laws(),
                characters.remaining() == string@.skip(value@.len() as int),
                value@.len() <= string@.len(),
                value@.len() <= maximum_length,
                exhausted ==> value@.len() == string@.len(),
                whole == truncate_to_us_ascii_printable(string@, maximum_length as nat),
                value@ == whole.take(value@.len() as int),
                all_printable(value@),
            decreases maximum_length - value@.len() + (if exhausted { 0int } else { 1int }),
        {
            match characters.next() {
                Some(c) => {
                    proof {
                        lemma_char_code(c);
                    }
                    if ' ' <= c && c <= '~' {
                        value.push(c as u8);
                    } else {
                        value.push(REPLACEMENT_CHARACTER);
                    }
                },
                None => {
                    exhausted = true;
                },
            }
        }
        value
    }

    /// A parameter of this name, with the given value.
    pub fn parameter(&self, value: String) -> (parameter: StructuredDataParameter)
        ensures
            parameter.name() == self@,
            parameter.value() == value@,
    {
        StructuredDataParameter::new(self.clone(), value)
    }

    /// The bytes of the text, each of them printable US-ASCII.
    pub fn as_bytes(&self) -> (bytes: &[u8])
        ensures
            bytes@ == self@,
            all_printable(bytes@),
    {
        proof {
            use_type_invariant(self);
        }
        self.value.as_slice()
    }

    pub fn len(&self) -> (length: usize)
        ensures
            length == self@.len(),
    {
        self.value.len()
    }
}

/// The fault of a text's beginning is the fault of the text.
proof fn lemma_fault_stays(chars: Seq<char>, prefix: int)
    requires
        0 <= prefix <= chars.len(),
        sd_name_fault(chars.take(prefix)) is Some,
    ensures
        sd_name_fault(chars) == sd_name_fault(chars.take(prefix)),
    decreases chars.len() - prefix,
{
    if prefix < chars.len() {
        assert(chars.take(prefix + 1).drop_last() =~= chars.take(prefix));
        lemma_fault_stays(chars, prefix + 1);
    } else {
        assert(chars.take(prefix) =~= chars);
    }
}

impl PartialEq for TruncatedUsAsciiPrintableString {
    fn eq(&self, other: &TruncatedUsAsciiPrintableString) -> (equal: bool) {
        if self.value.len() != other.value.len() {
            return false;
        }
        let mut i: usize = 0;
        while i < self.value.len()
            invariant
                i <= self.value@.len(),
                self.value@.len() == other.value@.len(),
                self.value@.take(i as int) == other.value@.take(i as int),
            decreases self.value@.len() - i,
        {
            if self.value[i] != other.value[i] {
                return false;
            }
            i = i + 1;
        }
        assert(self.value@.take(i as int) =~= self.value@);
        assert(other.value@.take(i as int) =~= other.value@);
        true
    }
}

impl PartialEqSpecImpl for TruncatedUsAsciiPrintableString {
    open spec fn obeys_eq_spec() -> bool {
        true
    }

    open spec fn eq_spec(&self, other: &TruncatedUsAsciiPrintableString) -> bool {
        self@ == other@
    }
}

impl Eq for TruncatedUsAsciiPrintableString {

}

impl Clone for TruncatedUsAsciiPrintableString {
    fn clone(&self) -> (copy: TruncatedUsAsciiPrintableString)
        ensures
            copy@ == self@,
    {
        proof {
            use_type_invariant(self);
        }
        let value: Vec<u8> = self.value.clone();
        TruncatedUsAsciiPrintableString { value }
    }
}

/// Appending a truncated text to a buffer of bytes.
pub trait WriteTruncatedUsAsciiPrintableString {
    fn write_truncated(&mut self, value: &TruncatedUsAsciiPrintableString);
}

impl WriteTruncatedUsAsciiPrintableString for Vec<u8> {
    fn write_truncated(&mut self, value: &TruncatedUsAsciiPrintableString)
        ensures
            final(self)@ == old(self)@ + value@,
    {
        self.extend_from_slice(value.as_bytes());
    }
}

} // verus!
