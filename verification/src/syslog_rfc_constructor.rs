use vstd::prelude::*;
use crate::ascii::as_chars;
use crate::decimal::decimal;
use crate::decimal::decimal_string;
use crate::decimal::lemma_decimal_of_i64;
use crate::rfc5424::truncated_us_ascii_printable_string::truncate_to_us_ascii_printable;
use crate::rfc5424::TruncatedUsAsciiPrintableString;
use crate::syslog_rfc::SyslogRfc;

verus! {

/// What stands for a name that is not known.
pub const NILVALUE: &'static str = "-";

/// The most bytes that the name of a host can have in a message.
pub const MAXIMUM_HOST_NAME_LENGTH: usize = 255;

/// The most bytes that the id of a process can have in a message.
pub const MAXIMUM_PROCESS_ID_LENGTH: usize = 128;

/// The most bytes that the id of a kind of message can have in a message.
pub const MAXIMUM_MESSAGE_ID_LENGTH: usize = 32;

/// What is known of the process that sends the messages. A name that is not known is
/// empty.
#[derive(Debug)]
pub struct Process {
    pub hostName: String,
    pub hostNameWithoutDomain: String,
    pub programName: String,
    pub pid: i32,
}

/// Which of the two formats a sender uses.
#[derive(Debug, Clone, Copy, PartialEq, Eq, Structural)]
pub enum SyslogRfcConstructor {
    Rfc3164,
    Rfc5424,
}

/// A name as it stands in a message: `-` in place of an empty name.
pub open spec fn name_or_nil(name: Seq<char>) -> Seq<char> {
    if name.len() == 0 {
        NILVALUE@
    } else {
        name
    }
}

/// A name as a field of a message: `-` for an empty name, and else the name in
/// printable US-ASCII, cut off at `maximum_length`.
pub open spec fn name_field(name: Seq<char>, maximum_length: nat) -> Seq<u8> {
    truncate_to_us_ascii_printable(name_or_nil(name), maximum_length)
}

/// A number in decimal notation that fits in 64 bits with a sign is kept as it is
/// where the maximum length is 20 or more: nothing in it is replaced, or cut off it.
pub proof fn lemma_decimal_is_kept(v: int, maximum_length: nat)
    requires
        -0x8000_0000_0000_0000 <= v <= 0x7fff_ffff_ffff_ffff,
        maximum_length >= 20,
    ensures
        truncate_to_us_ascii_printable(as_chars(decimal(v)), maximum_length) == decimal(v),
        decimal(v).len() <= 20,
{
    lemma_decimal_of_i64(v);
}

impl SyslogRfcConstructor {
    /// The most bytes that the name of the application can have in a message of
    /// this format.
    pub open spec fn spec_maximum_app_name_length(self) -> usize {
        match self {
            SyslogRfcConstructor::Rfc3164 => 32,
            SyslogRfcConstructor::Rfc5424 => 48,
        }
    }

    #[verifier::when_used_as_spec(spec_maximum_app_name_length)]
    pub fn maximum_app_name_length(self) -> (length: usize)
        ensures
            length == self.spec_maximum_app_name_length(),
    {
        match self {
            SyslogRfcConstructor::Rfc3164 => 32,
            SyslogRfcConstructor::Rfc5424 => 48,
        }
    }

    /// Who sends the messages, in the shape that this format asks for: the host, the
    /// program and the process, and for the structured format also `messageId`, the
    /// kind of the messages. The legacy format knows the host by its name without a
    /// domain. A name that is empty is written as `-`.
    pub fn new(&self, process: &Process, messageId: &str) -> (rfc: SyslogRfc)
        ensures
            match *self {
                SyslogRfcConstructor::Rfc3164 => {
                    &&& rfc matches SyslogRfc::Rfc3164 { hostNameWithoutDomain, appName, processId }
                    &&& hostNameWithoutDomain@ == name_field(
                        process.hostNameWithoutDomain@,
                        MAXIMUM_HOST_NAME_LENGTH as nat,
                    )
                    &&& appName@ == name_field(process.programName@, 32)
                    &&& processId@ == decimal(process.pid as int)
                    &&& hostNameWithoutDomain@.len() <= MAXIMUM_HOST_NAME_LENGTH
                    &&& appName@.len() <= 32
                    &&& processId@.len() <= MAXIMUM_PROCESS_ID_LENGTH
                },
                SyslogRfcConstructor::Rfc5424 => {
                    &&& rfc matches SyslogRfc::Rfc5424 { hostName, appName, processId, messageId: id }
                    &&& hostName@ == name_field(process.hostName@, MAXIMUM_HOST_NAME_LENGTH as nat)
                    &&& appName@ == name_field(process.programName@, 48)
                    &&& processId@ == decimal(process.pid as int)
                    &&& id@ == name_field(messageId@, MAXIMUM_MESSAGE_ID_LENGTH as nat)
                    &&& hostName@.len() <= MAXIMUM_HOST_NAME_LENGTH
                    &&& appName@.len() <= 48
                    &&& processId@.len() <= MAXIMUM_PROCESS_ID_LENGTH
                    &&& id@.len() <= MAXIMUM_MESSAGE_ID_LENGTH
                },
            },
    {
        let truncatedPrintableUsAsciiProgramName = Self::name(
            process.programName.as_str(),
            self.maximum_app_name_length(),
        );
        let pid: String = decimal_string(process.pid as i64);
        let truncatedPrintableProcessId = TruncatedUsAsciiPrintableString::new(
            pid.as_str(),
            MAXIMUM_PROCESS_ID_LENGTH,
        );
        proof {
            lemma_decimal_is_kept(process.pid as int, MAXIMUM_PROCESS_ID_LENGTH as nat);
        }
        match self {
            SyslogRfcConstructor::Rfc3164 => {
                SyslogRfc::Rfc3164 {
                    hostNameWithoutDomain: Self::name(
                        process.hostNameWithoutDomain.as_str(),
                        MAXIMUM_HOST_NAME_LENGTH,
                    ),
                    appName: truncatedPrintableUsAsciiProgramName,
                    processId: truncatedPrintableProcessId,
                }
            },
            SyslogRfcConstructor::Rfc5424 => {
                SyslogRfc::Rfc5424 {
                    hostName: Self::name(process.hostName.as_str(), MAXIMUM_HOST_NAME_LENGTH),
                    appName: truncatedPrintableUsAsciiProgramName,
                    processId: truncatedPrintableProcessId,
                    messageId: Self::name(messageId, MAXIMUM_MESSAGE_ID_LENGTH),
                }
            },
        }
    }

    /// A name as a field of a message.
    fn name(name: &str, maximum_length: usize) -> (field: TruncatedUsAsciiPrintableString)
        ensures
            field@ == name_field(name@, maximum_length as nat),
    {
        if name.is_empty() {
            TruncatedUsAsciiPrintableString::new(NILVALUE, maximum_length)
        } else {
            TruncatedUsAsciiPrintableString::new(name, maximum_length)
        }
    }
}

} // verus!
