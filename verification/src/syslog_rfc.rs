use vstd::prelude::*;
use vstd::string::StringSliceAdditionalSpecFns;
use vstd::utf8::encode_utf8;
use crate::ascii::CLOSING_SQUARE_BRACKET;
use crate::ascii::COLON;
use crate::ascii::DIGIT_ONE;
use crate::ascii::GREATER_THAN;
use crate::ascii::HYPHEN;
use crate::ascii::LESS_THAN;
use crate::ascii::OPENING_SQUARE_BRACKET;
use crate::ascii::SPACE;
use crate::decimal::decimal;
use crate::decimal::push_decimal;
use crate::rfc5424::structured_data::structured_data_rendering;
use crate::rfc5424::structured_data::ElementModel;
use crate::rfc5424::write_structured_data_elements;
use crate::rfc5424::StructuredData;
use crate::rfc5424::TruncatedUsAsciiPrintableString;
use crate::rfc5424::WriteTruncatedUsAsciiPrintableString;
use crate::severity::Severity;
use crate::syslogSenders::Rfc3164Facility;
use crate::timestamp::Timestamp;
use crate::vec_u8_push_str::VecU8PushStr;

verus! {

/// The version of the protocol that the structured format names: `1`.
pub const SyslogProtocolVersion: u8 = DIGIT_ONE;

/// How many bytes a buffer for a message has room for when it is made.
pub const INITIAL_CAPACITY: usize = 4096;

/// `<`, the priority in decimal notation, and `>`: what every message starts with.
pub open spec fn priority_rendering(priority: int) -> Seq<u8> {
    seq![LESS_THAN] + decimal(priority) + seq![GREATER_THAN]
}

/// The three bytes that mark what follows them as UTF-8.
pub open spec fn byte_order_mark() -> Seq<u8> {
    seq![0xefu8, 0xbb, 0xbf]
}

/// A message in the legacy format: `<P>Mon DD HH:MM:SS HOST APP[PID]: MESSAGE`.
pub open spec fn legacy_message(
    priority: int,
    time: Seq<u8>,
    host: Seq<u8>,
    app: Seq<u8>,
    process_id: Seq<u8>,
    message: Seq<u8>,
) -> Seq<u8> {
    priority_rendering(priority) + time + seq![SPACE] + host + seq![SPACE] + app + seq![
        OPENING_SQUARE_BRACKET,
    ] + process_id + seq![CLOSING_SQUARE_BRACKET, COLON, SPACE] + message
}

/// A message in the structured format: `<P>1 TIMESTAMP HOST APP PID MSGID SD MESSAGE`,
/// with a byte order mark before the text of the message.
pub open spec fn structured_message(
    priority: int,
    time: Seq<u8>,
    host: Seq<u8>,
    app: Seq<u8>,
    process_id: Seq<u8>,
    message_id: Seq<u8>,
    structured_data: Seq<u8>,
    message: Seq<u8>,
) -> Seq<u8> {
    priority_rendering(priority) + seq![SyslogProtocolVersion, SPACE] + time + seq![SPACE] + host
        + seq![SPACE] + app + seq![SPACE] + process_id + seq![SPACE] + message_id + seq![SPACE]
        + structured_data + seq![SPACE] + byte_order_mark() + message
}

/// A message in the structured format that carries no structured data has `-` where
/// structured data would stand, between two spaces.
pub proof fn lemma_no_structured_data_is_nil(
    rfc: SyslogRfc,
    time: Timestamp,
    rfc3164Facility: Rfc3164Facility,
    severity: Severity,
    message: Seq<char>,
)
    requires
        rfc is Rfc5424,
    ensures
        structured_data_rendering(Seq::empty()) == seq![HYPHEN],
        rfc.rendering(time, rfc3164Facility, severity, Seq::empty(), message)
            == structured_message(
            rfc3164Facility.spec_code() * 8 + severity.spec_value(),
            time.structured(),
            rfc->hostName@,
            rfc->Rfc5424_appName@,
            rfc->Rfc5424_processId@,
            rfc->messageId@,
            seq![HYPHEN],
            encode_utf8(message),
        ),
{
}

/// A message in the legacy format is the same whatever structured data it is made
/// with: the format has no place for any.
pub proof fn lemma_legacy_format_has_no_structured_data(
    rfc: SyslogRfc,
    time: Timestamp,
    rfc3164Facility: Rfc3164Facility,
    severity: Severity,
    some: Seq<ElementModel>,
    other: Seq<ElementModel>,
    message: Seq<char>,
)
    requires
        rfc is Rfc3164,
    ensures
        rfc.rendering(time, rfc3164Facility, severity, some, message) == rfc.rendering(
            time,
            rfc3164Facility,
            severity,
            other,
            message,
        ),
{
}

/// Appends one byte to `writer`.
fn push_byte(writer: &mut Vec<u8>, byte: u8)
    ensures
        final(writer)@ == old(writer)@ + seq![byte],
{
    writer.push(byte);
}

/// Appends three bytes to `writer`.
fn push_bytes(writer: &mut Vec<u8>, first: u8, second: u8, third: u8)
    ensures
        final(writer)@ == old(writer)@ + seq![first, second, third],
{
    writer.push(first);
    writer.push(second);
    writer.push(third);
}

/// Writes what a message starts with into the empty `writer`.
fn write_priority(writer: &mut Vec<u8>, priority: i32)
    requires
        old(writer)@.len() == 0,
    ensures
        final(writer)@ == priority_rendering(priority as int),
{
    writer.push(LESS_THAN);
    push_decimal(writer, priority as i64);
    writer.push(GREATER_THAN);
}

/// Who sends the messages, in the shape that one of the two formats asks for. It is
/// made once, and serves for every message of its sender.
#[derive(Debug)]
pub enum SyslogRfc {
    /// The legacy format, which knows hosts by their name without a domain.
    Rfc3164 {
        hostNameWithoutDomain: TruncatedUsAsciiPrintableString,
        appName: TruncatedUsAsciiPrintableString,
        processId: TruncatedUsAsciiPrintableString,
    },
    /// The structured format, which also says what kind of message it carries.
    Rfc5424 {
        hostName: TruncatedUsAsciiPrintableString,
        appName: TruncatedUsAsciiPrintableString,
        processId: TruncatedUsAsciiPrintableString,
        messageId: TruncatedUsAsciiPrintableString,
    },
}

impl SyslogRfc {
    /// The message that this sender makes of a time, a facility, a severity,
    /// structured data and a text. The legacy format has no place for structured data,
    /// and leaves it out.
    pub open spec fn rendering(
        &self,
        time: Timestamp,
        rfc3164Facility: Rfc3164Facility,
        severity: Severity,
        structured_data_elements: Seq<ElementModel>,
        message: Seq<char>,
    ) -> Seq<u8> {
        let priority = rfc3164Facility.spec_code() * 8 + severity.spec_value();
        match *self {
            SyslogRfc::Rfc3164 { hostNameWithoutDomain, appName, processId } => legacy_message(
                priority,
                time.legacy(),
                hostNameWithoutDomain@,
                appName@,
                processId@,
                encode_utf8(message),
            ),
            SyslogRfc::Rfc5424 { hostName, appName, processId, messageId } => structured_message(
                priority,
                time.structured(),
                hostName@,
                appName@,
                processId@,
                messageId@,
                structured_data_rendering(structured_data_elements),
                encode_utf8(message),
            ),
        }
    }

    /// The bytes of one message whose time is now, by the clock of the system; `None`
    /// where the clock reports what cannot be the time of a message.
    pub fn write_now(
        &self,
        rfc3164Facility: Rfc3164Facility,
        severity: Severity,
        structured_data_elements: &StructuredData,
        message: &str,
    ) -> (bytes: Option<Vec<u8>>)
        ensures
            bytes matches Some(written) ==> exists|time: Timestamp|
                time.is_valid() && written@ == #[trigger] self.rendering(
                    time,
                    rfc3164Facility,
                    severity,
                    structured_data_elements@,
                    message@,
                ),
    {
        match Timestamp::now() {
            Some(time) => Some(
                self.write(time, rfc3164Facility, severity, structured_data_elements, message),
            ),
            None => None,
        }
    }

    /// The bytes of one message. Nothing follows the text of the message: what ends a
    /// message on its way is for the sender to add.
    pub fn write(
        &self,
        time: Timestamp,
        rfc3164Facility: Rfc3164Facility,
        severity: Severity,
        structured_data_elements: &StructuredData,
        message: &str,
    ) -> (bytes: Vec<u8>)
        ensures
            bytes@ == self.rendering(
                time,
                rfc3164Facility,
                severity,
                structured_data_elements@,
                message@,
            ),
    {
        let mut writer: Vec<u8> = Vec::with_capacity(INITIAL_CAPACITY);
        let priority: i32 = severity.toPriorityRfc3164(rfc3164Facility);
        write_priority(&mut writer, priority);
        match self {
            SyslogRfc::Rfc3164 { hostNameWithoutDomain, appName, processId } => {
                time.write_legacy(&mut writer);
                push_byte(&mut writer, SPACE);
                writer.write_truncated(hostNameWithoutDomain);
                push_byte(&mut writer, SPACE);
                writer.write_truncated(appName);
                push_byte(&mut writer, OPENING_SQUARE_BRACKET);
                writer.write_truncated(processId);
                push_bytes(&mut writer, CLOSING_SQUARE_BRACKET, COLON, SPACE);
                writer.push_str(message);
            },
            SyslogRfc::Rfc5424 { hostName, appName, processId, messageId } => {
                writer.push(SyslogProtocolVersion);
                writer.push(SPACE);
                time.write_structured(&mut writer);
                push_byte(&mut writer, SPACE);
                writer.write_truncated(hostName);
                push_byte(&mut writer, SPACE);
                writer.write_truncated(appName);
                push_byte(&mut writer, SPACE);
                writer.write_truncated(processId);
                push_byte(&mut writer, SPACE);
                writer.write_truncated(messageId);
                push_byte(&mut writer, SPACE);
                write_structured_data_elements(&mut writer, structured_data_elements);
                push_byte(&mut writer, SPACE);
                push_bytes(&mut writer, 0xEF, 0xBB, 0xBF);
                writer.push_str(message);
            },
        }
        writer
    }
}

} // verus!
