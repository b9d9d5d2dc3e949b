use vstd::prelude::*;
use vstd::std_specs::cmp::PartialEqSpecImpl;
use vstd::string::StringExecFns;
use crate::ascii::as_chars;
use crate::ascii::CLOSING_SQUARE_BRACKET;
use crate::ascii::OPENING_SQUARE_BRACKET;
use crate::decimal::decimal;
use crate::decimal::decimal_string;
use crate::decimal::unsigned_decimal_string;
use crate::rfc5424::sequence_id::successor;
use crate::rfc5424::sequence_id::OwnedSequenceId;
use crate::rfc5424::sequence_id::SequenceId;
use crate::rfc5424::structured_data_parameter::parameter_rendering;
use crate::rfc5424::structured_data_parameter::StructuredDataParameter;
use crate::rfc5424::truncated_us_ascii_printable_string::is_sd_name;
use crate::rfc5424::truncated_us_ascii_printable_string::sd_name_bytes;
use crate::rfc5424::truncated_us_ascii_printable_string::TruncatedUsAsciiPrintableString;
use crate::rfc5424::truncated_us_ascii_printable_string::MAXIMUM_SD_NAME_LENGTH;
use crate::rfc5424::truncated_us_ascii_printable_string::WriteTruncatedUsAsciiPrintableString;

verus! {

/// The most characters that the name of the software can have in an `origin` element.
pub const MAXIMUM_SOFTWARE_LENGTH: usize = 48;

/// The most characters that the version of the software can have in an `origin` element.
pub const MAXIMUM_SOFTWARE_VERSION_LENGTH: usize = 32;

/// How many microseconds a hundredth of a second has.
pub const MICROSECONDS_IN_A_HUNDREDTH_OF_A_SECOND: i64 = 10_000;

/// A parameter as a name and a value.
pub type ParameterModel = (Seq<u8>, Seq<char>);

/// Parameters as they stand in a message, one after the other.
pub open spec fn parameters_rendering(parameters: Seq<ParameterModel>) -> Seq<u8>
    decreases parameters.len(),
{
    if parameters.len() == 0 {
        Seq::empty()
    } else {
        parameters_rendering(parameters.drop_last()) + parameter_rendering(
            parameters.last().0,
            parameters.last().1,
        )
    }
}

/// An element as it stands in a message: `[`, the id, the parameters and `]`.
pub open spec fn element_rendering(id: Seq<u8>, parameters: Seq<ParameterModel>) -> Seq<u8> {
    seq![OPENING_SQUARE_BRACKET] + id + parameters_rendering(parameters) + seq![
        CLOSING_SQUARE_BRACKET,
    ]
}

/// `1` for yes and `0` for no.
pub open spec fn flag(yes: bool) -> Seq<char> {
    if yes {
        "1"@
    } else {
        "0"@
    }
}

/// The parameters of a `timeQuality` element.
pub open spec fn time_quality_parameters(
    tzKnown: bool,
    isSynced: bool,
    syncAccuracy: u64,
) -> Seq<ParameterModel> {
    seq![
        (sd_name_bytes("tzKnown"@), flag(tzKnown)),
        (sd_name_bytes("isSynced"@), flag(isSynced)),
        (sd_name_bytes("syncAccuracy"@), as_chars(decimal(syncAccuracy as int))),
    ]
}

/// The object identifier of the enterprise whose private number is `number`.
pub open spec fn enterprise_id(number: u32) -> Seq<char> {
    "1.3.6.1.4.1."@ + as_chars(decimal(number as int))
}

/// The parameters of an `origin` element: the enterprise, the software, its version,
/// and one `ip` parameter for each address, in their order.
pub open spec fn origin_parameters(
    ianaPrivateEnterpriseNumber: u32,
    software: Seq<char>,
    softwareVersion: Seq<char>,
    ipAddresses: Seq<Seq<char>>,
) -> Seq<ParameterModel> {
    seq![
        (sd_name_bytes("enterpriseId"@), enterprise_id(ianaPrivateEnterpriseNumber)),
        (sd_name_bytes("software"@), software),
        (sd_name_bytes("softwareVersion"@), softwareVersion),
    ] + Seq::new(ipAddresses.len(), |i: int| (sd_name_bytes("ip"@), ipAddresses[i]))
}

/// The time that a system has been up, in hundredths of a second; a time below zero
/// counts as zero.
pub open spec fn hundredths_of_a_second(uptime_in_microseconds: i64) -> int {
    if uptime_in_microseconds <= 0 {
        0
    } else {
        uptime_in_microseconds / MICROSECONDS_IN_A_HUNDREDTH_OF_A_SECOND
    }
}

/// The parameters of a `meta` element: the sequence id, the time that the system has
/// been up where it is known, and the language, which is English.
pub open spec fn meta_parameters(sequence_id: i32, uptime_in_microseconds: Option<i64>) -> Seq<
    ParameterModel,
> {
    let first = (sd_name_bytes("sequenceId"@), as_chars(decimal(sequence_id as int)));
    let last = (sd_name_bytes("language"@), "en"@);
    match uptime_in_microseconds {
        Some(uptime) => seq![
            first,
            (sd_name_bytes("sysUpTime"@), as_chars(decimal(hundredths_of_a_second(uptime)))),
            last,
        ],
        None => seq![first, last],
    }
}

/// What a message says of itself, or of where it comes from, under one id: parameters
/// in a fixed order. In a set of elements, the id tells one element from another.
#[derive(Debug)]
pub struct StructuredDataElement {
    id: TruncatedUsAsciiPrintableString,
    parameters: Vec<StructuredDataParameter>,
}

/// The text of a name that is known to be one.
fn known_name(name: &str) -> (truncated: TruncatedUsAsciiPrintableString)
    requires
        is_sd_name(name@),
    ensures
        truncated@ == sd_name_bytes(name@),
{
    TruncatedUsAsciiPrintableString::new(name, MAXIMUM_SD_NAME_LENGTH)
}

impl StructuredDataElement {
    pub closed spec fn id(&self) -> Seq<u8> {
        self.id@
    }

    pub closed spec fn parameters(&self) -> Seq<ParameterModel> {
        Seq::new(
            self.parameters@.len(),
            |i: int| (self.parameters@[i].name(), self.parameters@[i].value()),
        )
    }

    /// The element as it stands in a message.
    pub open spec fn rendering(&self) -> Seq<u8> {
        element_rendering(self.id(), self.parameters())
    }

    /// The element with the given id and parameters, in their order.
    pub fn new(id: TruncatedUsAsciiPrintableString, parameters: Vec<StructuredDataParameter>) -> (element:
        StructuredDataElement)
        ensures
            element.id() == id@,
            element.parameters() == Seq::new(
                parameters@.len(),
                |i: int| (parameters@[i].name(), parameters@[i].value()),
            ),
    {
        StructuredDataElement { id, parameters }
    }

    /// Appends the element to `writer`.
    pub fn write(&self, writer: &mut Vec<u8>)
        ensures
            final(writer)@ == old(writer)@ + self.rendering(),
    {
        writer.push(OPENING_SQUARE_BRACKET);
        writer.write_truncated(&self.id);
        let ghost start = writer@;
        let mut i: usize = 0;
        while i < self.parameters.len()
            invariant
                i <= self.parameters@.len(),
                writer@ == start + parameters_rendering(self.parameters().take(i as int)),
            decreases self.parameters@.len() - i,
        {
            self.parameters[i].write(writer);
            proof {
                let model = self.parameters();
                assert(model.take(i + 1).drop_last() =~= model.take(i as int));
            }
            i = i + 1;
        }
        assert(self.parameters().take(i as int) =~= self.parameters());
        writer.push(CLOSING_SQUARE_BRACKET);
    }

    /// How good the time of the message is: whether the sender knows its time zone,
    /// whether its clock is synchronized, and how far off, in microseconds, the clock
    /// may be. A clock that is not synchronized has no such accuracy: `syncAccuracy`
    /// is then 0.
    pub fn timeQuality(tzKnown: bool, isSynced: bool, syncAccuracy: u64) -> (element:
        StructuredDataElement)
        requires
            isSynced || syncAccuracy == 0,
        ensures
            element.id() == sd_name_bytes("timeQuality"@),
            element.parameters() == time_quality_parameters(tzKnown, isSynced, syncAccuracy),
    {
        proof {
            reveal_strlit("timeQuality");
            reveal_strlit("tzKnown");
            reveal_strlit("isSynced");
            reveal_strlit("syncAccuracy");
        }
        let tzKnownValue: &str = if tzKnown {
            "1"
        } else {
            "0"
        };
        let isSyncedValue: &str = if isSynced {
            "1"
        } else {
            "0"
        };
        let syncAccuracyValue: String = unsigned_decimal_string(syncAccuracy);
        let mut parameters: Vec<StructuredDataParameter> = Vec::new();
        parameters.push(known_name("tzKnown").parameter(tzKnownValue.to_owned()));
        parameters.push(known_name("isSynced").parameter(isSyncedValue.to_owned()));
        parameters.push(known_name("syncAccuracy").parameter(syncAccuracyValue));
        StructuredDataElement { id: known_name("timeQuality"), parameters }
    }

    /// Where the message comes from: the enterprise that made the software, by its
    /// private enterprise number; the software and its version; and the addresses of
    /// the sender, each as text. The name of the software has at most 48
    /// characters, its version at most 32.
    pub fn origin(
        ianaPrivateEnterpriseNumber: u32,
        software: &str,
        softwareVersion: &str,
        ipAddresses: &Vec<String>,
    ) -> (element: StructuredDataElement)
        requires
            software@.len() <= MAXIMUM_SOFTWARE_LENGTH,
            softwareVersion@.len() <= MAXIMUM_SOFTWARE_VERSION_LENGTH,
        ensures
            element.id() == sd_name_bytes("origin"@),
            element.parameters() == origin_parameters(
                ianaPrivateEnterpriseNumber,
                software@,
                softwareVersion@,
                Seq::new(ipAddresses@.len(), |i: int| ipAddresses@[i]@),
            ),
    {
        proof {
            reveal_strlit("origin");
            reveal_strlit("enterpriseId");
            reveal_strlit("software");
            reveal_strlit("softwareVersion");
            reveal_strlit("ip");
        }
        let ghost addresses = Seq::new(ipAddresses@.len(), |i: int| ipAddresses@[i]@);
        let ghost expected = origin_parameters(
            ianaPrivateEnterpriseNumber,
            software@,
            softwareVersion@,
            addresses,
        );
        let mut enterpriseId: String = "1.3.6.1.4.1.".to_owned();
        let number: String = decimal_string(ianaPrivateEnterpriseNumber as i64);
        enterpriseId.append(number.as_str());
        let mut parameters: Vec<StructuredDataParameter> = Vec::new();
        parameters.push(known_name("enterpriseId").parameter(enterpriseId));
        parameters.push(known_name("software").parameter(software.to_owned()));
        parameters.push(known_name("softwareVersion").parameter(softwareVersion.to_owned()));
        let ipName: TruncatedUsAsciiPrintableString = known_name("ip");
        let mut i: usize = 0;
        while i < ipAddresses.len()
            invariant
                i <= ipAddresses@.len(),
                ipName@ == sd_name_bytes("ip"@),
                addresses == Seq::new(ipAddresses@.len(), |k: int| ipAddresses@[k]@),
                expected == origin_parameters(
                    ianaPrivateEnterpriseNumber,
                    software@,
                    softwareVersion@,
                    addresses,
                ),
                parameters@.len() == 3 + i,
                forall|k: int|
                    0 <= k < parameters@.len() ==> (#[trigger] parameters@[k]).name()
                        == expected[k].0 && parameters@[k].value() == expected[k].1,
            decreases ipAddresses@.len() - i,
        {
            parameters.push(ipName.parameter(ipAddresses[i].clone()));
            i = i + 1;
        }
        StructuredDataElement { id: known_name("origin"), parameters }
    }

    /// What the sender knows of the message itself: its sequence id, taken from
    /// `sequence`; the time that the system has been up, where the caller knows it,
    /// in microseconds; and the language of the message.
    pub fn meta(sequence: &SequenceId, uptime_in_microseconds: Option<i64>) -> (element:
        StructuredDataElement)
        ensures
            element.id() == sd_name_bytes("meta"@),
            exists|sequence_id: i32|
                sequence_id >= 1 && element.parameters() == #[trigger] meta_parameters(
                    sequence_id,
                    uptime_in_microseconds,
                ),
    {
        let sequence_id: i32 = sequence.take();
        Self::meta_with_sequence_id(sequence_id, uptime_in_microseconds)
    }

    /// What the sender knows of the message itself, where one owner numbers the
    /// messages: the sequence id is the one that is up in `sequence`, which moves on to
    /// the successor of that id.
    pub fn meta_with_owned_sequence(
        sequence: &mut OwnedSequenceId,
        uptime_in_microseconds: Option<i64>,
    ) -> (element: StructuredDataElement)
        ensures
            element.id() == sd_name_bytes("meta"@),
            element.parameters() == meta_parameters(
                old(sequence).upcoming(),
                uptime_in_microseconds,
            ),
            final(sequence).upcoming() == successor(old(sequence).upcoming()),
            old(sequence).upcoming() >= 1,
    {
        let sequence_id: i32 = sequence.take();
        Self::meta_with_sequence_id(sequence_id, uptime_in_microseconds)
    }

    /// The `meta` element of the message whose sequence id is `sequence_id`.
    pub fn meta_with_sequence_id(sequence_id: i32, uptime_in_microseconds: Option<i64>) -> (element:
        StructuredDataElement)
        ensures
            element.id() == sd_name_bytes("meta"@),
            element.parameters() == meta_parameters(sequence_id, uptime_in_microseconds),
    {
        proof {
            reveal_strlit("meta");
            reveal_strlit("sequenceId");
            reveal_strlit("sysUpTime");
            reveal_strlit("language");
        }
        let mut parameters: Vec<StructuredDataParameter> = Vec::new();
        parameters.push(known_name("sequenceId").parameter(decimal_string(sequence_id as i64)));
        match uptime_in_microseconds {
            Some(uptime) => {
                let uptime_in_hundredths_of_a_second: i64 = if uptime <= 0 {
                    0
                } else {
                    uptime / MICROSECONDS_IN_A_HUNDREDTH_OF_A_SECOND
                };
                parameters.push(
                    known_name("sysUpTime").parameter(
                        decimal_string(uptime_in_hundredths_of_a_second),
                    ),
                );
            },
            None => {},
        }
        parameters.push(known_name("language").parameter("en".to_owned()));
        StructuredDataElement { id: known_name("meta"), parameters }
    }
}

impl PartialEq for StructuredDataElement {
    /// Two elements are the same where their ids are.
    fn eq(&self, other: &StructuredDataElement) -> (equal: bool) {
        self.id == other.id
    }
}

impl PartialEqSpecImpl for StructuredDataElement {
    open spec fn obeys_eq_spec() -> bool {
        true
    }

    open spec fn eq_spec(&self, other: &StructuredDataElement) -> bool {
        self.id() == other.id()
    }
}

impl Eq for StructuredDataElement {

}

} // verus!
