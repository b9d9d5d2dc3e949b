//! Messages on standard error, for the platforms whose logger cannot copy them there.

use vstd::prelude::*;
use crate::ascii::CARRIAGE_RETURN;
use crate::ascii::LINE_FEED;
use crate::facility::Facility;
use crate::platform::Platform;
use crate::priority::facility_in;
use crate::priority::severity_in;
use crate::priority::Priority;
use crate::priority::PriorityTrait;
use crate::rfc5424::StructuredData;
use crate::syslog_rfc::SyslogRfc;
use crate::timestamp::Timestamp;

verus! {

/// The facility under which a message of the given priority is written to standard
/// error: the facility that the priority holds; but `default_facility`, the facility
/// that the log was opened with, where the priority holds `LOG_KERN`, which stands for
/// "no facility named", or holds the code of no facility of the platform.
pub open spec fn facility_on_standard_error(
    priority: Priority,
    default_facility: Facility,
    platform: Platform,
) -> Facility {
    match facility_in(priority, platform) {
        Some(Facility::LOG_KERN) => default_facility,
        Some(facility) => facility,
        None => default_facility,
    }
}

#[verifier::when_used_as_spec(facility_on_standard_error)]
pub fn chosen_facility(priority: Priority, default_facility: Facility, platform: Platform) -> (facility:
    Facility)
    ensures
        facility == facility_on_standard_error(priority, default_facility, platform),
{
    match priority.facility(platform) {
        Some(Facility::LOG_KERN) => default_facility,
        Some(facility) => facility,
        None => default_facility,
    }
}

/// The line that stands for a message on standard error: the message as `rfc` writes
/// it, without structured data, and the two bytes that end a line.
pub fn standard_error_line(
    rfc: &SyslogRfc,
    time: Timestamp,
    priority: Priority,
    default_facility: Facility,
    platform: Platform,
    message: &str,
) -> (line: Vec<u8>)
    ensures
        line@ == rfc.rendering(
            time,
            facility_on_standard_error(priority, default_facility, platform).canonical(),
            severity_in(priority),
            Seq::empty(),
            message@,
        ) + seq![CARRIAGE_RETURN, LINE_FEED],
{
    let nothing: StructuredData = StructuredData::new();
    let facility: Facility = chosen_facility(priority, default_facility, platform);
    let mut line: Vec<u8> = rfc.write(
        time,
        facility.toRfc3164Facility(),
        priority.severity(),
        &nothing,
        message,
    );
    line.push(CARRIAGE_RETURN);
    line.push(LINE_FEED);
    line
}

} // verus!
