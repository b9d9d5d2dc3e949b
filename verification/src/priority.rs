use vstd::prelude::*;
use crate::facility::facility_of_code;
use crate::facility::Facility;
use crate::platform::Platform;
use crate::severity::severity_of;
use crate::severity::Severity;

verus! {

/// A facility and a severity in one number: the severity in the three lowest bits, the
/// facility's code in the bits above them.
pub type Priority = i32;

/// The bits of a priority that hold the severity.
pub const LOG_PRIMASK: i32 = 0x07;

/// The bits of a priority that hold the facility.
pub const LOG_FACMASK: i32 = 0x03f8;

/// The priority made of a facility's value and a severity's value.
pub open spec fn priority_of(facility_value: i32, severity_value: i32) -> Priority {
    facility_value | severity_value
}

/// The severity that a priority holds.
pub open spec fn severity_in(priority: Priority) -> Severity {
    severity_of((priority & LOG_PRIMASK) as int)
}

/// The facility that a priority holds on the given platform, if its facility bits are
/// the code of one there.
pub open spec fn facility_in(priority: Priority, platform: Platform) -> Option<Facility> {
    facility_of_code(((priority & LOG_FACMASK) >> 3u32) as int, platform)
}

/// What the bits of a priority made of a code and a severity are.
pub proof fn lemma_priority_bits(code: i32, severity_value: i32)
    by (bit_vector)
    requires
        0 <= code <= 127,
        0 <= severity_value <= 7,
    ensures
        ((code * 8) as i32 | severity_value) == code * 8 + severity_value,
        ((code * 8) as i32 | severity_value) & 0x07i32 == severity_value,
        (((code * 8) as i32 | severity_value) & 0x03f8i32) >> 3u32 == code,
{
}

/// The bounds of what a priority's bits decode to.
pub proof fn lemma_decoded_bounds(priority: i32)
    by (bit_vector)
    ensures
        0 <= priority & 0x07i32 <= 7,
        0 <= (priority & 0x03f8i32) >> 3u32 <= 127,
{
}

/// A priority gives back the facility and the severity that it was made of, on every
/// platform that has the facility.
pub proof fn lemma_priority_round_trip(severity: Severity, facility: Facility, platform: Platform)
    requires
        facility.exists_on(platform),
    ensures
        facility_in(priority_of(facility.spec_value(), severity.spec_value()), platform) == Some(
            facility,
        ),
        severity_in(priority_of(facility.spec_value(), severity.spec_value())) == severity,
        priority_of(facility.spec_value(), severity.spec_value()) == facility.spec_code() * 8
            + severity.spec_value(),
{
    lemma_priority_bits(facility.spec_code(), severity.spec_value());
}

pub trait PriorityTrait {
    /// The severity that the priority holds: every priority holds one.
    fn severity(self) -> Severity;

    /// The facility that the priority holds on the given platform, or `None` where its
    /// facility bits are the code of none there.
    fn facility(self, platform: Platform) -> Option<Facility>;
}

/// The severity in the three lowest bits of `p`.
fn LOG_PRI(p: Priority) -> (severity: Severity)
    ensures
        severity == severity_in(p),
        severity.spec_value() == p & LOG_PRIMASK,
{
    proof {
        lemma_decoded_bounds(p);
    }
    let bits: i32 = p & LOG_PRIMASK;
    match bits {
        0 => Severity::LOG_EMERG,
        1 => Severity::LOG_ALERT,
        2 => Severity::LOG_CRIT,
        3 => Severity::LOG_ERR,
        4 => Severity::LOG_WARNING,
        5 => Severity::LOG_NOTICE,
        6 => Severity::LOG_INFO,
        _ => Severity::LOG_DEBUG,
    }
}

/// The facility of the given platform whose code is in the facility bits of `p`.
fn LOG_FAC(p: Priority, platform: Platform) -> (facility: Option<Facility>)
    ensures
        facility == facility_in(p, platform),
        facility matches Some(f) ==> f.spec_code() == (p & LOG_FACMASK) >> 3u32 && f.exists_on(
            platform,
        ),
{
    let code: i32 = (p & LOG_FACMASK) >> 3u32;
    match code {
        0 => Some(Facility::LOG_KERN),
        1 => Some(Facility::LOG_USER),
        2 => Some(Facility::LOG_MAIL),
        3 => Some(Facility::LOG_DAEMON),
        4 => Some(Facility::LOG_AUTH),
        5 => Some(Facility::LOG_SYSLOG),
        6 => Some(Facility::LOG_LPR),
        7 => Some(Facility::LOG_NEWS),
        8 => Some(Facility::LOG_UUCP),
        9 => Some(Facility::LOG_CRON),
        10 => match platform {
            Platform::Solaris => None,
            _ => Some(Facility::LOG_AUTHPRIV),
        },
        11 => match platform {
            Platform::Solaris => None,
            _ => Some(Facility::LOG_FTP),
        },
        12 => match platform {
            Platform::FreeBsd => Some(Facility::LOG_NTP),
            Platform::MacOs => Some(Facility::LOG_NETINFO),
            _ => None,
        },
        13 => match platform {
            Platform::FreeBsd => Some(Facility::LOG_SECURITY),
            Platform::MacOs => Some(Facility::LOG_REMOTEAUTH),
            _ => None,
        },
        14 => match platform {
            Platform::FreeBsd => Some(Facility::LOG_CONSOLE),
            Platform::MacOs => Some(Facility::LOG_INSTALL),
            _ => None,
        },
        15 => match platform {
            Platform::MacOs => Some(Facility::LOG_RAS),
            _ => None,
        },
        16 => Some(Facility::LOG_LOCAL0),
        17 => Some(Facility::LOG_LOCAL1),
        18 => Some(Facility::LOG_LOCAL2),
        19 => Some(Facility::LOG_LOCAL3),
        20 => Some(Facility::LOG_LOCAL4),
        21 => Some(Facility::LOG_LOCAL5),
        22 => Some(Facility::LOG_LOCAL6),
        23 => Some(Facility::LOG_LOCAL7),
        24 => match platform {
            Platform::MacOs => Some(Facility::LOG_LAUNCHD),
            _ => None,
        },
        _ => None,
    }
}

impl PriorityTrait for Priority {
    fn severity(self) -> (severity: Severity)
        ensures
            severity == severity_in(self),
            severity.spec_value() == self & LOG_PRIMASK,
    {
        LOG_PRI(self)
    }

    fn facility(self, platform: Platform) -> (facility: Option<Facility>)
        ensures
            facility == facility_in(self, platform),
            facility matches Some(f) ==> f.spec_code() == (self & LOG_FACMASK) >> 3u32
                && f.exists_on(platform),
    {
        LOG_FAC(self, platform)
    }
}

} // verus!
