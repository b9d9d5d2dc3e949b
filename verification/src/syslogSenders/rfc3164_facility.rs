use vstd::prelude::*;
use crate::facility::Facility;
use crate::platform::Platform;
use crate::priority::lemma_priority_bits;
use crate::priority::priority_of;
use crate::priority::severity_in;
use crate::priority::LOG_FACMASK;
use crate::severity::Severity;

verus! {

/// The facility numbering of the wire, which is the same on every platform.
///
/// `clock` is also known as cron, and is the standard for messages of cron and at.
/// The codes 12 to 15 and those above 23 mean different things on different platforms;
/// some stand for security messages. A message received with one of them is to be
/// handled as private: none of them is a value of this type.
#[derive(Debug, Clone, Copy, PartialEq, Eq, Structural)]
pub enum Rfc3164Facility {
    kern,
    user,
    mail,
    daemon,
    auth,
    syslog2,
    lpr,
    news,
    uucp,
    clock,
    authpriv,
    ftp,
    local0,
    local1,
    local2,
    local3,
    local4,
    local5,
    local6,
    local7,
}

impl Default for Rfc3164Facility {
    fn default() -> (facility: Rfc3164Facility)
        ensures
            facility == Rfc3164Facility::user,
    {
        Rfc3164Facility::user
    }
}

impl Rfc3164Facility {
    /// The code on the wire: 0 to 11 and 16 to 23.
    pub open spec fn spec_code(self) -> i32 {
        match self {
            Rfc3164Facility::kern => 0,
            Rfc3164Facility::user => 1,
            Rfc3164Facility::mail => 2,
            Rfc3164Facility::daemon => 3,
            Rfc3164Facility::auth => 4,
            Rfc3164Facility::syslog2 => 5,
            Rfc3164Facility::lpr => 6,
            Rfc3164Facility::news => 7,
            Rfc3164Facility::uucp => 8,
            Rfc3164Facility::clock => 9,
            Rfc3164Facility::authpriv => 10,
            Rfc3164Facility::ftp => 11,
            Rfc3164Facility::local0 => 16,
            Rfc3164Facility::local1 => 17,
            Rfc3164Facility::local2 => 18,
            Rfc3164Facility::local3 => 19,
            Rfc3164Facility::local4 => 20,
            Rfc3164Facility::local5 => 21,
            Rfc3164Facility::local6 => 22,
            Rfc3164Facility::local7 => 23,
        }
    }

    /// The code, moved past the three bits of a severity.
    pub open spec fn spec_value(self) -> i32 {
        (self.spec_code() * 8) as i32
    }

    /// Whether `wire` is the code of a canonical facility.
    pub open spec fn is_code(wire: int) -> bool {
        0 <= wire <= 11 || 16 <= wire <= 23
    }

    /// The local facility that stands for this one on the given platform, if it has one.
    pub open spec fn native(self, platform: Platform) -> Option<Facility> {
        match self {
            Rfc3164Facility::kern => Some(Facility::LOG_KERN),
            Rfc3164Facility::user => Some(Facility::LOG_USER),
            Rfc3164Facility::mail => Some(Facility::LOG_MAIL),
            Rfc3164Facility::daemon => Some(Facility::LOG_DAEMON),
            Rfc3164Facility::auth => Some(Facility::LOG_AUTH),
            Rfc3164Facility::syslog2 => Some(Facility::LOG_SYSLOG),
            Rfc3164Facility::lpr => Some(Facility::LOG_LPR),
            Rfc3164Facility::news => Some(Facility::LOG_NEWS),
            Rfc3164Facility::uucp => Some(Facility::LOG_UUCP),
            Rfc3164Facility::clock => Some(Facility::LOG_CRON),
            Rfc3164Facility::authpriv => Some(Facility::best_authentication_facility(platform)),
            Rfc3164Facility::ftp => if platform.has_authpriv_and_ftp() {
                Some(Facility::LOG_FTP)
            } else {
                None
            },
            Rfc3164Facility::local0 => Some(Facility::LOG_LOCAL0),
            Rfc3164Facility::local1 => Some(Facility::LOG_LOCAL1),
            Rfc3164Facility::local2 => Some(Facility::LOG_LOCAL2),
            Rfc3164Facility::local3 => Some(Facility::LOG_LOCAL3),
            Rfc3164Facility::local4 => Some(Facility::LOG_LOCAL4),
            Rfc3164Facility::local5 => Some(Facility::LOG_LOCAL5),
            Rfc3164Facility::local6 => Some(Facility::LOG_LOCAL6),
            Rfc3164Facility::local7 => Some(Facility::LOG_LOCAL7),
        }
    }

    #[verifier::when_used_as_spec(spec_code)]
    pub fn code(self) -> (c: i32)
        ensures
            c == self.spec_code(),
            Self::is_code(c as int),
    {
        match self {
            Rfc3164Facility::kern => 0,
            Rfc3164Facility::user => 1,
            Rfc3164Facility::mail => 2,
            Rfc3164Facility::daemon => 3,
            Rfc3164Facility::auth => 4,
            Rfc3164Facility::syslog2 => 5,
            Rfc3164Facility::lpr => 6,
            Rfc3164Facility::news => 7,
            Rfc3164Facility::uucp => 8,
            Rfc3164Facility::clock => 9,
            Rfc3164Facility::authpriv => 10,
            Rfc3164Facility::ftp => 11,
            Rfc3164Facility::local0 => 16,
            Rfc3164Facility::local1 => 17,
            Rfc3164Facility::local2 => 18,
            Rfc3164Facility::local3 => 19,
            Rfc3164Facility::local4 => 20,
            Rfc3164Facility::local5 => 21,
            Rfc3164Facility::local6 => 22,
            Rfc3164Facility::local7 => 23,
        }
    }

    #[verifier::when_used_as_spec(spec_value)]
    pub fn value(self) -> (v: i32)
        ensures
            v == self.spec_value(),
            v == self.spec_code() * 8,
    {
        self.code() * 8
    }

    /// Every canonical facility has a local one, apart from `ftp` on Solaris; `authpriv`
    /// is the platform's best facility for authentication.
    #[verifier::when_used_as_spec(native)]
    pub fn toFacilityAccommodatingSolaris(self, platform: Platform) -> (facility: Option<Facility>)
        ensures
            facility == self.native(platform),
            facility is None <==> (self == Rfc3164Facility::ftp && platform == Platform::Solaris),
            facility matches Some(f) ==> f.exists_on(platform),
    {
        match self {
            Rfc3164Facility::kern => Some(Facility::LOG_KERN),
            Rfc3164Facility::user => Some(Facility::LOG_USER),
            Rfc3164Facility::mail => Some(Facility::LOG_MAIL),
            Rfc3164Facility::daemon => Some(Facility::LOG_DAEMON),
            Rfc3164Facility::auth => Some(Facility::LOG_AUTH),
            Rfc3164Facility::syslog2 => Some(Facility::LOG_SYSLOG),
            Rfc3164Facility::lpr => Some(Facility::LOG_LPR),
            Rfc3164Facility::news => Some(Facility::LOG_NEWS),
            Rfc3164Facility::uucp => Some(Facility::LOG_UUCP),
            Rfc3164Facility::clock => Some(Facility::LOG_CRON),
            Rfc3164Facility::authpriv => Some(
                Facility::bestAuthenticationFacilityForPlatform(platform),
            ),
            Rfc3164Facility::ftp => {
                match platform {
                    Platform::Solaris => None,
                    _ => Some(Facility::LOG_FTP),
                }
            },
            Rfc3164Facility::local0 => Some(Facility::LOG_LOCAL0),
            Rfc3164Facility::local1 => Some(Facility::LOG_LOCAL1),
            Rfc3164Facility::local2 => Some(Facility::LOG_LOCAL2),
            Rfc3164Facility::local3 => Some(Facility::LOG_LOCAL3),
            Rfc3164Facility::local4 => Some(Facility::LOG_LOCAL4),
            Rfc3164Facility::local5 => Some(Facility::LOG_LOCAL5),
            Rfc3164Facility::local6 => Some(Facility::LOG_LOCAL6),
            Rfc3164Facility::local7 => Some(Facility::LOG_LOCAL7),
        }
    }

    /// The local facility for this one, or `fallback` where the platform has none.
    pub fn toFacilityOr(self, platform: Platform, fallback: Facility) -> (facility: Facility)
        ensures
            facility == (match self.native(platform) {
                Some(f) => f,
                None => fallback,
            }),
    {
        match self.toFacilityAccommodatingSolaris(platform) {
            Some(facility) => facility,
            None => fallback,
        }
    }

    /// The local facility for this one, or `LOG_DAEMON` where the platform has none.
    pub fn toFacilityMappingSolarisToDaemon(self, platform: Platform) -> (facility: Facility)
        ensures
            facility == (match self.native(platform) {
                Some(f) => f,
                None => Facility::LOG_DAEMON,
            }),
            facility.exists_on(platform),
    {
        self.toFacilityOr(platform, Facility::LOG_DAEMON)
    }

    /// The canonical facility with the code `wire`. A code from 12 to 15, or one above
    /// 23, or a negative one, is no facility's, and gives `None`: a message that carries
    /// it is to be handled as private.
    pub fn from(wire: i32) -> (facility: Option<Rfc3164Facility>)
        ensures
            facility is Some <==> Self::is_code(wire as int),
            facility matches Some(f) ==> f.spec_code() == wire,
    {
        match wire {
            0 => Some(Rfc3164Facility::kern),
            1 => Some(Rfc3164Facility::user),
            2 => Some(Rfc3164Facility::mail),
            3 => Some(Rfc3164Facility::daemon),
            4 => Some(Rfc3164Facility::auth),
            5 => Some(Rfc3164Facility::syslog2),
            6 => Some(Rfc3164Facility::lpr),
            7 => Some(Rfc3164Facility::news),
            8 => Some(Rfc3164Facility::uucp),
            9 => Some(Rfc3164Facility::clock),
            10 => Some(Rfc3164Facility::authpriv),
            11 => Some(Rfc3164Facility::ftp),
            16 => Some(Rfc3164Facility::local0),
            17 => Some(Rfc3164Facility::local1),
            18 => Some(Rfc3164Facility::local2),
            19 => Some(Rfc3164Facility::local3),
            20 => Some(Rfc3164Facility::local4),
            21 => Some(Rfc3164Facility::local5),
            22 => Some(Rfc3164Facility::local6),
            23 => Some(Rfc3164Facility::local7),
            _ => None,
        }
    }
}

/// Every local facility of a platform has a canonical facility, and that one maps back,
/// on that platform, to the facility it was made of; or, where the facility shares its
/// canonical facility with others, to the one among them that the canonical facility
/// is named after. What it maps back to exists on the platform.
pub proof fn lemma_canonical_facility_round_trip(facility: Facility, platform: Platform)
    requires
        facility.exists_on(platform),
    ensures
        facility.canonical().native(platform) == Some(facility.after_round_trip()),
        facility.after_round_trip().exists_on(platform),
        facility.after_round_trip().canonical() == facility.canonical(),
        facility.after_round_trip().after_round_trip() == facility.after_round_trip(),
        facility.after_round_trip() == facility || facility.after_round_trip()
            == Facility::LOG_DAEMON || facility.after_round_trip()
            == Facility::best_authentication_facility(platform),
{
}

/// Every canonical facility has a local one on a platform that has `LOG_AUTHPRIV` and
/// `LOG_FTP`, and that one is sent under the canonical facility that it stands for. On
/// a platform without them this holds of every canonical facility but `authpriv`,
/// whose messages are logged, and sent again, under `auth`, and `ftp`, which has no
/// local facility there.
pub proof fn lemma_native_facility_round_trip(canonical: Rfc3164Facility, platform: Platform)
    ensures
        platform.has_authpriv_and_ftp() || (canonical != Rfc3164Facility::authpriv && canonical
            != Rfc3164Facility::ftp) ==> canonical.native(platform) is Some
            && canonical.native(platform).unwrap().canonical() == canonical,
        !platform.has_authpriv_and_ftp() ==> Rfc3164Facility::authpriv.native(platform) == Some(
            Facility::LOG_AUTH,
        ) && Rfc3164Facility::ftp.native(platform) is None,
{
}

/// A priority on the wire gives back the code of the canonical facility, and the
/// severity, that it was made of; it is a number from 0 to 191.
pub proof fn lemma_wire_priority_round_trip(severity: Severity, facility: Rfc3164Facility)
    ensures
        ({
            let priority = priority_of(facility.spec_value(), severity.spec_value());
            &&& (priority & LOG_FACMASK) >> 3u32 == facility.spec_code()
            &&& severity_in(priority) == severity
            &&& priority == facility.spec_code() * 8 + severity.spec_value()
            &&& 0 <= priority <= 191
        }),
{
    lemma_priority_bits(facility.spec_code(), severity.spec_value());
}

} // verus!
