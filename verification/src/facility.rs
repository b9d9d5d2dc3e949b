use vstd::prelude::*;
use crate::platform::Platform;
use crate::priority::priority_of;
use crate::priority::Priority;
use crate::severity::Severity;
use crate::syslogSenders::Rfc3164Facility;

verus! {

/// How many facility codes there are on every platform but Mac OS X, which has one
/// more: the codes run from 0 to one less than this.
pub const LOG_NFACILITIES: i32 = 24;

/// The part of the system that a message comes from, as the local logger knows it.
///
/// Not every facility exists on every platform. `LOG_AUTHPRIV` and `LOG_FTP` are
/// not available on Solaris. `LOG_NTP`, `LOG_SECURITY` and `LOG_CONSOLE` are only
/// available on FreeBSD and DragonFly BSD; `LOG_NETINFO`, `LOG_REMOTEAUTH`,
/// `LOG_INSTALL`, `LOG_RAS` and `LOG_LAUNCHD` only on Mac OS X.
#[derive(Debug, Clone, Copy, PartialEq, Eq, Structural)]
pub enum Facility {
    /// Do not use this value when logging a single message, as the local logger ignores
    /// it there: open the log with it as the default facility, and log with a severity alone.
    LOG_KERN,
    LOG_USER,
    LOG_MAIL,
    LOG_DAEMON,
    LOG_AUTH,
    LOG_SYSLOG,
    LOG_LPR,
    LOG_NEWS,
    LOG_UUCP,
    LOG_CRON,
    LOG_AUTHPRIV,
    LOG_FTP,
    LOG_NTP,
    LOG_SECURITY,
    LOG_CONSOLE,
    LOG_NETINFO,
    LOG_REMOTEAUTH,
    LOG_INSTALL,
    LOG_RAS,
    LOG_LOCAL0,
    LOG_LOCAL1,
    LOG_LOCAL2,
    LOG_LOCAL3,
    LOG_LOCAL4,
    LOG_LOCAL5,
    LOG_LOCAL6,
    LOG_LOCAL7,
    LOG_LAUNCHD,
}

/// The facility that the code `code` stands for on the given platform, if it stands
/// for one there. The codes 12 to 15 and 24 mean different things on different
/// platforms, and nothing on most.
pub open spec fn facility_of_code(code: int, platform: Platform) -> Option<Facility> {
    if code == 0 {
        Some(Facility::LOG_KERN)
    } else if code == 1 {
        Some(Facility::LOG_USER)
    } else if code == 2 {
        Some(Facility::LOG_MAIL)
    } else if code == 3 {
        Some(Facility::LOG_DAEMON)
    } else if code == 4 {
        Some(Facility::LOG_AUTH)
    } else if code == 5 {
        Some(Facility::LOG_SYSLOG)
    } else if code == 6 {
        Some(Facility::LOG_LPR)
    } else if code == 7 {
        Some(Facility::LOG_NEWS)
    } else if code == 8 {
        Some(Facility::LOG_UUCP)
    } else if code == 9 {
        Some(Facility::LOG_CRON)
    } else if code == 10 && platform.has_authpriv_and_ftp() {
        Some(Facility::LOG_AUTHPRIV)
    } else if code == 11 && platform.has_authpriv_and_ftp() {
        Some(Facility::LOG_FTP)
    } else if code == 12 && platform == Platform::FreeBsd {
        Some(Facility::LOG_NTP)
    } else if code == 13 && platform == Platform::FreeBsd {
        Some(Facility::LOG_SECURITY)
    } else if code == 14 && platform == Platform::FreeBsd {
        Some(Facility::LOG_CONSOLE)
    } else if code == 12 && platform == Platform::MacOs {
        Some(Facility::LOG_NETINFO)
    } else if code == 13 && platform == Platform::MacOs {
        Some(Facility::LOG_REMOTEAUTH)
    } else if code == 14 && platform == Platform::MacOs {
        Some(Facility::LOG_INSTALL)
    } else if code == 15 && platform == Platform::MacOs {
        Some(Facility::LOG_RAS)
    } else if code == 16 {
        Some(Facility::LOG_LOCAL0)
    } else if code == 17 {
        Some(Facility::LOG_LOCAL1)
    } else if code == 18 {
        Some(Facility::LOG_LOCAL2)
    } else if code == 19 {
        Some(Facility::LOG_LOCAL3)
    } else if code == 20 {
        Some(Facility::LOG_LOCAL4)
    } else if code == 21 {
        Some(Facility::LOG_LOCAL5)
    } else if code == 22 {
        Some(Facility::LOG_LOCAL6)
    } else if code == 23 {
        Some(Facility::LOG_LOCAL7)
    } else if code == 24 && platform == Platform::MacOs {
        Some(Facility::LOG_LAUNCHD)
    } else {
        None
    }
}

impl Facility {
    /// The facility's code: 0 to 11 for the facilities that platforms share, 16 to 23
    /// for the local ones, and a code from 12 to 15, or 24, for a facility that one
    /// platform has alone.
    pub open spec fn spec_code(self) -> i32 {
        match self {
            Facility::LOG_KERN => 0,
            Facility::LOG_USER => 1,
            Facility::LOG_MAIL => 2,
            Facility::LOG_DAEMON => 3,
            Facility::LOG_AUTH => 4,
            Facility::LOG_SYSLOG => 5,
            Facility::LOG_LPR => 6,
            Facility::LOG_NEWS => 7,
            Facility::LOG_UUCP => 8,
            Facility::LOG_CRON => 9,
            Facility::LOG_AUTHPRIV => 10,
            Facility::LOG_FTP => 11,
            Facility::LOG_NTP => 12,
            Facility::LOG_SECURITY => 13,
            Facility::LOG_CONSOLE => 14,
            Facility::LOG_NETINFO => 12,
            Facility::LOG_REMOTEAUTH => 13,
            Facility::LOG_INSTALL => 14,
            Facility::LOG_RAS => 15,
            Facility::LOG_LOCAL0 => 16,
            Facility::LOG_LOCAL1 => 17,
            Facility::LOG_LOCAL2 => 18,
            Facility::LOG_LOCAL3 => 19,
            Facility::LOG_LOCAL4 => 20,
            Facility::LOG_LOCAL5 => 21,
            Facility::LOG_LOCAL6 => 22,
            Facility::LOG_LOCAL7 => 23,
            Facility::LOG_LAUNCHD => 24,
        }
    }

    /// The numeric value of the facility: the code, moved past the three bits of a
    /// severity. It is the value that the local logger takes, but for `LOG_CRON` on
    /// Solaris, which numbers it otherwise.
    pub open spec fn spec_value(self) -> i32 {
        (self.spec_code() * 8) as i32
    }

    /// Whether the platform's local logger knows this facility.
    pub open spec fn exists_on(self, platform: Platform) -> bool {
        match self {
            Facility::LOG_AUTHPRIV | Facility::LOG_FTP => platform.has_authpriv_and_ftp(),
            Facility::LOG_NTP | Facility::LOG_SECURITY | Facility::LOG_CONSOLE => platform
                == Platform::FreeBsd,
            Facility::LOG_NETINFO
            | Facility::LOG_REMOTEAUTH
            | Facility::LOG_INSTALL
            | Facility::LOG_RAS
            | Facility::LOG_LAUNCHD => platform == Platform::MacOs,
            _ => true,
        }
    }

    /// The facility for messages about authentication on the given platform.
    pub open spec fn best_authentication_facility(platform: Platform) -> Facility {
        if platform.has_authpriv_and_ftp() {
            Facility::LOG_AUTHPRIV
        } else {
            Facility::LOG_AUTH
        }
    }

    /// The canonical facility that this one is sent under. Every facility has exactly
    /// one, and some share theirs:
    ///
    /// - `LOG_CRON` is sent as `clock`;
    /// - of FreeBSD and DragonFly BSD, `LOG_NTP` is sent as `daemon`, and `LOG_SECURITY`
    ///   and `LOG_CONSOLE` as `authpriv`, so that they are handled as securely;
    /// - of Mac OS X, `LOG_NETINFO` and `LOG_LAUNCHD` are sent as `daemon`, and
    ///   `LOG_REMOTEAUTH`, `LOG_INSTALL` and `LOG_RAS`, which may hold what is private,
    ///   as `authpriv`.
    ///
    /// The codes 12 to 15 and those above 23 are never sent.
    pub open spec fn canonical(self) -> Rfc3164Facility {
        match self {
            Facility::LOG_KERN => Rfc3164Facility::kern,
            Facility::LOG_USER => Rfc3164Facility::user,
            Facility::LOG_MAIL => Rfc3164Facility::mail,
            Facility::LOG_DAEMON => Rfc3164Facility::daemon,
            Facility::LOG_AUTH => Rfc3164Facility::auth,
            Facility::LOG_SYSLOG => Rfc3164Facility::syslog2,
            Facility::LOG_LPR => Rfc3164Facility::lpr,
            Facility::LOG_NEWS => Rfc3164Facility::news,
            Facility::LOG_UUCP => Rfc3164Facility::uucp,
            Facility::LOG_CRON => Rfc3164Facility::clock,
            Facility::LOG_AUTHPRIV => Rfc3164Facility::authpriv,
            Facility::LOG_FTP => Rfc3164Facility::ftp,
            Facility::LOG_NTP => Rfc3164Facility::daemon,
            Facility::LOG_SECURITY => Rfc3164Facility::authpriv,
            Facility::LOG_CONSOLE => Rfc3164Facility::authpriv,
            Facility::LOG_NETINFO => Rfc3164Facility::daemon,
            Facility::LOG_REMOTEAUTH => Rfc3164Facility::authpriv,
            Facility::LOG_INSTALL => Rfc3164Facility::authpriv,
            Facility::LOG_RAS => Rfc3164Facility::authpriv,
            Facility::LOG_LOCAL0 => Rfc3164Facility::local0,
            Facility::LOG_LOCAL1 => Rfc3164Facility::local1,
            Facility::LOG_LOCAL2 => Rfc3164Facility::local2,
            Facility::LOG_LOCAL3 => Rfc3164Facility::local3,
            Facility::LOG_LOCAL4 => Rfc3164Facility::local4,
            Facility::LOG_LOCAL5 => Rfc3164Facility::local5,
            Facility::LOG_LOCAL6 => Rfc3164Facility::local6,
            Facility::LOG_LOCAL7 => Rfc3164Facility::local7,
            Facility::LOG_LAUNCHD => Rfc3164Facility::daemon,
        }
    }

    /// What the canonical facility made of this one maps back to: this facility itself,
    /// unless it shares its canonical facility with the one that gives that its name.
    /// So `LOG_NTP`, `LOG_NETINFO` and `LOG_LAUNCHD` come back as `LOG_DAEMON`, and
    /// `LOG_SECURITY`, `LOG_CONSOLE`, `LOG_REMOTEAUTH`, `LOG_INSTALL` and `LOG_RAS` as
    /// `LOG_AUTHPRIV`, the facility for authentication of the platforms that have them.
    pub open spec fn after_round_trip(self) -> Facility {
        match self {
            Facility::LOG_NTP | Facility::LOG_NETINFO | Facility::LOG_LAUNCHD => Facility::LOG_DAEMON,
            Facility::LOG_SECURITY
            | Facility::LOG_CONSOLE
            | Facility::LOG_REMOTEAUTH
            | Facility::LOG_INSTALL
            | Facility::LOG_RAS => Facility::LOG_AUTHPRIV,
            _ => self,
        }
    }

    #[verifier::when_used_as_spec(spec_code)]
    pub fn code(self) -> (c: i32)
        ensures
            c == self.spec_code(),
            0 <= c <= LOG_NFACILITIES,
    {
        match self {
            Facility::LOG_KERN => 0,
            Facility::LOG_USER => 1,
            Facility::LOG_MAIL => 2,
            Facility::LOG_DAEMON => 3,
            Facility::LOG_AUTH => 4,
            Facility::LOG_SYSLOG => 5,
            Facility::LOG_LPR => 6,
            Facility::LOG_NEWS => 7,
            Facility::LOG_UUCP => 8,
            Facility::LOG_CRON => 9,
            Facility::LOG_AUTHPRIV => 10,
            Facility::LOG_FTP => 11,
            Facility::LOG_NTP => 12,
            Facility::LOG_SECURITY => 13,
            Facility::LOG_CONSOLE => 14,
            Facility::LOG_NETINFO => 12,
            Facility::LOG_REMOTEAUTH => 13,
            Facility::LOG_INSTALL => 14,
            Facility::LOG_RAS => 15,
            Facility::LOG_LOCAL0 => 16,
            Facility::LOG_LOCAL1 => 17,
            Facility::LOG_LOCAL2 => 18,
            Facility::LOG_LOCAL3 => 19,
            Facility::LOG_LOCAL4 => 20,
            Facility::LOG_LOCAL5 => 21,
            Facility::LOG_LOCAL6 => 22,
            Facility::LOG_LOCAL7 => 23,
            Facility::LOG_LAUNCHD => 24,
        }
    }

    #[verifier::when_used_as_spec(spec_value)]
    pub fn value(self) -> (v: i32)
        ensures
            v == self.spec_value(),
            v == self.spec_code() * 8,
    {
        self.code() * 8
    }

    /// Whether the platform's local logger knows this facility.
    #[verifier::when_used_as_spec(exists_on)]
    pub fn is_available_on(self, platform: Platform) -> (available: bool)
        ensures
            available == self.exists_on(platform),
    {
        match self {
            Facility::LOG_AUTHPRIV | Facility::LOG_FTP => match platform {
                Platform::Solaris => false,
                _ => true,
            },
            Facility::LOG_NTP | Facility::LOG_SECURITY | Facility::LOG_CONSOLE => match platform {
                Platform::FreeBsd => true,
                _ => false,
            },
            Facility::LOG_NETINFO
            | Facility::LOG_REMOTEAUTH
            | Facility::LOG_INSTALL
            | Facility::LOG_RAS
            | Facility::LOG_LAUNCHD => match platform {
                Platform::MacOs => true,
                _ => false,
            },
            _ => true,
        }
    }

    /// The priority of a message of this facility and the given severity.
    pub fn toPriority(self, severity: Severity) -> (priority: Priority)
        ensures
            priority == priority_of(self.spec_value(), severity.spec_value()),
            priority == self.spec_code() * 8 + severity.spec_value(),
    {
        severity.toPriority(self)
    }

    /// The facility for messages about authentication: `LOG_AUTHPRIV`, except on
    /// Solaris, which lacks it, where it is `LOG_AUTH`.
    pub fn bestAuthenticationFacilityForPlatform(platform: Platform) -> (facility: Facility)
        ensures
            facility == Self::best_authentication_facility(platform),
            facility.exists_on(platform),
    {
        match platform {
            Platform::Solaris => Facility::LOG_AUTH,
            _ => Facility::LOG_AUTHPRIV,
        }
    }

    #[verifier::when_used_as_spec(canonical)]
    pub fn toRfc3164Facility(self) -> (canonical: Rfc3164Facility)
        ensures
            canonical == self.canonical(),
    {
        match self {
            Facility::LOG_KERN => Rfc3164Facility::kern,
            Facility::LOG_USER => Rfc3164Facility::user,
            Facility::LOG_MAIL => Rfc3164Facility::mail,
            Facility::LOG_DAEMON => Rfc3164Facility::daemon,
            Facility::LOG_AUTH => Rfc3164Facility::auth,
            Facility::LOG_SYSLOG => Rfc3164Facility::syslog2,
            Facility::LOG_LPR => Rfc3164Facility::lpr,
            Facility::LOG_NEWS => Rfc3164Facility::news,
            Facility::LOG_UUCP => Rfc3164Facility::uucp,
            Facility::LOG_CRON => Rfc3164Facility::clock,
            Facility::LOG_AUTHPRIV => Rfc3164Facility::authpriv,
            Facility::LOG_FTP => Rfc3164Facility::ftp,
            Facility::LOG_NTP => Rfc3164Facility::daemon,
            Facility::LOG_SECURITY => Rfc3164Facility::authpriv,
            Facility::LOG_CONSOLE => Rfc3164Facility::authpriv,
            Facility::LOG_NETINFO => Rfc3164Facility::daemon,
            Facility::LOG_REMOTEAUTH => Rfc3164Facility::authpriv,
            Facility::LOG_INSTALL => Rfc3164Facility::authpriv,
            Facility::LOG_RAS => Rfc3164Facility::authpriv,
            Facility::LOG_LOCAL0 => Rfc3164Facility::local0,
            Facility::LOG_LOCAL1 => Rfc3164Facility::local1,
            Facility::LOG_LOCAL2 => Rfc3164Facility::local2,
            Facility::LOG_LOCAL3 => Rfc3164Facility::local3,
            Facility::LOG_LOCAL4 => Rfc3164Facility::local4,
            Facility::LOG_LOCAL5 => Rfc3164Facility::local5,
            Facility::LOG_LOCAL6 => Rfc3164Facility::local6,
            Facility::LOG_LOCAL7 => Rfc3164Facility::local7,
            Facility::LOG_LAUNCHD => Rfc3164Facility::daemon,
        }
    }

    /// The facility under which the given platform logs what is meant for this one:
    /// this facility where the platform has it, and else the local facility of its
    /// canonical facility there, or `LOG_DAEMON` where that has none.
    pub open spec fn on_platform(self, platform: Platform) -> Facility {
        if self.exists_on(platform) {
            self
        } else {
            match self.canonical().native(platform) {
                Some(facility) => facility,
                None => Facility::LOG_DAEMON,
            }
        }
    }

    #[verifier::when_used_as_spec(on_platform)]
    pub fn onPlatform(self, platform: Platform) -> (facility: Facility)
        ensures
            facility == self.on_platform(platform),
            facility.exists_on(platform),
    {
        if self.is_available_on(platform) {
            self
        } else {
            self.toRfc3164Facility().toFacilityMappingSolarisToDaemon(platform)
        }
    }
}

/// On a platform, a code stands for a facility exactly if that facility exists there
/// and has that code: no two facilities of one platform share a code.
pub proof fn lemma_facility_of_code(facility: Facility, platform: Platform)
    ensures
        facility_of_code(facility.spec_code() as int, platform) == Some(facility)
            <==> facility.exists_on(platform),
        forall|code: int| #[trigger]
            facility_of_code(code, platform) == Some(facility) ==> code == facility.spec_code()
                && facility.exists_on(platform),
{
}

impl Default for Facility {
    /// `LOG_USER`, as in Musl libc.
    fn default() -> (facility: Facility)
        ensures
            facility == Facility::LOG_USER,
    {
        Facility::LOG_USER
    }
}

} // verus!
