use vstd::prelude::*;

verus! {

/// The platform differences that this library acts on, as data.
#[derive(Debug, Clone, Copy, PartialEq, Eq, Structural)]
pub enum Platform {
    /// Linux, Windows, and every other platform that is not named here.
    Common,
    /// Solaris, which has neither `LOG_AUTHPRIV` nor `LOG_FTP` as a local facility,
    /// and whose logger cannot copy messages to standard error.
    Solaris,
    /// Android, whose logger honours no option but `LOG_PID`.
    Android,
    /// FreeBSD and DragonFly BSD, which have `LOG_NTP`, `LOG_SECURITY` and
    /// `LOG_CONSOLE` besides.
    FreeBsd,
    /// Mac OS X, which has `LOG_NETINFO`, `LOG_REMOTEAUTH`, `LOG_INSTALL`, `LOG_RAS` and
    /// `LOG_LAUNCHD` besides.
    MacOs,
}

impl Platform {
    /// Whether `LOG_AUTHPRIV` and `LOG_FTP` exist as local facilities.
    pub open spec fn has_authpriv_and_ftp(self) -> bool {
        self != Platform::Solaris
    }
}

} // verus!
