use vstd::prelude::*;
use crate::platform::Platform;

verus! {

/// Log the id of the process with each message.
pub const LOG_PID: i32 = 0x01;

/// Write to the system console where the message cannot be handed to the logger.
pub const LOG_CONS: i32 = 0x02;

/// Open the connection to the logger when the first message is logged.
pub const LOG_ODELAY: i32 = 0x04;

/// Open the connection to the logger at once.
pub const LOG_NDELAY: i32 = 0x08;

/// Do not wait for the child processes that logging may have made.
pub const LOG_NOWAIT: i32 = 0x10;

/// Log to standard error as well. Solaris has no such option.
pub const LOG_PERROR: i32 = 0x20;

/// Every option.
pub const ALL_LOG_OPTIONS: i32 = 0x3f;

/// How the log is opened: a set of options, one bit for each.
#[derive(Debug, Clone, Copy, PartialEq, Eq)]
pub struct LogOptions {
    bits: i32,
}

/// What the bits of options are, and are not.
proof fn lemma_option_bits(bits: i32, flags: i32)
    by (bit_vector)
    requires
        bits & !0x3fi32 == 0,
    ensures
        (bits | (flags & 0x3fi32)) & !0x3fi32 == 0,
        (bits & !flags) & !0x3fi32 == 0,
        (bits | (flags & 0x3fi32)) & (flags & 0x3fi32) == flags & 0x3fi32,
        (bits & !flags) & flags == 0,
{
}

/// The bits of the options that the library itself makes sets of.
proof fn lemma_known_bits(flags: i32)
    by (bit_vector)
    ensures
        (flags & 0x3fi32) & !0x3fi32 == 0,
        0i32 & !0x3fi32 == 0,
        0x0bi32 & !0x3fi32 == 0,
        0x01i32 & !0x3fi32 == 0,
        0x02i32 | 0x08i32 | 0x01i32 == 0x0bi32,
        0x20i32 & 0x3fi32 == 0x20i32,
{
}

impl LogOptions {
    #[verifier::type_invariant]
    spec fn only_options(&self) -> bool {
        self.bits & !ALL_LOG_OPTIONS == 0
    }

    /// The options as bits, for the local logger.
    pub closed spec fn spec_bits(&self) -> i32 {
        self.bits
    }

    /// Whether every one of `flags` is among the options.
    pub open spec fn spec_contains(&self, flags: i32) -> bool {
        self.spec_bits() & flags == flags
    }

    /// The options that the platform's log is opened with, unless the caller says
    /// otherwise: `LOG_CONS`, `LOG_NDELAY` and `LOG_PID`; on Android, whose logger
    /// knows no other, `LOG_PID` alone.
    pub open spec fn default_bits(platform: Platform) -> i32 {
        if platform == Platform::Android {
            LOG_PID
        } else {
            LOG_CONS | LOG_NDELAY | LOG_PID
        }
    }

    /// No option.
    pub fn empty() -> (options: LogOptions)
        ensures
            options.spec_bits() == 0,
    {
        proof {
            lemma_known_bits(0);
        }
        LogOptions { bits: 0 }
    }

    /// The options among `bits`; a bit that stands for no option is dropped.
    pub fn from_bits_truncate(bits: i32) -> (options: LogOptions)
        ensures
            options.spec_bits() == bits & ALL_LOG_OPTIONS,
    {
        proof {
            lemma_known_bits(bits);
        }
        LogOptions { bits: bits & ALL_LOG_OPTIONS }
    }

    pub fn default_for(platform: Platform) -> (options: LogOptions)
        ensures
            options.spec_bits() == Self::default_bits(platform),
    {
        proof {
            lemma_known_bits(0);
        }
        match platform {
            Platform::Android => LogOptions { bits: LOG_PID },
            _ => LogOptions { bits: LOG_CONS | LOG_NDELAY | LOG_PID },
        }
    }

    #[verifier::when_used_as_spec(spec_bits)]
    pub fn bits(&self) -> (bits: i32)
        ensures
            bits == self.spec_bits(),
            bits & !ALL_LOG_OPTIONS == 0,
    {
        proof {
            use_type_invariant(self);
        }
        self.bits
    }

    #[verifier::when_used_as_spec(spec_contains)]
    pub fn contains(&self, flags: i32) -> (contained: bool)
        ensures
            contained == self.spec_contains(flags),
    {
        self.bits & flags == flags
    }

    /// Adds the options among `flags`.
    pub fn insert(&mut self, flags: i32)
        ensures
            final(self).spec_bits() == old(self).spec_bits() | (flags & ALL_LOG_OPTIONS),
            final(self).spec_contains(flags & ALL_LOG_OPTIONS),
    {
        proof {
            use_type_invariant(&*self);
            lemma_option_bits(self.bits, flags);
        }
        self.bits = self.bits | (flags & ALL_LOG_OPTIONS);
    }

    /// Takes away the options among `flags`.
    pub fn remove(&mut self, flags: i32)
        ensures
            final(self).spec_bits() == old(self).spec_bits() & !flags,
            final(self).spec_bits() & flags == 0,
    {
        proof {
            use_type_invariant(&*self);
            lemma_option_bits(self.bits, flags);
        }
        self.bits = self.bits & !flags;
    }

    /// Takes away every option.
    pub fn clear(&mut self)
        ensures
            final(self).spec_bits() == 0,
    {
        proof {
            lemma_known_bits(0);
        }
        self.bits = 0;
    }

    /// Has messages logged to standard error as well, or not. Solaris has no such
    /// option: there it is not to be asked for.
    pub fn logToStandardErrorAsWell(&mut self, yes: bool)
        ensures
            final(self).spec_bits() == (if yes {
                old(self).spec_bits() | LOG_PERROR
            } else {
                old(self).spec_bits() & !LOG_PERROR
            }),
            final(self).spec_contains(LOG_PERROR) == yes,
    {
        proof {
            lemma_perror_bit(self.bits);
        }
        if yes {
            self.insert(LOG_PERROR);
        } else {
            self.remove(LOG_PERROR);
        }
    }
}

/// Whether a set of options holds the option to log to standard error as well, after
/// that option was added to it or taken away from it.
proof fn lemma_perror_bit(bits: i32)
    by (bit_vector)
    ensures
        (bits | 0x20i32) & 0x20i32 == 0x20i32,
        (bits & !0x20i32) & 0x20i32 != 0x20i32,
        bits | (0x20i32 & 0x3fi32) == bits | 0x20i32,
{
}

impl Default for LogOptions {
    /// `LOG_CONS`, `LOG_NDELAY` and `LOG_PID`.
    fn default() -> (options: LogOptions)
        ensures
            options.spec_bits() == LOG_CONS | LOG_NDELAY | LOG_PID,
    {
        proof {
            lemma_known_bits(0);
        }
        LogOptions { bits: LOG_CONS | LOG_NDELAY | LOG_PID }
    }
}

} // verus!
