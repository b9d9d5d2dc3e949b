use vstd::prelude::*;
use crate::facility::Facility;
use crate::log_mask::LogMask;
use crate::priority::lemma_priority_bits;
use crate::priority::priority_of;
use crate::priority::Priority;
use crate::syslogSenders::Rfc3164Facility;

verus! {

/// How urgent a message is, most urgent first.
#[derive(Debug, Clone, Copy, PartialEq, Eq, Structural)]
pub enum Severity {
    LOG_EMERG,
    LOG_ALERT,
    LOG_CRIT,
    LOG_ERR,
    LOG_WARNING,
    LOG_NOTICE,
    LOG_INFO,
    LOG_DEBUG,
}

/// The severity whose numeric value is `value`, for `value` from 0 to 7.
pub open spec fn severity_of(value: int) -> Severity {
    if value == 0 {
        Severity::LOG_EMERG
    } else if value == 1 {
        Severity::LOG_ALERT
    } else if value == 2 {
        Severity::LOG_CRIT
    } else if value == 3 {
        Severity::LOG_ERR
    } else if value == 4 {
        Severity::LOG_WARNING
    } else if value == 5 {
        Severity::LOG_NOTICE
    } else if value == 6 {
        Severity::LOG_INFO
    } else {
        Severity::LOG_DEBUG
    }
}

/// The bit that stands for the severity whose value is `value`.
pub open spec fn mask_bit(value: i32) -> LogMask {
    1i32 << (value as u32)
}

/// Every bit from that of an emergency up to that of the severity whose value is `value`.
pub open spec fn mask_bits_up_to(value: i32) -> LogMask {
    ((1i32 << ((value + 1) as u32)) - 1) as i32
}

/// Whether `mask` lets a message of the given severity through.
pub open spec fn mask_admits(mask: LogMask, severity: Severity) -> bool {
    mask & mask_bit(severity.spec_value()) != 0
}

impl Severity {
    /// The numeric value, from 0 for an emergency to 7 for debugging.
    pub open spec fn spec_value(self) -> i32 {
        match self {
            Severity::LOG_EMERG => 0,
            Severity::LOG_ALERT => 1,
            Severity::LOG_CRIT => 2,
            Severity::LOG_ERR => 3,
            Severity::LOG_WARNING => 4,
            Severity::LOG_NOTICE => 5,
            Severity::LOG_INFO => 6,
            Severity::LOG_DEBUG => 7,
        }
    }

    #[verifier::when_used_as_spec(spec_value)]
    pub fn value(self) -> (v: i32)
        ensures
            v == self.spec_value(),
            0 <= v <= 7,
    {
        match self {
            Severity::LOG_EMERG => 0,
            Severity::LOG_ALERT => 1,
            Severity::LOG_CRIT => 2,
            Severity::LOG_ERR => 3,
            Severity::LOG_WARNING => 4,
            Severity::LOG_NOTICE => 5,
            Severity::LOG_INFO => 6,
            Severity::LOG_DEBUG => 7,
        }
    }

    /// The position of this severity's bit in a mask.
    fn shift(self) -> (s: u32)
        ensures
            s == self.spec_value(),
            s <= 7,
    {
        match self {
            Severity::LOG_EMERG => 0,
            Severity::LOG_ALERT => 1,
            Severity::LOG_CRIT => 2,
            Severity::LOG_ERR => 3,
            Severity::LOG_WARNING => 4,
            Severity::LOG_NOTICE => 5,
            Severity::LOG_INFO => 6,
            Severity::LOG_DEBUG => 7,
        }
    }

    /// The priority of a message of this severity that names no facility: the local
    /// logger then takes the facility that the log was opened with.
    pub fn toPriorityForCurrentLoggingFacility(self) -> (priority: Priority)
        ensures
            priority == self.spec_value(),
    {
        self.value()
    }

    /// The priority of a message of this severity and the given facility.
    pub fn toPriority(self, facility: Facility) -> (priority: Priority)
        ensures
            priority == priority_of(facility.spec_value(), self.spec_value()),
            priority == facility.spec_code() * 8 + self.spec_value(),
    {
        proof {
            lemma_priority_bits(facility.spec_code(), self.spec_value());
        }
        facility.value() | self.value()
    }

    /// The priority, as it goes on the wire, of a message of this severity and the given
    /// canonical facility.
    pub fn toPriorityRfc3164(self, rfc3164Facility: Rfc3164Facility) -> (priority: Priority)
        ensures
            priority == priority_of(rfc3164Facility.spec_value(), self.spec_value()),
            priority == rfc3164Facility.spec_code() * 8 + self.spec_value(),
            0 <= priority <= 191,
    {
        proof {
            lemma_priority_bits(rfc3164Facility.spec_code(), self.spec_value());
        }
        rfc3164Facility.value() | self.value()
    }

    /// The mask that lets messages of this severity through, and no others.
    pub fn mask(self) -> (mask: LogMask)
        ensures
            mask == mask_bit(self.spec_value()),
            forall|severity: Severity| mask_admits(mask, severity) <==> severity == self,
    {
        LOG_MASK(self)
    }

    /// The mask that lets through every message at least as urgent as this severity: for
    /// `LOG_ERR`, those of `LOG_EMERG`, `LOG_ALERT`, `LOG_CRIT` and `LOG_ERR`.
    pub fn mask_upto(self) -> (mask: LogMask)
        ensures
            mask == mask_bits_up_to(self.spec_value()),
            forall|severity: Severity|
                mask_admits(mask, severity) <==> severity.spec_value() <= self.spec_value(),
    {
        LOG_UPTO(self)
    }

    /// The mask that lets through every message but those of this severity.
    pub fn mask_all_but_self(self) -> (mask: LogMask)
        ensures
            mask == !mask_bit(self.spec_value()),
            forall|severity: Severity| mask_admits(mask, severity) <==> severity != self,
    {
        let own: LogMask = self.mask();
        proof {
            assert forall|severity: Severity| mask_admits(!own, severity) <==> severity
                != self by {
                lemma_single_bits(self.spec_value() as u32, severity.spec_value() as u32);
            }
        }
        !own
    }

    /// The mask that lets through the messages of this severity and those of `other`.
    pub fn mask_and(self, other: Severity) -> (mask: LogMask)
        ensures
            mask == mask_bit(self.spec_value()) | mask_bit(other.spec_value()),
            forall|severity: Severity|
                mask_admits(mask, severity) <==> (severity == self || severity == other),
    {
        let own: LogMask = self.mask();
        let others: LogMask = other.mask();
        proof {
            assert forall|severity: Severity|
                mask_admits(own | others, severity) <==> (severity == self || severity
                    == other) by {
                lemma_two_bits(
                    self.spec_value() as u32,
                    other.spec_value() as u32,
                    severity.spec_value() as u32,
                );
            }
        }
        own | others
    }
}

/// The mask of the one severity `pri`.
pub fn LOG_MASK(pri: Severity) -> (mask: LogMask)
    ensures
        mask == mask_bit(pri.spec_value()),
        0 < mask <= 128,
        forall|severity: Severity| mask_admits(mask, severity) <==> severity == pri,
{
    let shift: u32 = pri.shift();
    proof {
        lemma_single_bits(shift, shift);
        assert forall|severity: Severity| mask_admits(mask_bit(pri.spec_value()), severity)
            <==> severity == pri by {
            lemma_single_bits(shift, severity.spec_value() as u32);
        }
    }
    1i32 << shift
}

/// The mask of every severity from an emergency to `toppri`.
pub fn LOG_UPTO(toppri: Severity) -> (mask: LogMask)
    ensures
        mask == mask_bits_up_to(toppri.spec_value()),
        0 < mask <= 255,
        forall|severity: Severity|
            mask_admits(mask, severity) <==> severity.spec_value() <= toppri.spec_value(),
{
    let top: u32 = toppri.shift() + 1;
    proof {
        lemma_low_bits(top, 0);
        assert forall|severity: Severity|
            mask_admits(mask_bits_up_to(toppri.spec_value()), severity) <==> severity.spec_value()
                <= toppri.spec_value() by {
            lemma_low_bits(top, severity.spec_value() as u32);
        }
    }
    (1i32 << top) - 1
}

/// Which bits the mask of one severity holds, and which all the others.
proof fn lemma_single_bits(a: u32, b: u32)
    by (bit_vector)
    requires
        a <= 7,
        b <= 7,
    ensures
        0 < (1i32 << a) <= 128,
        (1i32 << a) & (1i32 << b) != 0 <==> a == b,
        !(1i32 << a) & (1i32 << b) != 0 <==> a != b,
{
}

/// Which bits the mask of two severities holds.
proof fn lemma_two_bits(a: u32, b: u32, c: u32)
    by (bit_vector)
    requires
        a <= 7,
        b <= 7,
        c <= 7,
    ensures
        ((1i32 << a) | (1i32 << b)) & (1i32 << c) != 0 <==> (c == a || c == b),
{
}

/// Which bits the mask of the severities up to one holds.
proof fn lemma_low_bits(top: u32, b: u32)
    by (bit_vector)
    requires
        1 <= top <= 8,
        b <= 7,
    ensures
        2 <= (1i32 << top) <= 256,
        ((1i32 << top) - 1) as i32 & (1i32 << b) != 0 <==> b < top,
{
}

} // verus!
