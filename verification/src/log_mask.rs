use vstd::prelude::*;
use crate::severity::mask_admits;
use crate::severity::mask_bit;
use crate::severity::Severity;

verus! {

/// A set of severities, one bit for each: the bit in place `n` stands for the severity
/// whose value is `n`. The local logger records a message if its mask holds the bit of
/// the message's severity, and drops it otherwise.
pub type LogMask = i32;

/// The mask that a log is opened with: that of `LOG_DEBUG` in a build with debug
/// assertions, and that of `LOG_INFO` in a build without.
pub fn default_log_mask(debug_assertions: bool) -> (mask: LogMask)
    ensures
        mask == (if debug_assertions {
            mask_bit(Severity::LOG_DEBUG.spec_value())
        } else {
            mask_bit(Severity::LOG_INFO.spec_value())
        }),
        forall|severity: Severity|
            mask_admits(mask, severity) <==> severity == (if debug_assertions {
                Severity::LOG_DEBUG
            } else {
                Severity::LOG_INFO
            }),
{
    if debug_assertions {
        Severity::LOG_DEBUG.mask()
    } else {
        Severity::LOG_INFO.mask()
    }
}

} // verus!
