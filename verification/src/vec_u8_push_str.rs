use vstd::prelude::*;
use vstd::string::StringSliceAdditionalSpecFns;

verus! {

/// Appending text to a buffer of bytes.
pub trait VecU8PushStr {
    /// Appends `value` in UTF-8.
    fn push_str(&mut self, value: &str);
}

impl VecU8PushStr for Vec<u8> {
    fn push_str(&mut self, value: &str)
        ensures
            final(self)@ == old(self)@ + value.spec_bytes(),
    {
        self.extend_from_slice(value.as_bytes());
    }
}

} // verus!
