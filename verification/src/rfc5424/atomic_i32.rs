use vstd::prelude::*;
use std::sync::atomic::Ordering;
use crate::rfc5424::sequence_id::next_sequence_id;

verus! {

/// A 32-bit signed number that threads share, and change without a lock.
///
/// What another thread does to the number is not seen here, so nothing is known of
/// what a load or an exchange gives back. What is known is the number that it was
/// made with.
pub struct AtomicI32 {
    value: std::sync::atomic::AtomicI32,
    initial: Ghost<i32>,
}

impl AtomicI32 {
    /// The number that it held when it was made.
    pub closed spec fn initial(&self) -> i32 {
        self.initial@
    }

    /// A number that holds `v` at first.
    pub fn new(v: i32) -> (atomic: AtomicI32)
        ensures
            atomic.initial() == v,
    {
        AtomicI32 { value: std::sync::atomic::AtomicI32::new(v), initial: Ghost(v) }
    }

    /// The number as it is now. A load cannot release, so `order` is neither `Release`
    /// nor `AcqRel`.
    pub fn load(&self, order: Ordering) -> i32
        requires
            order != Ordering::Release,
            order != Ordering::AcqRel,
    {
        self.value.load(order)
    }

    /// Stores `new` if the number is `current`, and gives back what the number was
    /// before: the exchange was made if that is `current`.
    pub fn compare_and_swap(&self, current: i32, new: i32, order: Ordering) -> i32 {
        let failure: Ordering = match order {
            Ordering::Relaxed => Ordering::Relaxed,
            Ordering::Release => Ordering::Relaxed,
            Ordering::Acquire => Ordering::Acquire,
            Ordering::AcqRel => Ordering::Acquire,
            _ => Ordering::SeqCst,
        };
        match self.value.compare_exchange(current, new, order, failure) {
            Ok(previous) => previous,
            Err(previous) => previous,
        }
    }

    /// `fetch_update` of `std::sync::atomic::AtomicI32`, with relaxed ordering: it
    /// replaces the number by its successor as a sequence id, in one step that no other
    /// thread can come between, and gives back the number that it replaced. Nothing is
    /// claimed of that number.
    #[verifier::external_body]
    pub(crate) fn replace_by_next_sequence_id(&self) -> (previous: i32) {
        let outcome = self.value.fetch_update(
            Ordering::Relaxed,
            Ordering::Relaxed,
            |current| Some(next_sequence_id(current)),
        );
        match outcome {
            Ok(previous) => previous,
            Err(previous) => previous,
        }
    }
}

} // verus!
