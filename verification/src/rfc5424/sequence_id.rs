use vstd::prelude::*;
use crate::rfc5424::atomic_i32::AtomicI32;

verus! {

/// The first sequence id, and the one that follows the last.
pub const FIRST_SEQUENCE_ID: i32 = 1;

/// The last sequence id before the numbering starts again.
pub const LAST_SEQUENCE_ID: i32 = 2147483647;

/// The sequence id that follows `current`: the next number, and 1 after the largest
/// number that 32 bits with a sign can hold, so that 0 is never reached.
pub open spec fn successor(current: i32) -> i32 {
    if current == LAST_SEQUENCE_ID {
        FIRST_SEQUENCE_ID
    } else {
        (current + 1) as i32
    }
}

pub fn next_sequence_id(current: i32) -> (next: i32)
    ensures
        next == successor(current),
{
    if current == LAST_SEQUENCE_ID {
        FIRST_SEQUENCE_ID
    } else {
        current + 1
    }
}

/// Sequence ids stay positive: the one after the largest is 1, and every other one
/// is followed by the next number.
pub proof fn lemma_successor_is_positive(current: i32)
    requires
        current >= 1,
    ensures
        successor(current) >= 1,
        successor(LAST_SEQUENCE_ID) == 1,
        current != LAST_SEQUENCE_ID ==> successor(current) == current + 1,
{
}

/// The sequence id that a counter hands out when it holds `held`: `held` itself where
/// that is a sequence id, a number from 1 up, and 1 where it is not.
pub open spec fn sequence_id_of(held: i32) -> i32 {
    if held >= FIRST_SEQUENCE_ID {
        held
    } else {
        FIRST_SEQUENCE_ID
    }
}

/// The sequence id that a counter hands out when it held `previous`.
pub fn id_of(previous: i32) -> (id: i32)
    ensures
        id == sequence_id_of(previous),
        id >= 1,
{
    if previous >= FIRST_SEQUENCE_ID {
        previous
    } else {
        FIRST_SEQUENCE_ID
    }
}

/// The counter that numbers the messages of a process, in the hands of one owner.
///
/// Nothing comes between two steps of such a counter, so each step is known: it hands
/// out the id that is up, and the successor of that id is up next. `share` makes of it
/// a counter that threads may share.
#[derive(Debug)]
pub struct OwnedSequenceId {
    upcoming: i32,
}

impl OwnedSequenceId {
    #[verifier::type_invariant]
    spec fn is_up_with_a_sequence_id(&self) -> bool {
        self.upcoming >= FIRST_SEQUENCE_ID
    }

    /// The id that the counter hands out next.
    pub closed spec fn upcoming(&self) -> i32 {
        self.upcoming
    }

    /// A counter whose first id is 1.
    pub fn new() -> (sequence: OwnedSequenceId)
        ensures
            sequence.upcoming() == FIRST_SEQUENCE_ID,
    {
        OwnedSequenceId { upcoming: FIRST_SEQUENCE_ID }
    }

    /// A counter whose first id is `first`, where that is a sequence id: a number
    /// from 1 up.
    pub fn starting_at(first: i32) -> (sequence: Option<OwnedSequenceId>)
        ensures
            sequence is Some <==> first >= 1,
            sequence matches Some(made) ==> made.upcoming() == first,
    {
        if first >= FIRST_SEQUENCE_ID {
            Some(OwnedSequenceId { upcoming: first })
        } else {
            None
        }
    }

    /// A counter that goes on after `last`, the id that was handed out last, where that
    /// is a sequence id: its first id is the successor of `last`, which is 1 after the
    /// largest id.
    pub fn resuming_after(last: i32) -> (sequence: Option<OwnedSequenceId>)
        ensures
            sequence is Some <==> last >= 1,
            sequence matches Some(made) ==> made.upcoming() == successor(last),
            last == LAST_SEQUENCE_ID ==> sequence is Some && sequence.unwrap().upcoming()
                == FIRST_SEQUENCE_ID,
    {
        if last >= FIRST_SEQUENCE_ID {
            Some(OwnedSequenceId { upcoming: next_sequence_id(last) })
        } else {
            None
        }
    }

    /// Hands out the id that is up, and moves the counter to the successor of that id:
    /// the next number, and 1 after the largest id. An id is never 0, nor below.
    pub fn take(&mut self) -> (id: i32)
        ensures
            id == old(self).upcoming(),
            id >= 1,
            final(self).upcoming() == successor(id),
            final(self).upcoming() >= 1,
            id == LAST_SEQUENCE_ID ==> final(self).upcoming() == FIRST_SEQUENCE_ID,
    {
        proof {
            use_type_invariant(&*self);
        }
        let id: i32 = self.upcoming;
        self.upcoming = next_sequence_id(id);
        id
    }

    /// The counter as one that threads may share: the id that is up is the first that
    /// it hands out.
    pub fn share(self) -> (shared: SequenceId)
        ensures
            shared.first() == self.upcoming(),
    {
        proof {
            use_type_invariant(&self);
        }
        SequenceId { counter: AtomicI32::new(self.upcoming) }
    }
}

/// The counter that numbers the messages of a process, so that a collector can tell
/// when one was lost. Threads may share it: each id is handed out once.
///
/// Which id a taker is handed depends on what the other takers have taken, and is
/// not known here: what is known of a shared counter is the id that it was made with.
pub struct SequenceId {
    counter: AtomicI32,
}

impl SequenceId {
    #[verifier::type_invariant]
    spec fn starts_at_a_sequence_id(&self) -> bool {
        self.counter.initial() >= FIRST_SEQUENCE_ID
    }

    /// The id that the counter was made with: the id that was up in the owned counter
    /// that was shared, or the one that the counter was asked to start at.
    pub closed spec fn first(&self) -> i32 {
        self.counter.initial()
    }

    /// A counter whose first id is 1.
    pub fn new() -> (sequence: SequenceId)
        ensures
            sequence.first() == FIRST_SEQUENCE_ID,
    {
        SequenceId { counter: AtomicI32::new(FIRST_SEQUENCE_ID) }
    }

    /// A counter whose first id is `first`, where that is a sequence id: a number
    /// from 1 up.
    pub fn starting_at(first: i32) -> (sequence: Option<SequenceId>)
        ensures
            sequence is Some <==> first >= 1,
            sequence matches Some(made) ==> made.first() == first,
    {
        if first >= 1 {
            Some(SequenceId { counter: AtomicI32::new(first) })
        } else {
            None
        }
    }

    /// A counter that goes on after `last`, the id that was handed out last, where that
    /// is a sequence id: its first id is the successor of `last`.
    pub fn resuming_after(last: i32) -> (sequence: Option<SequenceId>)
        ensures
            sequence is Some <==> last >= 1,
            sequence matches Some(made) ==> made.first() == successor(last),
    {
        if last >= 1 {
            Some(SequenceId { counter: AtomicI32::new(next_sequence_id(last)) })
        } else {
            None
        }
    }

    /// Hands out the counter's id and moves the counter to the successor of that id.
    /// Which id that is depends on what other threads have taken; it is a number from
    /// 1 up in any case.
    pub fn take(&self) -> (id: i32)
        ensures
            id >= 1,
    {
        let previous: i32 = self.counter.replace_by_next_sequence_id();
        id_of(previous)
    }
}

} // verus!
