use vstd::prelude::*;

verus! {

/// Why a transport did not take the bytes that it was given.
#[derive(Debug, Clone, Copy, PartialEq, Eq, Structural)]
pub enum TransportErrorKind {
    /// The transport would have had to wait.
    WouldBlock,
    /// The transport waited as long as it was allowed to.
    TimedOut,
    /// The write was interrupted before it took anything.
    Interrupted,
    /// The transport took nothing.
    WriteZero,
    ConnectionReset,
    BrokenPipe,
    PermissionDenied,
    /// The address of the collector cannot be reached, or stands for nothing.
    AddressNotAvailable,
    /// Any other failure.
    Other,
}

/// Which failures pass, and how often a sender tries again.
///
/// A sender that never gives up, on a transport that has no time limit of its own for
/// a write, waits for as long as the transport fails to take the bytes: nothing in the
/// sender ends that wait.
#[derive(Debug, Clone, Copy, PartialEq, Eq, Structural)]
pub struct RetryPolicy {
    /// Whether a write that timed out is tried again. Where it is not, a time limit on
    /// the transport bounds the time that a send can take.
    pub timed_out_is_transient: bool,
    /// After how many writes that took nothing the sender gives up; `None` where it
    /// never does.
    pub maximum_retries: Option<u64>,
}

impl Default for RetryPolicy {
    /// A write that timed out is tried again, and the sender never gives up.
    fn default() -> (policy: RetryPolicy)
        ensures
            policy == RetryPolicy::spec_default(),
    {
        RetryPolicy { timed_out_is_transient: true, maximum_retries: None }
    }
}

impl RetryPolicy {
    pub open spec fn spec_default() -> RetryPolicy {
        RetryPolicy { timed_out_is_transient: true, maximum_retries: None }
    }

    /// Whether a failure of this kind passes under this policy, so that the write is
    /// worth trying again.
    pub open spec fn spec_is_transient(self, kind: TransportErrorKind) -> bool {
        kind == TransportErrorKind::WouldBlock || kind == TransportErrorKind::Interrupted || kind
            == TransportErrorKind::WriteZero || (kind == TransportErrorKind::TimedOut
            && self.timed_out_is_transient)
    }

    /// Whether a sender that has tried again `retries` times may try once more.
    pub open spec fn allows_retry_after(self, retries: u64) -> bool {
        match self.maximum_retries {
            Some(maximum) => retries < maximum,
            None => true,
        }
    }

    #[verifier::when_used_as_spec(spec_is_transient)]
    pub fn is_transient(self, kind: TransportErrorKind) -> (transient: bool)
        ensures
            transient == self.spec_is_transient(kind),
    {
        match kind {
            TransportErrorKind::WouldBlock => true,
            TransportErrorKind::Interrupted => true,
            TransportErrorKind::WriteZero => true,
            TransportErrorKind::TimedOut => self.timed_out_is_transient,
            _ => false,
        }
    }
}

/// Whether a failure of this kind passes: the transport would have had to wait, timed
/// out, was interrupted, or took nothing. Any other failure is final.
pub fn is_transient(kind: TransportErrorKind) -> (transient: bool)
    ensures
        transient == RetryPolicy::spec_default().spec_is_transient(kind),
        transient == (kind == TransportErrorKind::WouldBlock || kind
            == TransportErrorKind::TimedOut || kind == TransportErrorKind::Interrupted || kind
            == TransportErrorKind::WriteZero),
{
    RetryPolicy::default().is_transient(kind)
}

/// What came of handing the transport the bytes that were still to send.
#[derive(Debug, Clone, Copy, PartialEq, Eq, Structural)]
pub enum WriteOutcome {
    /// The transport took this many of them.
    Written(usize),
    Failed(TransportErrorKind),
}

/// What a sender does next.
#[derive(Debug, Clone, Copy, PartialEq, Eq, Structural)]
pub enum SendStep {
    /// Hand the transport the bytes of the message from this offset on.
    Write { from: usize },
    /// Every byte was taken: the message is sent.
    Sent,
    /// Give up, and report this failure.
    Failed(TransportErrorKind),
}

/// How far the sending of one message has come.
///
/// A sender hands the transport what is left of the message, tells the transmission
/// what came of it, and does what the transmission answers, until that is no further
/// write. It hands the transport the whole message first, also where that is empty.
#[derive(Debug, Clone, Copy)]
pub struct Transmission {
    policy: RetryPolicy,
    length: usize,
    sent: usize,
    retries: u64,
}

impl Transmission {
    #[verifier::type_invariant]
    spec fn within_length(&self) -> bool {
        self.sent <= self.length
    }

    pub closed spec fn policy(&self) -> RetryPolicy {
        self.policy
    }

    /// How many bytes the message has.
    pub closed spec fn length(&self) -> usize {
        self.length
    }

    /// How many bytes of the message the transport has taken.
    pub closed spec fn sent(&self) -> usize {
        self.sent
    }

    /// How many writes took nothing and were tried again.
    pub closed spec fn retries(&self) -> u64 {
        self.retries
    }

    /// Whether the transmission is one of a message: no more was sent than it has.
    pub open spec fn is_valid(&self) -> bool {
        self.sent() <= self.length()
    }

    /// What the transmission answers to `outcome`, under its policy.
    pub open spec fn step_after(&self, outcome: WriteOutcome) -> SendStep {
        match outcome {
            WriteOutcome::Written(written) => {
                if self.sent() + written == self.length() {
                    SendStep::Sent
                } else if written == 0 {
                    self.step_after_nothing_was_taken(TransportErrorKind::WriteZero)
                } else {
                    SendStep::Write { from: (self.sent() + written) as usize }
                }
            },
            WriteOutcome::Failed(kind) => {
                if self.policy().spec_is_transient(kind) {
                    self.step_after_nothing_was_taken(kind)
                } else {
                    SendStep::Failed(kind)
                }
            },
        }
    }

    /// What the transmission answers to a write that took nothing, for a reason that
    /// passes: the same write again, unless the policy has the sender give up.
    pub open spec fn step_after_nothing_was_taken(&self, kind: TransportErrorKind) -> SendStep {
        if self.policy().allows_retry_after(self.retries()) {
            SendStep::Write { from: self.sent() }
        } else {
            SendStep::Failed(kind)
        }
    }

    /// The transmission as it is once it has taken note of `outcome`.
    pub closed spec fn after(&self, outcome: WriteOutcome) -> Transmission {
        Transmission {
            policy: self.policy,
            length: self.length,
            sent: match outcome {
                WriteOutcome::Written(written) => (self.sent + written) as usize,
                WriteOutcome::Failed(_) => self.sent,
            },
            retries: if self.is_retried(outcome) && self.retries < u64::MAX {
                (self.retries + 1) as u64
            } else {
                self.retries
            },
        }
    }

    /// Whether a write with this outcome is tried again as it was.
    pub open spec fn is_retried(&self, outcome: WriteOutcome) -> bool {
        self.step_after(outcome) == (SendStep::Write { from: self.sent() })
    }

    /// The transmission of a message of `length` bytes, of which nothing is sent yet.
    pub fn new(length: usize, policy: RetryPolicy) -> (transmission: Transmission)
        ensures
            transmission.length() == length,
            transmission.sent() == 0,
            transmission.retries() == 0,
            transmission.policy() == policy,
    {
        Transmission { policy, length, sent: 0, retries: 0 }
    }

    /// From where in the message the next write takes its bytes.
    pub fn offset(&self) -> (offset: usize)
        ensures
            offset == self.sent(),
            offset <= self.length(),
    {
        proof {
            use_type_invariant(self);
        }
        self.sent
    }

    /// How many bytes are still to send.
    pub fn remaining(&self) -> (remaining: usize)
        ensures
            remaining == self.length() - self.sent(),
    {
        proof {
            use_type_invariant(self);
        }
        self.length - self.sent
    }

    /// Takes note of what came of a write, and says what the sender does next.
    ///
    /// What the transport took counts as sent. The message is sent once all of it is.
    /// A write that took nothing, for a reason that passes, is made again, unless the
    /// policy has the sender give up; any other failure ends the sending at once. A
    /// transport takes no more than it is given: `outcome` says so.
    pub fn record(&mut self, outcome: WriteOutcome) -> (step: SendStep)
        requires
            outcome matches WriteOutcome::Written(written) ==> written <= old(self).length() - old(
                self,
            ).sent(),
        ensures
            step == old(self).step_after(outcome),
            *final(self) == old(self).after(outcome),
            final(self).length() == old(self).length(),
            final(self).policy() == old(self).policy(),
            final(self).is_valid(),
            final(self).sent() == (match outcome {
                WriteOutcome::Written(written) => old(self).sent() + written,
                WriteOutcome::Failed(_) => old(self).sent() as int,
            }),
            step is Sent <==> (outcome is Written && final(self).sent() == final(self).length()),
            step matches SendStep::Write { from } ==> from == final(self).sent(),
            final(self).retries() == (if old(self).is_retried(outcome) && old(self).retries()
                < u64::MAX {
                old(self).retries() + 1
            } else {
                old(self).retries() as int
            }),
    {
        proof {
            use_type_invariant(&*self);
        }
        match outcome {
            WriteOutcome::Written(written) => {
                let sent: usize = self.sent + written;
                if sent == self.length {
                    self.sent = sent;
                    SendStep::Sent
                } else if written == 0 {
                    self.nothing_was_taken(TransportErrorKind::WriteZero)
                } else {
                    self.sent = sent;
                    SendStep::Write { from: sent }
                }
            },
            WriteOutcome::Failed(kind) => {
                if self.policy.is_transient(kind) {
                    self.nothing_was_taken(kind)
                } else {
                    SendStep::Failed(kind)
                }
            },
        }
    }

    /// Counts a write that took nothing, and says whether it is made again.
    fn nothing_was_taken(&mut self, kind: TransportErrorKind) -> (step: SendStep)
        ensures
            step == old(self).step_after_nothing_was_taken(kind),
            final(self).length() == old(self).length(),
            final(self).policy() == old(self).policy(),
            final(self).sent() == old(self).sent(),
            final(self).retries() == (if old(self).policy().allows_retry_after(
                old(self).retries(),
            ) && old(self).retries() < u64::MAX {
                old(self).retries() + 1
            } else {
                old(self).retries() as int
            }),
    {
        proof {
            use_type_invariant(&*self);
        }
        let again: bool = match self.policy.maximum_retries {
            Some(maximum) => self.retries < maximum,
            None => true,
        };
        if again {
            if self.retries < u64::MAX {
                self.retries = self.retries + 1;
            }
            SendStep::Write { from: self.sent }
        } else {
            SendStep::Failed(kind)
        }
    }
}

/// How many bytes writes took that took `writes[0]`, `writes[1]` and so on.
pub open spec fn total_written(writes: Seq<usize>) -> int
    decreases writes.len(),
{
    if writes.len() == 0 {
        0
    } else {
        total_written(writes.drop_last()) + writes.last()
    }
}

/// The transmission after writes, made in turn, that took `writes[0]`, `writes[1]` and
/// so on.
pub open spec fn after_writes(transmission: Transmission, writes: Seq<usize>) -> Transmission
    decreases writes.len(),
{
    if writes.len() == 0 {
        transmission
    } else {
        after_writes(transmission, writes.drop_last()).after(WriteOutcome::Written(writes.last()))
    }
}

/// What writes take adds up: after writes that together took no more than was left
/// of the message, what they took counts as sent. The last of them ends the sending,
/// with the whole message sent, exactly if nothing is left after it; if it is not the
/// last, and took something, the next write starts where it ended.
pub proof fn lemma_partial_writes_add_up(transmission: Transmission, writes: Seq<usize>)
    requires
        transmission.is_valid(),
        transmission.sent() + total_written(writes) <= transmission.length(),
    ensures
        after_writes(transmission, writes).is_valid(),
        after_writes(transmission, writes).length() == transmission.length(),
        after_writes(transmission, writes).policy() == transmission.policy(),
        after_writes(transmission, writes).sent() == transmission.sent() + total_written(writes),
        writes.len() > 0 ==> {
            let before_last = after_writes(transmission, writes.drop_last());
            let step = before_last.step_after(WriteOutcome::Written(writes.last()));
            &&& step is Sent <==> transmission.sent() + total_written(writes)
                == transmission.length()
            &&& !(step is Sent) && writes.last() > 0 ==> step == (SendStep::Write {
                from: (transmission.sent() + total_written(writes)) as usize,
            })
        },
    decreases writes.len(),
{
    if writes.len() > 0 {
        lemma_partial_writes_add_up(transmission, writes.drop_last());
    }
}

/// How many further writes a sender can be told to make at most, under a policy that
/// has it give up after `maximum` retries: one for each byte that is left, and one for
/// each retry that is left.
pub open spec fn writes_left(transmission: Transmission, maximum: u64) -> int {
    (transmission.length() - transmission.sent()) + (maximum - transmission.retries())
}

/// A sender that gives up after a number of retries ends: each answer that tells it to
/// write once more leaves it fewer writes than it had before. So a message of `length`
/// bytes is sent, or given up, after `length + maximum + 1` writes at most.
pub proof fn lemma_bounded_policy_ends(transmission: Transmission, outcome: WriteOutcome, maximum: u64)
    requires
        transmission.is_valid(),
        transmission.policy().maximum_retries == Some(maximum),
        transmission.retries() <= maximum,
        outcome matches WriteOutcome::Written(written) ==> written <= transmission.length()
            - transmission.sent(),
    ensures
        transmission.after(outcome).is_valid(),
        transmission.after(outcome).retries() <= maximum,
        transmission.after(outcome).policy() == transmission.policy(),
        transmission.after(outcome).length() == transmission.length(),
        writes_left(transmission, maximum) >= 0,
        transmission.step_after(outcome) is Write ==> writes_left(
            transmission.after(outcome),
            maximum,
        ) < writes_left(transmission, maximum),
{
}

} // verus!
