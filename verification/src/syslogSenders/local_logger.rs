use vstd::prelude::*;

verus! {

/// How many bytes of `message` come before its first zero byte; all of them, where
/// it has none. The local logger takes a message up to there.
pub open spec fn length_before_nul(message: Seq<u8>) -> int
    decreases message.len(),
{
    if message.len() == 0 || message[0] == 0 {
        0
    } else {
        1 + length_before_nul(message.drop_first())
    }
}

/// What is before the first zero byte holds none, and a zero byte follows it unless
/// it is the whole message.
pub proof fn lemma_length_before_nul(message: Seq<u8>)
    ensures
        0 <= length_before_nul(message) <= message.len(),
        forall|i: int| 0 <= i < length_before_nul(message) ==> message[i] != 0,
        length_before_nul(message) < message.len() ==> message[length_before_nul(message)] == 0,
    decreases message.len(),
{
    if message.len() > 0 && message[0] != 0 {
        let rest = message.drop_first();
        lemma_length_before_nul(rest);
        assert forall|i: int| 0 <= i < length_before_nul(message) implies message[i] != 0 by {
            if i > 0 {
                assert(message[i] == rest[i - 1]);
            }
        }
    }
}

/// How much of a message the local logger takes: what comes before its first zero
/// byte.
pub fn bytes_before_nul(message: &[u8]) -> (length: usize)
    ensures
        length == length_before_nul(message@),
        length <= message@.len(),
        forall|i: int| 0 <= i < length ==> message@[i] != 0,
        length < message@.len() ==> message@[length as int] == 0,
{
    proof {
        lemma_length_before_nul(message@);
    }
    let mut length: usize = 0;
    assert(message@.skip(0) =~= message@);
    while length < message.len() && message[length] != 0
        invariant
            length <= message@.len(),
            length_before_nul(message@) == length + length_before_nul(
                message@.skip(length as int),
            ),
        decreases message@.len() - length,
    {
        assert(message@.skip(length as int).drop_first() =~= message@.skip(length + 1));
        length = length + 1;
    }
    length
}

} // verus!
