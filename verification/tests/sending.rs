use std::sync::atomic::Ordering;
use syslog2::rfc5424::AtomicI32;
use syslog2::syslogSenders::is_transient;
use syslog2::syslogSenders::RetryPolicy;
use syslog2::syslogSenders::SendStep;
use syslog2::syslogSenders::Transmission;
use syslog2::syslogSenders::TransportErrorKind;
use syslog2::syslogSenders::WriteOutcome;

/// Sends `length` bytes over a transport that answers each write with the next of
/// `script`, or takes all that is left once the script has run out.
fn send(length: usize, policy: RetryPolicy, script: &[WriteOutcome]) -> (SendStep, Vec<usize>, usize) {
    let mut transmission = Transmission::new(length, policy);
    let mut offsets: Vec<usize> = Vec::new();
    let mut answers = script.iter();
    loop {
        offsets.push(transmission.offset());
        let outcome = match answers.next() {
            Some(outcome) => *outcome,
            None => WriteOutcome::Written(transmission.remaining()),
        };
        match transmission.record(outcome) {
            SendStep::Write { from } => assert_eq!(from, transmission.offset()),
            step => return (step, offsets, transmission.offset()),
        }
    }
}

#[test]
fn partial_writes_add_up_to_the_whole_message() {
    let script = [
        WriteOutcome::Written(1472),
        WriteOutcome::Written(1472),
        WriteOutcome::Written(1000),
        WriteOutcome::Written(152),
    ];
    let (step, offsets, sent) = send(4096, RetryPolicy::default(), &script);
    assert_eq!(step, SendStep::Sent);
    assert_eq!(offsets, vec![0, 1472, 2944, 3944]);
    assert_eq!(sent, 4096);
}

#[test]
fn whole_message_in_one_write() {
    let (step, offsets, sent) = send(51, RetryPolicy::default(), &[WriteOutcome::Written(51)]);
    assert_eq!(step, SendStep::Sent);
    assert_eq!(offsets, vec![0]);
    assert_eq!(sent, 51);
}

#[test]
fn empty_message_is_sent_by_one_empty_write() {
    let (step, offsets, sent) = send(0, RetryPolicy::default(), &[WriteOutcome::Written(0)]);
    assert_eq!(step, SendStep::Sent);
    assert_eq!(offsets, vec![0]);
    assert_eq!(sent, 0);
}

#[test]
fn transient_failures_are_tried_again_from_the_same_offset() {
    let script = [
        WriteOutcome::Failed(TransportErrorKind::WouldBlock),
        WriteOutcome::Written(10),
        WriteOutcome::Failed(TransportErrorKind::Interrupted),
        WriteOutcome::Failed(TransportErrorKind::TimedOut),
        WriteOutcome::Written(0),
        WriteOutcome::Failed(TransportErrorKind::WriteZero),
        WriteOutcome::Written(20),
    ];
    let (step, offsets, sent) = send(30, RetryPolicy::default(), &script);
    assert_eq!(step, SendStep::Sent);
    assert_eq!(offsets, vec![0, 0, 10, 10, 10, 10, 10]);
    assert_eq!(sent, 30);
}

#[test]
fn any_other_failure_ends_the_sending_at_once() {
    for kind in [
        TransportErrorKind::ConnectionReset,
        TransportErrorKind::BrokenPipe,
        TransportErrorKind::PermissionDenied,
        TransportErrorKind::AddressNotAvailable,
        TransportErrorKind::Other,
    ] {
        let script = [WriteOutcome::Written(10), WriteOutcome::Failed(kind), WriteOutcome::Written(20)];
        let (step, offsets, sent) = send(30, RetryPolicy::default(), &script);
        assert_eq!(step, SendStep::Failed(kind));
        assert_eq!(offsets, vec![0, 10]);
        assert_eq!(sent, 10);
    }
}

#[test]
fn transient_kinds_are_the_four_that_pass() {
    assert!(is_transient(TransportErrorKind::WouldBlock));
    assert!(is_transient(TransportErrorKind::TimedOut));
    assert!(is_transient(TransportErrorKind::Interrupted));
    assert!(is_transient(TransportErrorKind::WriteZero));
    assert!(!is_transient(TransportErrorKind::ConnectionReset));
    assert!(!is_transient(TransportErrorKind::BrokenPipe));
    assert!(!is_transient(TransportErrorKind::PermissionDenied));
    assert!(!is_transient(TransportErrorKind::AddressNotAvailable));
    assert!(!is_transient(TransportErrorKind::Other));
}

#[test]
fn policy_can_make_a_time_out_final() {
    let policy = RetryPolicy { timed_out_is_transient: false, maximum_retries: None };
    assert!(!policy.is_transient(TransportErrorKind::TimedOut));
    assert!(policy.is_transient(TransportErrorKind::WouldBlock));
    let script = [WriteOutcome::Written(5), WriteOutcome::Failed(TransportErrorKind::TimedOut)];
    let (step, offsets, sent) = send(30, policy, &script);
    assert_eq!(step, SendStep::Failed(TransportErrorKind::TimedOut));
    assert_eq!(offsets, vec![0, 5]);
    assert_eq!(sent, 5);
}

#[test]
fn policy_can_bound_the_retries() {
    let policy = RetryPolicy { timed_out_is_transient: true, maximum_retries: Some(2) };
    let script = [
        WriteOutcome::Failed(TransportErrorKind::WouldBlock),
        WriteOutcome::Written(5),
        WriteOutcome::Written(0),
        WriteOutcome::Failed(TransportErrorKind::TimedOut),
        WriteOutcome::Written(25),
    ];
    let (step, offsets, sent) = send(30, policy, &script);
    assert_eq!(step, SendStep::Failed(TransportErrorKind::TimedOut));
    assert_eq!(offsets, vec![0, 0, 5, 5]);
    assert_eq!(sent, 5);
    let none = RetryPolicy { timed_out_is_transient: true, maximum_retries: Some(0) };
    let (step, _, _) = send(30, none, &[WriteOutcome::Written(0)]);
    assert_eq!(step, SendStep::Failed(TransportErrorKind::WriteZero));
    let (step, _, sent) = send(30, none, &[WriteOutcome::Written(29), WriteOutcome::Written(1)]);
    assert_eq!(step, SendStep::Sent);
    assert_eq!(sent, 30);
}

#[test]
fn default_policy_never_gives_up() {
    assert_eq!(
        RetryPolicy::default(),
        RetryPolicy { timed_out_is_transient: true, maximum_retries: None }
    );
    let script = vec![WriteOutcome::Failed(TransportErrorKind::TimedOut); 10_000];
    let (step, offsets, sent) = send(3, RetryPolicy::default(), &script);
    assert_eq!(step, SendStep::Sent);
    assert_eq!(offsets.len(), 10_001);
    assert_eq!(sent, 3);
}

#[test]
fn atomic_number_is_exchanged_where_it_is_as_expected() {
    let number = AtomicI32::new(7);
    assert_eq!(number.load(Ordering::Relaxed), 7);
    assert_eq!(number.compare_and_swap(7, 9, Ordering::Relaxed), 7);
    assert_eq!(number.load(Ordering::SeqCst), 9);
    assert_eq!(number.compare_and_swap(7, 11, Ordering::AcqRel), 9);
    assert_eq!(number.load(Ordering::Acquire), 9);
    assert_eq!(number.compare_and_swap(9, -3, Ordering::Release), 9);
    assert_eq!(number.compare_and_swap(-3, 0, Ordering::Acquire), -3);
    assert_eq!(number.compare_and_swap(0, 1, Ordering::SeqCst), 0);
    assert_eq!(number.load(Ordering::Relaxed), 1);
}
