//! The message-fetch protocol: offset resolution, the phase machine, the
//! seek retry bound and the poll retry decisions.

use kafka2i::fetch::{
    consume_poll_step, offset_for_partition, resolve_requested_offset, ConsumerError, FetchAction,
    FetchError, FetchPhase, FetchProtocol, OffsetRequest, PollOutcome, PollStep, SeekOutcome,
    TplEntry,
};

fn erroneous() -> SeekOutcome {
    SeekOutcome::ErroneousState { detail: String::from("Local: Erroneous state") }
}

#[test]
fn resolve_empty_partition() {
    // high == low: nothing to fetch, whatever was asked
    assert!(matches!(
        resolve_requested_offset(OffsetRequest::Latest, 5, 5),
        Err(FetchError::EmptyPartition)
    ));
    assert!(matches!(
        resolve_requested_offset(OffsetRequest::At(5), 5, 5),
        Err(FetchError::EmptyPartition)
    ));
}

#[test]
fn resolve_latest_is_high_minus_one() {
    assert_eq!(resolve_requested_offset(OffsetRequest::Latest, 0, 20).unwrap(), 19);
    assert_eq!(resolve_requested_offset(OffsetRequest::Latest, 7, 8).unwrap(), 7);
}

#[test]
fn resolve_bounds() {
    assert_eq!(resolve_requested_offset(OffsetRequest::At(0), 0, 20).unwrap(), 0);
    assert_eq!(resolve_requested_offset(OffsetRequest::At(19), 0, 20).unwrap(), 19);
    match resolve_requested_offset(OffsetRequest::At(20), 0, 20) {
        Err(FetchError::OffsetOutOfRange { low, high, requested }) => {
            assert_eq!((low, high, requested), (0, 20, 20));
        },
        _ => panic!("an offset at the high watermark must be rejected"),
    }
    assert!(matches!(
        resolve_requested_offset(OffsetRequest::At(-1), 0, 20),
        Err(FetchError::OffsetOutOfRange { .. })
    ));
    assert!(matches!(
        resolve_requested_offset(OffsetRequest::At(2), 3, 20),
        Err(FetchError::OffsetOutOfRange { .. })
    ));
}

#[test]
fn protocol_happy_path() {
    let (mut p, act) = FetchProtocol::start(String::from("orders"), 1, OffsetRequest::Latest);
    match act {
        FetchAction::FetchWatermarks { topic, partition_id } => {
            assert_eq!(topic.as_str(), "orders");
            assert_eq!(partition_id, 1);
        },
        _ => panic!("the protocol must begin with the watermark fetch"),
    }
    let act = p.on_watermarks(Ok((0, 20)));
    assert!(matches!(act, FetchAction::AssignPartition { .. }));
    assert!(matches!(p.phase, FetchPhase::AwaitAssign { effective: 19 }));
    let act = p.on_assign(Ok(()));
    assert!(matches!(act, FetchAction::PollDiscard));
    let act = p.on_warmup(Ok(()));
    match act {
        FetchAction::SeekTo { offset, backoff, .. } => {
            assert_eq!(offset, 19);
            assert!(!backoff);
        },
        _ => panic!("the warm-up poll must be followed by the seek"),
    }
    let act = p.on_seek(SeekOutcome::Success);
    assert!(matches!(act, FetchAction::PollCapture));
    let act = p.on_capture(true);
    assert!(matches!(act, FetchAction::Idle));
    assert!(matches!(p.phase, FetchPhase::Done { outcome: Ok(19) }));
}

#[test]
fn empty_partition_stops_before_assign() {
    let (mut p, _) = FetchProtocol::start(String::from("orders"), 0, OffsetRequest::Latest);
    let act = p.on_watermarks(Ok((7, 7)));
    assert!(matches!(act, FetchAction::Idle));
    assert!(matches!(p.phase, FetchPhase::Done { outcome: Err(FetchError::EmptyPartition) }));
}

#[test]
fn out_of_range_stops_before_assign() {
    let (mut p, _) = FetchProtocol::start(String::from("orders"), 0, OffsetRequest::At(25));
    let act = p.on_watermarks(Ok((0, 20)));
    assert!(matches!(act, FetchAction::Idle));
    assert!(matches!(
        p.phase,
        FetchPhase::Done { outcome: Err(FetchError::OffsetOutOfRange { low: 0, high: 20, requested: 25 }) }
    ));
}

#[test]
fn watermark_failure_aborts() {
    let (mut p, _) = FetchProtocol::start(String::from("orders"), 0, OffsetRequest::Latest);
    let act = p.on_watermarks(Err(ConsumerError { message: String::from("timed out") }));
    assert!(matches!(act, FetchAction::Idle));
    assert!(matches!(p.phase, FetchPhase::Done { outcome: Err(FetchError::WatermarkFetch { .. }) }));
}

fn protocol_at_seek() -> FetchProtocol {
    let (mut p, _) = FetchProtocol::start(String::from("orders"), 1, OffsetRequest::At(3));
    p.on_watermarks(Ok((0, 20)));
    p.on_assign(Ok(()));
    p.on_warmup(Ok(()));
    p
}

#[test]
fn seek_retries_exactly_three_times_on_erroneous_state() {
    let mut p = protocol_at_seek();
    assert!(matches!(p.phase, FetchPhase::AwaitSeek { effective: 3, retries_left: 3 }));
    for expected_left in [2u64, 1, 0] {
        let act = p.on_seek(erroneous());
        match act {
            FetchAction::SeekTo { offset, backoff, .. } => {
                assert_eq!(offset, 3);
                assert!(backoff);
            },
            _ => panic!("an erroneous-state failure with budget left must retry"),
        }
        match p.phase {
            FetchPhase::AwaitSeek { effective, retries_left } => {
                assert_eq!(effective, 3);
                assert_eq!(retries_left, expected_left);
            },
            _ => panic!("the retry must wait for another seek"),
        }
    }
    // the fourth erroneous outcome exhausts the budget
    let act = p.on_seek(erroneous());
    assert!(matches!(act, FetchAction::Idle));
    assert!(matches!(p.phase, FetchPhase::Done { outcome: Err(FetchError::Seek { .. }) }));
}

#[test]
fn seek_other_errors_never_retry() {
    let mut p = protocol_at_seek();
    let act = p.on_seek(SeekOutcome::Failed { detail: String::from("unknown partition") });
    assert!(matches!(act, FetchAction::Idle));
    assert!(matches!(p.phase, FetchPhase::Done { outcome: Err(FetchError::Seek { .. }) }));
}

#[test]
fn capture_without_message_fails() {
    let mut p = protocol_at_seek();
    p.on_seek(SeekOutcome::Success);
    let act = p.on_capture(false);
    assert!(matches!(act, FetchAction::Idle));
    assert!(matches!(p.phase, FetchPhase::Done { outcome: Err(FetchError::NoMessage) }));
}

#[test]
fn poll_retry_decisions() {
    assert!(matches!(consume_poll_step(PollOutcome::Message, 3, false), PollStep::Deliver));
    assert!(matches!(
        consume_poll_step(PollOutcome::TransportError { detail: String::from("down") }, 3, false),
        PollStep::RetryAfterBackoff
    ));
    assert!(matches!(
        consume_poll_step(PollOutcome::TransportError { detail: String::from("down") }, 0, true),
        PollStep::Fail { .. }
    ));
    assert!(matches!(
        consume_poll_step(PollOutcome::OtherError { detail: String::from("auth") }, 3, true),
        PollStep::Fail { .. }
    ));
    assert!(matches!(consume_poll_step(PollOutcome::Empty, 3, true), PollStep::RetryAfterBackoff));
    assert!(matches!(consume_poll_step(PollOutcome::Empty, 3, false), PollStep::GiveUpEmpty));
    assert!(matches!(consume_poll_step(PollOutcome::Empty, 0, true), PollStep::GiveUpEmpty));
}

#[test]
fn producer_error_keeps_its_message() {
    let e = kafka2i::producer::ProducerError::new(String::from("queue full"));
    assert_eq!(e.message.as_str(), "queue full");
    let copy = e.clone();
    assert_eq!(copy.message.as_str(), "queue full");
}

#[test]
fn timestamp_lookup_picks_first_match() {
    let entries = vec![
        TplEntry { topic: String::from("audit"), partition: 0, offset: Some(4) },
        TplEntry { topic: String::from("orders"), partition: 1, offset: Some(7) },
        TplEntry { topic: String::from("orders"), partition: 1, offset: Some(9) },
        TplEntry { topic: String::from("orders"), partition: 2, offset: None },
    ];
    assert_eq!(offset_for_partition(&entries, "orders", 1), Some(7));
    assert_eq!(offset_for_partition(&entries, "orders", 2), None);
    assert_eq!(offset_for_partition(&entries, "orders", 9), None);
    assert_eq!(offset_for_partition(&entries, "audit", 0), Some(4));
}
