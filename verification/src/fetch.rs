//! The offset-bounded message-fetch protocol: for a selected partition and a
//! requested offset, fetch watermarks, check the bounds, assign, warm up,
//! seek with a bounded retry, and capture exactly one message.
//!
//! The protocol is a state machine over plain values. The caller performs
//! each `FetchAction` against the cluster client and feeds the outcome back;
//! every transition, and the retry discipline, is verified here.

use vstd::prelude::*;

verus! {

/// An error reported by the cluster client, reduced to its message.
pub struct ConsumerError {
    pub message: String,
}

impl Clone for ConsumerError {
    fn clone(&self) -> (r: Self)
        ensures
            r == *self,
    {
        let r = ConsumerError { message: self.message.clone() };
        r
    }
}

/// A requested offset: a literal, or the latest message of the partition.
#[derive(Clone, Copy, PartialEq, Eq, Structural, Debug)]
pub enum OffsetRequest {
    Latest,
    At(i64),
}

/// Why a fetch ended without a message.
#[derive(Debug)]
pub enum FetchError {
    /// The watermark fetch failed.
    WatermarkFetch { detail: String },
    /// `high == low`: the partition holds no message.
    EmptyPartition,
    /// A literal offset outside `[low, high)`.
    OffsetOutOfRange { low: i64, high: i64, requested: i64 },
    /// Assigning the partition, or the warm-up poll after it, failed.
    Assign { detail: String },
    /// The seek failed, after retries where they apply.
    Seek { detail: String },
    /// The capture poll returned no message.
    NoMessage,
}

/// Where the protocol stands: which client call it waits for.
pub enum FetchPhase {
    AwaitWatermarks,
    AwaitAssign { effective: i64 },
    AwaitWarmup { effective: i64 },
    AwaitSeek { effective: i64, retries_left: u64 },
    AwaitCapture { effective: i64 },
    Done { outcome: Result<i64, FetchError> },
}

/// What the caller must do next against the cluster client.
pub enum FetchAction {
    FetchWatermarks { topic: String, partition_id: i32 },
    AssignPartition { topic: String, partition_id: i32 },
    /// A warm-up poll whose result is discarded.
    PollDiscard,
    /// Seek to the offset; after a retried failure, back off first.
    SeekTo { topic: String, partition_id: i32, offset: i64, backoff: bool },
    /// The poll that captures the one message.
    PollCapture,
    /// Nothing: the protocol is finished.
    Idle,
}

/// How a seek call ended.
pub enum SeekOutcome {
    Success,
    /// The transient not-yet-ready condition after a (re)assignment;
    /// the one seek error that is retried.
    ErroneousState { detail: String },
    /// Any other seek error; never retried.
    Failed { detail: String },
}

/// How many times a seek in the erroneous-state condition is retried.
pub const SEEK_RETRIES: u64 = 3;

/// The effective offset for a request against the watermarks: `Latest`
/// resolves to `high - 1`, a literal must lie in `[low, high)`, and an
/// empty partition admits nothing.
pub open spec fn spec_resolve(request: OffsetRequest, low: i64, high: i64) -> Result<
    i64,
    FetchError,
> {
    if high == low {
        Err(FetchError::EmptyPartition)
    } else {
        match request {
            OffsetRequest::Latest => Ok((high - 1) as i64),
            OffsetRequest::At(o) => if low <= o < high {
                Ok(o)
            } else {
                Err((FetchError::OffsetOutOfRange { low, high, requested: o }))
            },
        }
    }
}

/// Resolves a requested offset against the watermarks.
pub fn resolve_requested_offset(request: OffsetRequest, low: i64, high: i64) -> (r: Result<
    i64,
    FetchError,
>)
    requires
        low <= high,
    ensures
        r == spec_resolve(request, low, high),
        high == low ==> r == Err::<i64, FetchError>(FetchError::EmptyPartition),
        high > low && request is Latest ==> r == Ok::<i64, FetchError>((high - 1) as i64),
{
    if high == low {
        Err(FetchError::EmptyPartition)
    } else {
        match request {
            OffsetRequest::Latest => Ok(high - 1),
            OffsetRequest::At(o) => {
                if low <= o && o < high {
                    Ok(o)
                } else {
                    Err(FetchError::OffsetOutOfRange { low, high, requested: o })
                }
            },
        }
    }
}

/// The phase after a watermark result comes back.
pub open spec fn spec_watermark_step(
    request: OffsetRequest,
    result: Result<(i64, i64), ConsumerError>,
) -> FetchPhase {
    match result {
        Err(e) => (FetchPhase::Done {
            outcome: Err(FetchError::WatermarkFetch { detail: e.message }),
        }),
        Ok(w) => match spec_resolve(request, w.0, w.1) {
            Ok(eff) => (FetchPhase::AwaitAssign { effective: eff }),
            Err(e) => (FetchPhase::Done { outcome: Err(e) }),
        },
    }
}

/// The phase after a seek outcome comes back: the erroneous-state condition
/// is retried while retries are left, any other failure ends the protocol.
pub open spec fn spec_seek_step(phase: FetchPhase, outcome: SeekOutcome) -> FetchPhase {
    match phase {
        FetchPhase::AwaitSeek { effective, retries_left } => match outcome {
            SeekOutcome::Success => (FetchPhase::AwaitCapture { effective }),
            SeekOutcome::ErroneousState { detail } => if retries_left > 0 {
                (FetchPhase::AwaitSeek { effective, retries_left: (retries_left - 1) as u64 })
            } else {
                (FetchPhase::Done { outcome: Err(FetchError::Seek { detail }) })
            },
            SeekOutcome::Failed { detail } => (FetchPhase::Done {
                outcome: Err(FetchError::Seek { detail }),
            }),
        },
        _ => phase,
    }
}

/// One run of the protocol for one partition and one requested offset.
pub struct FetchProtocol {
    pub topic: String,
    pub partition_id: i32,
    pub request: OffsetRequest,
    pub phase: FetchPhase,
}

impl FetchProtocol {
    /// Starts the protocol; the first thing to do is fetch watermarks.
    pub fn start(topic: String, partition_id: i32, request: OffsetRequest) -> (r: (
        FetchProtocol,
        FetchAction,
    ))
        ensures
            r.0.topic == topic,
            r.0.partition_id == partition_id,
            r.0.request == request,
            r.0.phase is AwaitWatermarks,
            r.1 == (FetchAction::FetchWatermarks { topic, partition_id }),
    {
        let action_topic = topic.clone();
        let p = FetchProtocol { topic, partition_id, request, phase: FetchPhase::AwaitWatermarks };
        let act = FetchAction::FetchWatermarks { topic: action_topic, partition_id };
        (p, act)
    }

    /// Takes the watermark result. An empty partition and an out-of-range
    /// literal end the protocol here: no assign and no seek is ever asked
    /// for. `Latest` resolves to `high - 1`.
    pub fn on_watermarks(&mut self, result: Result<(i64, i64), ConsumerError>) -> (act:
        FetchAction)
        requires
            old(self).phase is AwaitWatermarks,
            result matches Ok(w) ==> w.0 <= w.1,
        ensures
            final(self).topic == old(self).topic,
            final(self).partition_id == old(self).partition_id,
            final(self).request == old(self).request,
            final(self).phase == spec_watermark_step(old(self).request, result),
            final(self).phase is AwaitAssign ==> act == (FetchAction::AssignPartition {
                topic: old(self).topic,
                partition_id: old(self).partition_id,
            }),
            final(self).phase is Done ==> act is Idle,
            result matches Ok(w) ==> (w.1 == w.0 ==> final(self).phase == (FetchPhase::Done {
                outcome: Err::<i64, FetchError>(FetchError::EmptyPartition),
            }) && act is Idle),
            result matches Ok(w) ==> (w.1 > w.0 && old(self).request is Latest
                ==> final(self).phase == (FetchPhase::AwaitAssign { effective: (w.1 - 1) as i64 })),
    {
        match result {
            Err(e) => {
                self.phase = FetchPhase::Done {
                    outcome: Err(FetchError::WatermarkFetch { detail: e.message }),
                };
                FetchAction::Idle
            },
            Ok(w) => {
                match resolve_requested_offset(self.request, w.0, w.1) {
                    Ok(effective) => {
                        self.phase = FetchPhase::AwaitAssign { effective };
                        FetchAction::AssignPartition {
                            topic: self.topic.clone(),
                            partition_id: self.partition_id,
                        }
                    },
                    Err(e) => {
                        self.phase = FetchPhase::Done { outcome: Err(e) };
                        FetchAction::Idle
                    },
                }
            },
        }
    }

    /// Takes the assign result; success leads to the warm-up poll whose
    /// result is discarded.
    pub fn on_assign(&mut self, result: Result<(), ConsumerError>) -> (act: FetchAction)
        requires
            old(self).phase is AwaitAssign,
        ensures
            final(self).topic == old(self).topic,
            final(self).partition_id == old(self).partition_id,
            final(self).request == old(self).request,
            match result {
                Ok(u) => final(self).phase == (FetchPhase::AwaitWarmup {
                    effective: old(self).phase->AwaitAssign_effective,
                }) && act is PollDiscard,
                Err(e) => final(self).phase == (FetchPhase::Done {
                    outcome: Err(FetchError::Assign { detail: e.message }),
                }) && act is Idle,
            },
    {
        let effective = match self.phase {
            FetchPhase::AwaitAssign { effective } => effective,
            _ => 0,  // unreachable under the requires
        };
        match result {
            Ok(_) => {
                self.phase = FetchPhase::AwaitWarmup { effective };
                FetchAction::PollDiscard
            },
            Err(e) => {
                self.phase = FetchPhase::Done {
                    outcome: Err(FetchError::Assign { detail: e.message }),
                };
                FetchAction::Idle
            },
        }
    }

    /// Takes the warm-up poll result; success leads to the first seek, with
    /// the full retry budget.
    pub fn on_warmup(&mut self, result: Result<(), ConsumerError>) -> (act: FetchAction)
        requires
            old(self).phase is AwaitWarmup,
        ensures
            final(self).topic == old(self).topic,
            final(self).partition_id == old(self).partition_id,
            final(self).request == old(self).request,
            match result {
                Ok(u) => final(self).phase == (FetchPhase::AwaitSeek {
                    effective: old(self).phase->AwaitWarmup_effective,
                    retries_left: SEEK_RETRIES,
                }) && act == (FetchAction::SeekTo {
                    topic: old(self).topic,
                    partition_id: old(self).partition_id,
                    offset: old(self).phase->AwaitWarmup_effective,
                    backoff: false,
                }),
                Err(e) => final(self).phase == (FetchPhase::Done {
                    outcome: Err(FetchError::Assign { detail: e.message }),
                }) && act is Idle,
            },
    {
        let effective = match self.phase {
            FetchPhase::AwaitWarmup { effective } => effective,
            _ => 0,  // unreachable under the requires
        };
        match result {
            Ok(_) => {
                self.phase = FetchPhase::AwaitSeek { effective, retries_left: SEEK_RETRIES };
                FetchAction::SeekTo {
                    topic: self.topic.clone(),
                    partition_id: self.partition_id,
                    offset: effective,
                    backoff: false,
                }
            },
            Err(e) => {
                self.phase = FetchPhase::Done {
                    outcome: Err(FetchError::Assign { detail: e.message }),
                };
                FetchAction::Idle
            },
        }
    }

    /// Takes a seek outcome. The erroneous-state condition spends one retry
    /// and asks for the same seek again after a backoff; with the budget
    /// exhausted, or on any other failure, the protocol ends.
    pub fn on_seek(&mut self, outcome: SeekOutcome) -> (act: FetchAction)
        requires
            old(self).phase is AwaitSeek,
        ensures
            final(self).topic == old(self).topic,
            final(self).partition_id == old(self).partition_id,
            final(self).request == old(self).request,
            final(self).phase == spec_seek_step(old(self).phase, outcome),
            final(self).phase is AwaitSeek ==> act == (FetchAction::SeekTo {
                topic: old(self).topic,
                partition_id: old(self).partition_id,
                offset: old(self).phase->AwaitSeek_effective,
                backoff: true,
            }),
            final(self).phase is AwaitCapture ==> act is PollCapture,
            final(self).phase is Done ==> act is Idle,
    {
        let (effective, retries_left) = match self.phase {
            FetchPhase::AwaitSeek { effective, retries_left } => (effective, retries_left),
            _ => (0, 0),  // unreachable under the requires
        };
        match outcome {
            SeekOutcome::Success => {
                self.phase = FetchPhase::AwaitCapture { effective };
                FetchAction::PollCapture
            },
            SeekOutcome::ErroneousState { detail } => {
                if retries_left > 0 {
                    self.phase = FetchPhase::AwaitSeek {
                        effective,
                        retries_left: retries_left - 1,
                    };
                    FetchAction::SeekTo {
                        topic: self.topic.clone(),
                        partition_id: self.partition_id,
                        offset: effective,
                        backoff: true,
                    }
                } else {
                    self.phase = FetchPhase::Done {
                        outcome: Err(FetchError::Seek { detail }),
                    };
                    FetchAction::Idle
                }
            },
            SeekOutcome::Failed { detail } => {
                self.phase = FetchPhase::Done { outcome: Err(FetchError::Seek { detail }) };
                FetchAction::Idle
            },
        }
    }

    /// Takes the capture poll result: a message pins its offset as the
    /// outcome; none at all is a failure.
    pub fn on_capture(&mut self, got_message: bool) -> (act: FetchAction)
        requires
            old(self).phase is AwaitCapture,
        ensures
            final(self).topic == old(self).topic,
            final(self).partition_id == old(self).partition_id,
            final(self).request == old(self).request,
            got_message ==> final(self).phase == (FetchPhase::Done {
                outcome: Ok::<i64, FetchError>(old(self).phase->AwaitCapture_effective),
            }),
            !got_message ==> final(self).phase == (FetchPhase::Done {
                outcome: Err::<i64, FetchError>(FetchError::NoMessage),
            }),
            act is Idle,
    {
        let effective = match self.phase {
            FetchPhase::AwaitCapture { effective } => effective,
            _ => 0,  // unreachable under the requires
        };
        if got_message {
            self.phase = FetchPhase::Done { outcome: Ok(effective) };
        } else {
            self.phase = FetchPhase::Done { outcome: Err(FetchError::NoMessage) };
        }
        FetchAction::Idle
    }
}

/// Law: the seek is retried exactly up to the fixed bound on the
/// erroneous-state condition — three retries after the first attempt — and
/// not at all on any other seek error.
pub proof fn lemma_seek_retry_bound(
    effective: i64,
    d1: String,
    d2: String,
    d3: String,
    d4: String,
    other: String,
)
    ensures
        spec_seek_step(
            (FetchPhase::AwaitSeek { effective, retries_left: SEEK_RETRIES }),
            (SeekOutcome::ErroneousState { detail: d1 }),
        ) == (FetchPhase::AwaitSeek { effective, retries_left: 2 }),
        spec_seek_step(
            (FetchPhase::AwaitSeek { effective, retries_left: 2 }),
            (SeekOutcome::ErroneousState { detail: d2 }),
        ) == (FetchPhase::AwaitSeek { effective, retries_left: 1 }),
        spec_seek_step(
            (FetchPhase::AwaitSeek { effective, retries_left: 1 }),
            (SeekOutcome::ErroneousState { detail: d3 }),
        ) == (FetchPhase::AwaitSeek { effective, retries_left: 0 }),
        spec_seek_step(
            (FetchPhase::AwaitSeek { effective, retries_left: 0 }),
            (SeekOutcome::ErroneousState { detail: d4 }),
        ) == (FetchPhase::Done { outcome: Err::<i64, FetchError>(FetchError::Seek { detail: d4 }) }),
        forall|r: u64|
            spec_seek_step(
                (FetchPhase::AwaitSeek { effective, retries_left: r }),
                (SeekOutcome::Failed { detail: other }),
            ) == (FetchPhase::Done {
                outcome: Err::<i64, FetchError>(FetchError::Seek { detail: other }),
            }),
{
}

/// How one poll of the cluster client ended, as the retry logic sees it.
pub enum PollOutcome {
    /// A message arrived.
    Message,
    /// The broker-transport failure that is always retried a bounded
    /// number of times.
    TransportError { detail: String },
    /// Any other client error.
    OtherError { detail: String },
    /// The poll returned nothing within its timeout.
    Empty,
}

/// What the polling loop does next.
pub enum PollStep {
    /// Hand the message out.
    Deliver,
    /// Sleep the fixed backoff, then poll again.
    RetryAfterBackoff,
    /// Fail with the client's error.
    Fail { detail: String },
    /// Give up quietly: no message.
    GiveUpEmpty,
}

/// The decision after one poll: transport failures are retried while the
/// budget lasts, other errors never; an empty poll is retried only when the
/// caller asked for retries.
pub open spec fn spec_consume_poll_step(
    outcome: PollOutcome,
    retries_left: u64,
    with_retries: bool,
) -> PollStep {
    match outcome {
        PollOutcome::Message => PollStep::Deliver,
        PollOutcome::TransportError { detail } => if retries_left > 0 {
            PollStep::RetryAfterBackoff
        } else {
            (PollStep::Fail { detail })
        },
        PollOutcome::OtherError { detail } => (PollStep::Fail { detail }),
        PollOutcome::Empty => if retries_left > 0 && with_retries {
            PollStep::RetryAfterBackoff
        } else {
            PollStep::GiveUpEmpty
        },
    }
}

/// Decides what the polling loop does after one poll.
pub fn consume_poll_step(outcome: PollOutcome, retries_left: u64, with_retries: bool) -> (r:
    PollStep)
    ensures
        r == spec_consume_poll_step(outcome, retries_left, with_retries),
{
    match outcome {
        PollOutcome::Message => PollStep::Deliver,
        PollOutcome::TransportError { detail } => {
            if retries_left > 0 {
                PollStep::RetryAfterBackoff
            } else {
                PollStep::Fail { detail }
            }
        },
        PollOutcome::OtherError { detail } => PollStep::Fail { detail },
        PollOutcome::Empty => {
            if retries_left > 0 && with_retries {
                PollStep::RetryAfterBackoff
            } else {
                PollStep::GiveUpEmpty
            }
        },
    }
}

/// One element of the list the client returns for a timestamp lookup.
pub struct TplEntry {
    pub topic: String,
    pub partition: i32,
    pub offset: Option<i64>,
}

/// The offset of the first entry for the topic and partition, if any entry
/// matches and carries one.
pub open spec fn spec_offset_for_partition(
    entries: Seq<TplEntry>,
    topic: Seq<char>,
    partition: i32,
) -> Option<i64>
    decreases entries.len(),
{
    if entries.len() == 0 {
        None
    } else if entries[0].topic@ == topic && entries[0].partition == partition {
        entries[0].offset
    } else {
        spec_offset_for_partition(entries.drop_first(), topic, partition)
    }
}

/// Picks the offset for the topic and partition out of a timestamp-lookup
/// result: the first matching entry decides; no match, or a match without
/// an offset, yields nothing.
pub fn offset_for_partition(entries: &Vec<TplEntry>, topic: &str, partition: i32) -> (r: Option<
    i64,
>)
    ensures
        r == spec_offset_for_partition(entries@, topic@, partition),
{
    let ghost es = entries@;
    let mut i: usize = 0;
    proof {
        assert(es.skip(0) =~= es);
    }
    while i < entries.len()
        invariant
            i <= entries@.len(),
            es == entries@,
            spec_offset_for_partition(es, topic@, partition) == spec_offset_for_partition(
                es.skip(i as int),
                topic@,
                partition,
            ),
        decreases entries@.len() - i,
    {
        proof {
            assert(es.skip(i as int)[0] == es[i as int]);
            assert(es.skip(i as int).drop_first() =~= es.skip(i + 1));
        }
        if crate::strings::str_eq(entries[i].topic.as_str(), topic) && entries[i].partition
            == partition {
            return entries[i].offset;
        }
        i += 1;
    }
    proof {
        assert(es.skip(i as int).len() == 0);
    }
    None
}

} // verus!
