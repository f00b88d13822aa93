//! Turning a buffered candidate into a session while its audio is still coming in.
//!
//! Per chunk of audio the keyword model is fed, a local confirmation is started or collected,
//! and a phrase that holds up is passed to the voiceprint.  Each of these is outside work, so the
//! whole is a step function: a stage and the event it waited for give the next stage, the next
//! piece of outside work and the changed candidate.

use vstd::prelude::*;
use crate::audio::{embedded_feed_chunks, in_pieces};
use crate::candidate::{
    poll_wake_detector_init,
    polled,
    AbsentCoverage,
    BufferedSpeakerCandidate,
    BufferedSpeakerCandidateKind,
    DetectorPoll,
    DetectorPollResult,
    DetectorState,
    LocalConfirmationTask,
    NearPhraseEvidence,
    PendingAutomaticPhraseMatch,
    PhraseSignal,
    WakeMatch,
};
use crate::session::SessionId;
use crate::stream::{ActivationGuard, EmbeddedStreamingDictation, StreamError, StreamingSession};

verus! {

/// The thresholds of the wake path.
#[derive(Clone, Copy, Debug, PartialEq, Eq, Structural)]
pub struct WakeTuning {
    /// New audio that makes feeding the keyword model worthwhile.
    pub feed_batch_bytes: usize,
    /// Audio behind which a keyword is confirmed at once.
    pub immediate_confirm_min_bytes: usize,
    /// New audio behind which a keyword is confirmed again.
    pub confirm_retry_bytes: usize,
    /// Denials after which a keyword is not confirmed again.
    pub absent_reject_count: u32,
    /// Audio that a voiceprint needs.
    pub owner_verification_start_ms: usize,
    /// Whether a local recogniser confirms keywords on this desktop.
    pub confirms_locally: bool,
}

/// Why a candidate is given up.
#[derive(Clone, Copy, Debug, PartialEq, Eq, Structural)]
pub enum RejectReason {
    DetectorTaskFailed,
    DetectorFailed,
    VoiceprintNonMatch,
}

impl RejectReason {
    /// The label under which a rejection is reported.
    pub open spec fn name(self) -> Seq<char> {
        match self {
            RejectReason::DetectorTaskFailed => "wake_phrase_detector_task_failed"@,
            RejectReason::DetectorFailed => "wake_phrase_detector_failed"@,
            RejectReason::VoiceprintNonMatch => "voiceprint_non_match"@,
        }
    }

    /// The label under which a rejection is reported.
    pub fn label(self) -> (r: &'static str)
        ensures
            r@ == self.name(),
    {
        match self {
            RejectReason::DetectorTaskFailed => "wake_phrase_detector_task_failed",
            RejectReason::DetectorFailed => "wake_phrase_detector_failed",
            RejectReason::VoiceprintNonMatch => "voiceprint_non_match",
        }
    }
}

/// What became of a keyword that no confirmation has settled yet.
#[derive(Clone, Copy, Debug, PartialEq, Eq, Structural)]
pub enum PendingSecondaryDecision {
    AcceptKeywordModel,
    HoldAfterExplicitAbsent,
    AwaitSecondary,
}

/// What the ladder of exploratory confirmations says about another one.
#[derive(Clone, Copy, Debug, PartialEq, Eq, Structural)]
pub struct LadderEvidence {
    /// Audio from before the wake still comes in faster than it was spoken.
    pub deferred: bool,
    /// Earlier attempts and denials leave room for one.
    pub allowed: bool,
    /// The window is long enough for the next rung.
    pub rung_reached: bool,
}

impl LadderEvidence {
    /// Whether the ladder asks for a confirmation.
    pub open spec fn due(self) -> bool {
        !self.deferred && self.allowed && self.rung_reached
    }

    /// Whether the ladder asks for a confirmation.
    pub fn is_due(self) -> (r: bool)
        ensures
            r == self.due(),
    {
        !self.deferred && self.allowed && self.rung_reached
    }
}

/// Whether the window that a confirmation looked at is still of interest.
#[derive(Clone, Copy, Debug, PartialEq, Eq, Structural)]
pub struct WindowAge {
    /// The window has moved on since.
    pub stale: bool,
    /// What was found in it counts all the same.
    pub still_activates: bool,
}

impl WindowAge {
    /// Whether the confirmation is thrown away unread.
    pub open spec fn discards(self) -> bool {
        self.stale && !self.still_activates
    }

    /// Whether the confirmation is thrown away unread.
    pub fn is_discarded(self) -> (r: bool)
        ensures
            r == self.discards(),
    {
        self.stale && !self.still_activates
    }
}

/// The verdict of a finished local confirmation.
#[derive(Clone, Copy, Debug, PartialEq, Eq, Structural)]
pub enum ConfirmationVerdict {
    /// The whole phrase is in the transcript, and may activate or only back a keyword.
    Matched { may_activate: bool },
    /// The phrase is not in the transcript.
    Unmatched {
        /// Part of the phrase was observed.
        partial_phrase: bool,
        /// How close to the phrase the transcript comes.
        near: NearPhraseEvidence,
        /// The owner's voice may vouch for a near match.
        live_owner_near: bool,
        /// The counters of explicit denials afterwards.
        kws_absent_count: u32,
        local_absent_count: u32,
        /// Where the phrase is known to be absent afterwards.
        absent_coverage: Option<AbsentCoverage>,
    },
    /// The recogniser was busy; it is asked again later.
    Busy,
    /// The recogniser could not answer; `may_trust_keyword` tells whether too many denials
    /// stand against the keyword already.
    Unavailable { may_trust_keyword: bool },
}

/// What a live release waits for.
#[derive(Clone, Copy, Debug, PartialEq, Eq, Structural)]
pub enum ReleaseStage {
    Entry,
    Detector,
    Feed,
    Plan { kws_hit: bool },
    Poll { kws_hit: bool },
    Judge { kws_hit: bool, task: LocalConfirmationTask },
    Secondary,
    OwnerWindow { wake_match: WakeMatch, phrase_signal: PhraseSignal, local_confirmation_ms: u64 },
    Verify { phrase: PendingAutomaticPhraseMatch },
    Locate { phrase: PendingAutomaticPhraseMatch },
    /// Of the buffer the audio from `from` on is retained.
    Begin { from: usize },
    Promote { session_id: SessionId, from: usize },
    Activate { session_id: SessionId, from: usize },
    Done,
}

/// What came back from the outside work that a live release waited for.
#[derive(Clone, Copy, Debug, PartialEq, Eq, Structural)]
pub enum ReleaseEvent {
    /// Audio arrived; a separated owner track may have been found in the meantime.
    Chunk { extracted: Option<PendingAutomaticPhraseMatch> },
    /// The detector was polled.  The keyword stream may start over at `rotation_start`.
    DetectorPolled { poll: DetectorPoll, rotation_start: Option<usize> },
    /// The task that ran the keyword model failed.
    FeedTaskFailed,
    /// The keyword model ran: it heard the phrase or not, or failed on the audio.
    Fed {
        heard: Option<bool>,
        step_ms: u64,
        stream_origin_bytes: usize,
        advance_window: bool,
        now: u64,
    },
    /// The schedule of confirmations was consulted.
    Planned { ladder: LadderEvidence, prefix_retry_due: bool, now: u64 },
    /// The running confirmation, if any, was polled.
    ConfirmationPolled { finished: bool },
    /// A finished confirmation was judged.
    Judged { age: WindowAge, verdict: ConfirmationVerdict, inference_ms: u64 },
    /// A keyword without a finished confirmation was weighed.
    SecondaryWeighed(PendingSecondaryDecision),
    /// Whether the buffer is long enough for a voiceprint.
    OwnerWindowChecked { ready: bool },
    /// The voiceprint was compared, and phrase and voice were weighed together.
    OwnerWeighed { accepted: bool, separation_running: bool, retry_at_ms: Option<usize> },
    /// Where the phrase ends, and from where on audio is kept: the anchor lies just before the
    /// phrase.
    PhraseLocated { post_wake_offset: usize, anchor_offset: usize },
    /// A session was opened for the released audio, or could not be.
    SessionBegun(Option<SessionId>),
    /// The recording lifecycle admitted the session as the owner, or not.
    LifecycleAnswered { promoted: bool },
    /// The session was activated, or had been cancelled.
    SessionActivated { active: bool },
}

/// The outside work that is to be done next.
#[derive(Clone, Copy, Debug, PartialEq, Eq, Structural)]
pub enum ReleaseAction {
    PollDetector,
    /// Run the keyword model on the audio from `from` on; a fresh detector is tried where
    /// `fresh` says so, and the audio from `otherwise_from` on goes to the old one if that fails.
    FeedKeywordModel { from: usize, otherwise_from: usize, fresh: bool },
    /// Consult the schedule of confirmations, which starts over where `window_moved` says that
    /// the window did.
    ConsultSchedule { window_moved: bool },
    /// Start a confirmation on the audio from `origin_bytes` on, then poll it; the schedule
    /// learns whether it was due to a prefix that was heard.
    StartConfirmation { origin_bytes: usize, exploratory: bool, prefix_retry: bool },
    PollConfirmation,
    JudgeConfirmation,
    WeighSecondary,
    CheckOwnerWindow { show_capsule: bool },
    VerifyOwner,
    /// Activate the device, take the candidate out of the stream and locate the phrase;
    /// `calibrate` tells whether the keyword model may learn from it.
    LocatePhrase { calibrate: bool },
    /// Open a session; `post_wake_bytes` of the retained audio follow the phrase.
    OpenSession { post_wake_bytes: usize },
    PromoteToOwner { session_id: SessionId },
    ActivateSession { session_id: SessionId },
    /// Close the candidate, undo the session, and report that the lifecycle refused it.
    UndoRefusedSession { session_id: SessionId },
    /// Close the owner and report that the session was cancelled.
    UndoCancelledSession { session_id: SessionId },
    /// Report that no session could be opened.
    ReportNoSession,
    Reject { reason: RejectReason, dismiss_capsule: Option<SessionId> },
    /// Nothing more until the next chunk.
    Wait { dismiss_capsule: Option<SessionId> },
    /// The session owns the recording, and is handed the retained audio: the `bytes` bytes that
    /// followed `from` in the buffer.
    Released { session_id: SessionId, from: usize, bytes: usize },
}

impl ReleaseAction {
    /// The error that an action reports for the device segment it is about.
    pub fn error(self, embedded_session_id: u32) -> (r: Option<StreamError>)
        ensures
            r == (match self {
                ReleaseAction::UndoRefusedSession { session_id } => Some(
                    StreamError::WakeRefused { embedded_session_id, session_id },
                ),
                ReleaseAction::UndoCancelledSession { session_id } => Some(
                    StreamError::WakeCancelled,
                ),
                _ => None,
            }),
    {
        match self {
            ReleaseAction::UndoRefusedSession { session_id } => Some(
                StreamError::WakeRefused { embedded_session_id, session_id },
            ),
            ReleaseAction::UndoCancelledSession { session_id: _ } => Some(
                StreamError::WakeCancelled,
            ),
            _ => None,
        }
    }
}

impl ReleaseAction {
    /// The pieces of the retained audio that a released session is handed, in order; nothing for
    /// any other action.
    pub fn feed(self) -> (r: Vec<(usize, usize)>)
        ensures
            in_pieces(
                r@,
                match self {
                    ReleaseAction::Released { bytes, .. } => bytes as int,
                    _ => 0,
                },
            ),
    {
        match self {
            ReleaseAction::Released { session_id: _, from: _, bytes } => embedded_feed_chunks(bytes),
            _ => embedded_feed_chunks(0),
        }
    }
}

impl EmbeddedStreamingDictation {
    /// Takes the outcome of a round of the live release into the stream, and tells whether the
    /// candidate was released.  Where it was, its session is guarded against the end of the
    /// segment that woke it.  Where a session could not be kept, the candidate is gone and an
    /// error is reported (`None`).  A round that ended without a session leaves the candidate.
    pub fn settle_release(
        &mut self,
        candidate: BufferedSpeakerCandidate,
        action: ReleaseAction,
        embedded_session_id: u32,
        now: u64,
    ) -> (r: Option<bool>)
        requires
            old(self).wf(),
            old(self).session is None,
            candidate.wf(),
        ensures
            final(self).wf(),
            action matches ReleaseAction::Released { session_id, .. } ==> {
                &&& r == Some(true)
                &&& *final(self) == (EmbeddedStreamingDictation {
                    session: Some(
                        (StreamingSession {
                            session_id,
                            proactive_stop_body_started: false,
                            proactive_stop_silence_ms: 0,
                            proactive_stop_dispatched: false,
                        }),
                    ),
                    speaker_candidate: None,
                    activation_segment_race_guard: Some(
                        (ActivationGuard { segment_id: embedded_session_id, activated_at: now }),
                    ),
                    ..*old(self)
                })
            },
            action is UndoRefusedSession || action is UndoCancelledSession || action
                is ReportNoSession ==> r == None::<bool> && *final(self) == (
            EmbeddedStreamingDictation { speaker_candidate: None, ..*old(self) }),
            action !is Released && action !is UndoRefusedSession && action !is UndoCancelledSession
                && action !is ReportNoSession ==> r == Some(false) && *final(self) == (
            EmbeddedStreamingDictation { speaker_candidate: Some(candidate), ..*old(self) }),
    {
        match action {
            ReleaseAction::Released { session_id, .. } => {
                self.adopt_released_session(session_id, Some(embedded_session_id), now);
                Some(true)
            },
            ReleaseAction::UndoRefusedSession { .. } => {
                self.speaker_candidate = None;
                None
            },
            ReleaseAction::UndoCancelledSession { .. } => {
                self.speaker_candidate = None;
                None
            },
            ReleaseAction::ReportNoSession => {
                self.speaker_candidate = None;
                None
            },
            _ => {
                self.speaker_candidate = Some(candidate);
                Some(false)
            },
        }
    }
}

/// One step of a live release.
#[derive(Clone, Copy, Debug, PartialEq, Eq, Structural)]
pub struct ReleaseStep {
    pub stage: ReleaseStage,
    pub action: ReleaseAction,
}

/// The events that can arrive in a stage, with positions that lie inside the buffer.
pub open spec fn awaits(
    candidate: BufferedSpeakerCandidate,
    stage: ReleaseStage,
    event: ReleaseEvent,
) -> bool {
    match stage {
        ReleaseStage::Entry => event is Chunk,
        ReleaseStage::Detector => event matches ReleaseEvent::DetectorPolled {
            poll,
            rotation_start,
        } && (rotation_start matches Some(at) ==> at <= candidate.pcm_bytes),
        ReleaseStage::Feed => event is FeedTaskFailed || (event matches ReleaseEvent::Fed {
            stream_origin_bytes,
            ..
        } && stream_origin_bytes <= candidate.pcm_bytes),
        ReleaseStage::Plan { kws_hit } => event is Planned,
        ReleaseStage::Poll { kws_hit } => event is ConfirmationPolled,
        ReleaseStage::Judge { kws_hit, task } => event is Judged,
        ReleaseStage::Secondary => event is SecondaryWeighed,
        ReleaseStage::OwnerWindow { wake_match, phrase_signal, local_confirmation_ms } => event
            is OwnerWindowChecked,
        ReleaseStage::Verify { phrase } => event is OwnerWeighed,
        ReleaseStage::Locate { phrase } => event matches ReleaseEvent::PhraseLocated {
            post_wake_offset,
            anchor_offset,
        } && anchor_offset <= candidate.pcm_bytes,
        ReleaseStage::Begin { from } => event is SessionBegun,
        ReleaseStage::Promote { session_id, from } => event is LifecycleAnswered,
        ReleaseStage::Activate { session_id, from } => event is SessionActivated,
        ReleaseStage::Done => false,
    }
}

/// Whether an event can arrive in a stage, with positions that lie inside the buffer.
pub fn event_is_awaited(
    candidate: &BufferedSpeakerCandidate,
    stage: ReleaseStage,
    event: ReleaseEvent,
) -> (r: bool)
    ensures
        r == awaits(*candidate, stage, event),
{
    match stage {
        ReleaseStage::Entry => matches!(event, ReleaseEvent::Chunk { .. }),
        ReleaseStage::Detector => match event {
            ReleaseEvent::DetectorPolled { rotation_start, .. } => match rotation_start {
                Some(at) => at <= candidate.pcm_bytes,
                None => true,
            },
            _ => false,
        },
        ReleaseStage::Feed => match event {
            ReleaseEvent::FeedTaskFailed => true,
            ReleaseEvent::Fed { stream_origin_bytes, .. } => stream_origin_bytes
                <= candidate.pcm_bytes,
            _ => false,
        },
        ReleaseStage::Plan { .. } => matches!(event, ReleaseEvent::Planned { .. }),
        ReleaseStage::Poll { .. } => matches!(event, ReleaseEvent::ConfirmationPolled { .. }),
        ReleaseStage::Judge { .. } => matches!(event, ReleaseEvent::Judged { .. }),
        ReleaseStage::Secondary => matches!(event, ReleaseEvent::SecondaryWeighed(_)),
        ReleaseStage::OwnerWindow { .. } => matches!(event, ReleaseEvent::OwnerWindowChecked { .. }),
        ReleaseStage::Verify { .. } => matches!(event, ReleaseEvent::OwnerWeighed { .. }),
        ReleaseStage::Locate { .. } => match event {
            ReleaseEvent::PhraseLocated { anchor_offset, .. } => anchor_offset
                <= candidate.pcm_bytes,
            _ => false,
        },
        ReleaseStage::Begin { .. } => matches!(event, ReleaseEvent::SessionBegun(_)),
        ReleaseStage::Promote { .. } => matches!(event, ReleaseEvent::LifecycleAnswered { .. }),
        ReleaseStage::Activate { .. } => matches!(event, ReleaseEvent::SessionActivated { .. }),
        ReleaseStage::Done => false,
    }
}

/// Wait for the next chunk.
pub open spec fn waiting() -> ReleaseStep {
    ReleaseStep {
        stage: ReleaseStage::Done,
        action: ReleaseAction::Wait { dismiss_capsule: None },
    }
}

/// Go on to `stage` with `action`.
pub open spec fn go(stage: ReleaseStage, action: ReleaseAction) -> ReleaseStep {
    ReleaseStep { stage, action }
}

/// Give the candidate up.
pub open spec fn rejection(reason: RejectReason) -> ReleaseStep {
    ReleaseStep {
        stage: ReleaseStage::Done,
        action: ReleaseAction::Reject { reason, dismiss_capsule: None },
    }
}

/// Look for a phrase that waits for a longer buffer.
pub open spec fn entered(
    c: BufferedSpeakerCandidate,
    extracted: Option<PendingAutomaticPhraseMatch>,
) -> (BufferedSpeakerCandidate, ReleaseStep) {
    let pending = if c.pending_phrase_match is Some {
        c.pending_phrase_match
    } else {
        extracted
    };
    let held = BufferedSpeakerCandidate { pending_phrase_match: pending, ..c };
    if c.kind != BufferedSpeakerCandidateKind::Verification {
        (held, waiting())
    } else {
        match pending {
            Some(phrase) => if c.audio_ms() < phrase.owner_verification_start_ms {
                (held, waiting())
            } else {
                (
                    BufferedSpeakerCandidate { pending_phrase_match: None, ..c },
                    go(ReleaseStage::Verify { phrase }, ReleaseAction::VerifyOwner),
                )
            },
            None => (held, go(ReleaseStage::Detector, ReleaseAction::PollDetector)),
        }
    }
}

/// Feed the keyword model once it is loaded and enough new audio is there.
pub open spec fn feeding(
    c: BufferedSpeakerCandidate,
    poll: DetectorPoll,
    rotation_start: Option<usize>,
    tuning: WakeTuning,
) -> (BufferedSpeakerCandidate, ReleaseStep) {
    let p = polled(c, poll);
    if p.detector != DetectorState::Ready {
        (
            p,
            go(
                ReleaseStage::Done,
                ReleaseAction::Wait {
                    dismiss_capsule: if c.detector == DetectorState::Loading && poll
                        == DetectorPoll::Failed {
                        c.early_capsule_session_id
                    } else {
                        None
                    },
                },
            ),
        )
    } else if c.pcm_bytes - c.kws_fed_bytes < tuning.feed_batch_bytes {
        (p, waiting())
    } else {
        (
            BufferedSpeakerCandidate {
                detector: DetectorState::Missing,
                kws_fed_bytes: c.pcm_bytes,
                ..p
            },
            go(
                ReleaseStage::Feed,
                ReleaseAction::FeedKeywordModel {
                    from: match rotation_start {
                        Some(at) => at,
                        None => c.kws_fed_bytes,
                    },
                    otherwise_from: c.kws_fed_bytes,
                    fresh: rotation_start is Some,
                },
            ),
        )
    }
}

/// The candidate after the keyword model ran.
pub open spec fn fed(
    c: BufferedSpeakerCandidate,
    heard: bool,
    step_ms: u64,
    stream_origin_bytes: usize,
    advance_window: bool,
    now: u64,
) -> BufferedSpeakerCandidate {
    let first = heard && c.kws_first_hit_at is None;
    BufferedSpeakerCandidate {
        detector: DetectorState::Ready,
        kws_stream_origin_bytes: stream_origin_bytes,
        kws_total_ms: crate::endpoint::capped_sum(c.kws_total_ms, step_ms) as u64,
        local_confirmation_window_origin_bytes: if advance_window {
            stream_origin_bytes
        } else {
            c.local_confirmation_window_origin_bytes
        },
        local_confirmation_attempts: if advance_window {
            0
        } else {
            c.local_confirmation_attempts
        },
        local_confirmation_last_snapshot_bytes: if advance_window {
            0
        } else {
            c.local_confirmation_last_snapshot_bytes
        },
        kws_phrase_detected: c.kws_phrase_detected || heard,
        kws_first_hit_at: if first {
            Some(now)
        } else {
            c.kws_first_hit_at
        },
        kws_first_hit_pcm_ms: if first {
            Some(c.audio_ms())
        } else {
            c.kws_first_hit_pcm_ms
        },
        ..c
    }
}

/// Audio of the confirmation window that no confirmation has seen yet.
pub open spec fn unseen_audio(c: BufferedSpeakerCandidate) -> int {
    let window = c.pcm_bytes - c.local_confirmation_window_origin_bytes;
    if window >= c.local_confirmation_last_snapshot_bytes {
        window - c.local_confirmation_last_snapshot_bytes
    } else {
        0
    }
}

/// Whether a keyword asks for a confirmation: the first time as soon as there is enough audio,
/// later when enough new audio came and not too many denials stand against it.
pub open spec fn keyword_asks(
    c: BufferedSpeakerCandidate,
    kws_hit: bool,
    tuning: WakeTuning,
) -> bool {
    kws_hit && (if c.kws_prompted_local_confirm {
        unseen_audio(c) >= tuning.confirm_retry_bytes && c.kws_local_absent_count
            < tuning.absent_reject_count
    } else {
        c.pcm_bytes >= tuning.immediate_confirm_min_bytes && unseen_audio(c) > 0
    })
}

/// Start a confirmation where the schedule or a keyword asks for one and none is running.
pub open spec fn planning(
    c: BufferedSpeakerCandidate,
    kws_hit: bool,
    ladder: LadderEvidence,
    prefix_retry_due: bool,
    now: u64,
    tuning: WakeTuning,
) -> (BufferedSpeakerCandidate, ReleaseStep) {
    let asks = keyword_asks(c, kws_hit, tuning);
    if c.local_confirmation_task is None && (ladder.due() || asks || prefix_retry_due) {
        let origin = if kws_hit {
            0
        } else {
            c.local_confirmation_window_origin_bytes
        };
        (
            BufferedSpeakerCandidate {
                local_confirmation_task: Some(
                    (LocalConfirmationTask {
                        origin_bytes: origin,
                        has_keyword_model_hit: kws_hit,
                        started_at: now,
                    }),
                ),
                local_confirmation_attempts: if ladder.due() && c.local_confirmation_attempts
                    < u32::MAX {
                    (c.local_confirmation_attempts + 1) as u32
                } else {
                    c.local_confirmation_attempts
                },
                local_confirmation_last_snapshot_bytes: (c.pcm_bytes
                    - c.local_confirmation_window_origin_bytes) as usize,
                kws_prompted_local_confirm: c.kws_prompted_local_confirm || asks,
                ..c
            },
            go(
                ReleaseStage::Poll { kws_hit },
                ReleaseAction::StartConfirmation {
                    origin_bytes: origin,
                    exploratory: !kws_hit,
                    prefix_retry: prefix_retry_due,
                },
            ),
        )
    } else {
        (c, go(ReleaseStage::Poll { kws_hit }, ReleaseAction::PollConfirmation))
    }
}

/// Collect a confirmation that has finished; otherwise weigh a keyword without one.
pub open spec fn collected(
    c: BufferedSpeakerCandidate,
    kws_hit: bool,
    finished: bool,
) -> (BufferedSpeakerCandidate, ReleaseStep) {
    if finished && c.local_confirmation_task is Some {
        (
            BufferedSpeakerCandidate { local_confirmation_task: None, ..c },
            go(
                ReleaseStage::Judge { kws_hit, task: c.local_confirmation_task->0 },
                ReleaseAction::JudgeConfirmation,
            ),
        )
    } else if kws_hit {
        (c, go(ReleaseStage::Secondary, ReleaseAction::WeighSecondary))
    } else {
        (c, waiting())
    }
}

/// Adds one to a counter that stops at its maximum.
pub open spec fn one_more(count: u32) -> u32 {
    if count < u32::MAX {
        (count + 1) as u32
    } else {
        count
    }
}

/// The candidate after a confirmation that did not find the phrase.
pub open spec fn denied(
    c: BufferedSpeakerCandidate,
    partial_phrase: bool,
    near: NearPhraseEvidence,
    live_owner_near: bool,
    kws_absent_count: u32,
    local_absent_count: u32,
    absent_coverage: Option<AbsentCoverage>,
) -> BufferedSpeakerCandidate {
    BufferedSpeakerCandidate {
        local_partial_phrase_confirmations: if partial_phrase {
            one_more(c.local_partial_phrase_confirmations)
        } else {
            c.local_partial_phrase_confirmations
        },
        owner_near_phrase_confirmations: if near.near() {
            one_more(c.owner_near_phrase_confirmations)
        } else {
            c.owner_near_phrase_confirmations
        },
        kws_local_absent_count: if live_owner_near {
            c.kws_local_absent_count
        } else {
            kws_absent_count
        },
        local_absent_count: if live_owner_near {
            c.local_absent_count
        } else {
            local_absent_count
        },
        local_absent_coverage: if live_owner_near {
            c.local_absent_coverage
        } else {
            absent_coverage
        },
        ..c
    }
}

/// A phrase that goes on to the voiceprint.
pub open spec fn phrase_found(
    wake_match: WakeMatch,
    phrase_signal: PhraseSignal,
    local_confirmation_ms: u64,
    show_capsule: bool,
) -> ReleaseStep {
    go(
        ReleaseStage::OwnerWindow { wake_match, phrase_signal, local_confirmation_ms },
        ReleaseAction::CheckOwnerWindow { show_capsule },
    )
}

/// What follows from a finished confirmation that counts.
pub open spec fn judged(
    c: BufferedSpeakerCandidate,
    kws_hit: bool,
    task: LocalConfirmationTask,
    verdict: ConfirmationVerdict,
    inference_ms: u64,
) -> (BufferedSpeakerCandidate, ReleaseStep) {
    match verdict {
        ConfirmationVerdict::Busy => (c, waiting()),
        ConfirmationVerdict::Matched { may_activate } => if may_activate {
            (
                c,
                phrase_found(
                    WakeMatch::LocalTranscript {
                        origin_bytes: if task.has_keyword_model_hit {
                            0
                        } else {
                            task.origin_bytes
                        },
                        refines_keyword: kws_hit,
                    },
                    PhraseSignal::LocalTranscript,
                    inference_ms,
                    true,
                ),
            )
        } else {
            (BufferedSpeakerCandidate { local_kws_fusion_evidence: true, ..c }, waiting())
        },
        ConfirmationVerdict::Unmatched {
            partial_phrase,
            near,
            live_owner_near,
            kws_absent_count,
            local_absent_count,
            absent_coverage,
        } => (
            denied(
                c,
                partial_phrase,
                near,
                live_owner_near,
                kws_absent_count,
                local_absent_count,
                absent_coverage,
            ),
            if live_owner_near {
                phrase_found(
                    WakeMatch::OwnerNear { origin_bytes: task.origin_bytes },
                    PhraseSignal::LocalTranscript,
                    inference_ms,
                    false,
                )
            } else {
                waiting()
            },
        ),
        ConfirmationVerdict::Unavailable { may_trust_keyword } => (
            c,
            if kws_hit && may_trust_keyword {
                phrase_found(WakeMatch::Keyword, PhraseSignal::KeywordModel, 0, false)
            } else {
                waiting()
            },
        ),
    }
}

/// What follows once phrase and voice were weighed together.
pub open spec fn weighed(
    c: BufferedSpeakerCandidate,
    phrase: PendingAutomaticPhraseMatch,
    accepted: bool,
    separation_running: bool,
    retry_at_ms: Option<usize>,
) -> (BufferedSpeakerCandidate, ReleaseStep) {
    if accepted {
        (
            c,
            go(
                ReleaseStage::Locate { phrase },
                ReleaseAction::LocatePhrase {
                    calibrate: phrase.phrase_signal == PhraseSignal::KeywordModel,
                },
            ),
        )
    } else if separation_running {
        (
            BufferedSpeakerCandidate {
                pending_phrase_match: Some(
                    (PendingAutomaticPhraseMatch {
                        owner_verification_start_ms: (c.audio_ms() + 1) as usize,
                        owner_verified_by_extraction: false,
                        ..phrase
                    }),
                ),
                ..c
            },
            waiting(),
        )
    } else if retry_at_ms is Some {
        (
            BufferedSpeakerCandidate {
                pending_phrase_match: Some(
                    (PendingAutomaticPhraseMatch {
                        owner_verification_start_ms: retry_at_ms->0,
                        ..phrase
                    }),
                ),
                ..c
            },
            waiting(),
        )
    } else {
        (c.given_up(), rejection(RejectReason::VoiceprintNonMatch))
    }
}

/// The audio behind a position.
pub open spec fn bytes_behind(length: usize, position: usize) -> usize {
    if length >= position {
        (length - position) as usize
    } else {
        0
    }
}

/// The candidate and the step that follow an event.
pub open spec fn next(
    c: BufferedSpeakerCandidate,
    stage: ReleaseStage,
    event: ReleaseEvent,
    tuning: WakeTuning,
) -> (BufferedSpeakerCandidate, ReleaseStep) {
    match (stage, event) {
        (ReleaseStage::Entry, ReleaseEvent::Chunk { extracted }) => entered(c, extracted),
        (ReleaseStage::Detector, ReleaseEvent::DetectorPolled { poll, rotation_start }) => feeding(
            c,
            poll,
            rotation_start,
            tuning,
        ),
        (ReleaseStage::Feed, ReleaseEvent::Fed {
            heard,
            step_ms,
            stream_origin_bytes,
            advance_window,
            now,
        }) => match heard {
            None => (
                fed(c, false, step_ms, stream_origin_bytes, advance_window, now).given_up(),
                rejection(RejectReason::DetectorFailed),
            ),
            Some(hit) => (
                fed(c, hit, step_ms, stream_origin_bytes, advance_window, now),
                if tuning.confirms_locally {
                    go(
                        ReleaseStage::Plan { kws_hit: hit },
                        ReleaseAction::ConsultSchedule { window_moved: advance_window },
                    )
                } else if hit {
                    phrase_found(WakeMatch::Keyword, PhraseSignal::KeywordModel, 0, false)
                } else {
                    waiting()
                },
            ),
        },
        (ReleaseStage::Feed, _) => (
            c.given_up(),
            rejection(RejectReason::DetectorTaskFailed),
        ),
        (ReleaseStage::Plan { kws_hit }, ReleaseEvent::Planned {
            ladder,
            prefix_retry_due,
            now,
        }) => planning(c, kws_hit, ladder, prefix_retry_due, now, tuning),
        (ReleaseStage::Poll { kws_hit }, ReleaseEvent::ConfirmationPolled { finished }) =>
            collected(c, kws_hit, finished),
        (ReleaseStage::Judge { kws_hit, task }, ReleaseEvent::Judged {
            age,
            verdict,
            inference_ms,
        }) => if age.discards() {
            (c, waiting())
        } else {
            judged(c, kws_hit, task, verdict, inference_ms)
        },
        (ReleaseStage::Secondary, ReleaseEvent::SecondaryWeighed(decision)) => (
            c,
            if decision == PendingSecondaryDecision::AcceptKeywordModel {
                phrase_found(WakeMatch::Keyword, PhraseSignal::KeywordModel, 0, false)
            } else {
                waiting()
            },
        ),
        (
            ReleaseStage::OwnerWindow { wake_match, phrase_signal, local_confirmation_ms },
            ReleaseEvent::OwnerWindowChecked { ready },
        ) => {
            let phrase = PendingAutomaticPhraseMatch {
                wake_match,
                phrase_signal,
                local_confirmation_ms,
                owner_verification_start_ms: tuning.owner_verification_start_ms,
                owner_verified_by_extraction: false,
            };
            if ready {
                (c, go(ReleaseStage::Verify { phrase }, ReleaseAction::VerifyOwner))
            } else {
                (
                    BufferedSpeakerCandidate { pending_phrase_match: Some(phrase), ..c },
                    waiting(),
                )
            }
        },
        (ReleaseStage::Verify { phrase }, ReleaseEvent::OwnerWeighed {
            accepted,
            separation_running,
            retry_at_ms,
        }) => weighed(c, phrase, accepted, separation_running, retry_at_ms),
        (ReleaseStage::Locate { phrase }, ReleaseEvent::PhraseLocated {
            post_wake_offset,
            anchor_offset,
        }) => (
            c.kept_from(anchor_offset),
            go(
                ReleaseStage::Begin { from: anchor_offset },
                ReleaseAction::OpenSession {
                    post_wake_bytes: bytes_behind(c.pcm_bytes, post_wake_offset),
                },
            ),
        ),
        (ReleaseStage::Begin { from }, ReleaseEvent::SessionBegun(begun)) => (
            c,
            match begun {
                Some(session_id) => go(
                    ReleaseStage::Promote { session_id, from },
                    ReleaseAction::PromoteToOwner { session_id },
                ),
                None => go(ReleaseStage::Done, ReleaseAction::ReportNoSession),
            },
        ),
        (ReleaseStage::Promote { session_id, from }, ReleaseEvent::LifecycleAnswered {
            promoted,
        }) => (
            c,
            if promoted {
                go(
                    ReleaseStage::Activate { session_id, from },
                    ReleaseAction::ActivateSession { session_id },
                )
            } else {
                go(ReleaseStage::Done, ReleaseAction::UndoRefusedSession { session_id })
            },
        ),
        (ReleaseStage::Activate { session_id, from }, ReleaseEvent::SessionActivated {
            active,
        }) => (
            c,
            if active {
                go(
                    ReleaseStage::Done,
                    ReleaseAction::Released { session_id, from, bytes: c.pcm_bytes },
                )
            } else {
                go(ReleaseStage::Done, ReleaseAction::UndoCancelledSession { session_id })
            },
        ),
        _ => (c, waiting()),
    }
}

fn wait_step() -> (r: ReleaseStep)
    ensures
        r == waiting(),
{
    ReleaseStep {
        stage: ReleaseStage::Done,
        action: ReleaseAction::Wait { dismiss_capsule: None },
    }
}

fn on(stage: ReleaseStage, action: ReleaseAction) -> (r: ReleaseStep)
    ensures
        r == go(stage, action),
{
    ReleaseStep { stage, action }
}

fn reject(candidate: &mut BufferedSpeakerCandidate, reason: RejectReason) -> (r: ReleaseStep)
    ensures
        *final(candidate) == old(candidate).given_up(),
        r == rejection(reason),
{
    candidate.give_up();
    ReleaseStep {
        stage: ReleaseStage::Done,
        action: ReleaseAction::Reject { reason, dismiss_capsule: None },
    }
}

fn found(
    wake_match: WakeMatch,
    phrase_signal: PhraseSignal,
    local_confirmation_ms: u64,
    show_capsule: bool,
) -> (r: ReleaseStep)
    ensures
        r == phrase_found(wake_match, phrase_signal, local_confirmation_ms, show_capsule),
{
    on(
        ReleaseStage::OwnerWindow { wake_match, phrase_signal, local_confirmation_ms },
        ReleaseAction::CheckOwnerWindow { show_capsule },
    )
}

fn enter(
    candidate: &mut BufferedSpeakerCandidate,
    extracted: Option<PendingAutomaticPhraseMatch>,
) -> (r: ReleaseStep)
    ensures
        (*final(candidate), r) == entered(*old(candidate), extracted),
{
    if candidate.pending_phrase_match.is_none() {
        candidate.pending_phrase_match = extracted;
    }
    if candidate.kind != BufferedSpeakerCandidateKind::Verification {
        return wait_step();
    }
    match candidate.pending_phrase_match {
        Some(phrase) => {
            if candidate.pcm_bytes / 32 < phrase.owner_verification_start_ms {
                return wait_step();
            }
            candidate.pending_phrase_match = None;
            on(ReleaseStage::Verify { phrase }, ReleaseAction::VerifyOwner)
        },
        None => on(ReleaseStage::Detector, ReleaseAction::PollDetector),
    }
}

fn feed(
    candidate: &mut BufferedSpeakerCandidate,
    poll: DetectorPoll,
    rotation_start: Option<usize>,
    tuning: WakeTuning,
) -> (r: ReleaseStep)
    requires
        old(candidate).wf(),
        old(candidate).kind != BufferedSpeakerCandidateKind::Rejected,
    ensures
        (*final(candidate), r) == feeding(*old(candidate), poll, rotation_start, tuning),
{
    let result: DetectorPollResult = poll_wake_detector_init(candidate, poll);
    if !result.ready {
        return on(
            ReleaseStage::Done,
            ReleaseAction::Wait { dismiss_capsule: result.dismiss_capsule },
        );
    }
    if candidate.pcm_bytes - candidate.kws_fed_bytes < tuning.feed_batch_bytes {
        return wait_step();
    }
    let fed_until: usize = candidate.kws_fed_bytes;
    candidate.detector = DetectorState::Missing;
    candidate.kws_fed_bytes = candidate.pcm_bytes;
    let from: usize = match rotation_start {
        Some(at) => at,
        None => fed_until,
    };
    on(
        ReleaseStage::Feed,
        ReleaseAction::FeedKeywordModel {
            from,
            otherwise_from: fed_until,
            fresh: rotation_start.is_some(),
        },
    )
}

fn note_fed(
    candidate: &mut BufferedSpeakerCandidate,
    heard: bool,
    step_ms: u64,
    stream_origin_bytes: usize,
    advance_window: bool,
    now: u64,
)
    ensures
        *final(candidate) == fed(
            *old(candidate),
            heard,
            step_ms,
            stream_origin_bytes,
            advance_window,
            now,
        ),
{
    candidate.detector = DetectorState::Ready;
    candidate.kws_stream_origin_bytes = stream_origin_bytes;
    candidate.kws_total_ms = candidate.kws_total_ms.saturating_add(step_ms);
    if advance_window {
        candidate.local_confirmation_window_origin_bytes = stream_origin_bytes;
        candidate.local_confirmation_attempts = 0;
        candidate.local_confirmation_last_snapshot_bytes = 0;
    }
    if heard {
        candidate.kws_phrase_detected = true;
        if candidate.kws_first_hit_at.is_none() {
            candidate.kws_first_hit_at = Some(now);
            candidate.kws_first_hit_pcm_ms = Some(candidate.pcm_bytes / 32);
        }
    }
}

fn plan(
    candidate: &mut BufferedSpeakerCandidate,
    kws_hit: bool,
    ladder: LadderEvidence,
    prefix_retry_due: bool,
    now: u64,
    tuning: WakeTuning,
) -> (r: ReleaseStep)
    requires
        old(candidate).wf(),
        old(candidate).kind != BufferedSpeakerCandidateKind::Rejected,
    ensures
        (*final(candidate), r) == planning(
            *old(candidate),
            kws_hit,
            ladder,
            prefix_retry_due,
            now,
            tuning,
        ),
{
    if candidate.local_confirmation_task.is_some() {
        return on(ReleaseStage::Poll { kws_hit }, ReleaseAction::PollConfirmation);
    }
    let ladder_due: bool = ladder.is_due();
    let window: usize = candidate.pcm_bytes - candidate.local_confirmation_window_origin_bytes;
    let unseen: usize = window.saturating_sub(candidate.local_confirmation_last_snapshot_bytes);
    let immediate: bool = kws_hit && !candidate.kws_prompted_local_confirm && candidate.pcm_bytes
        >= tuning.immediate_confirm_min_bytes && unseen > 0;
    let again: bool = kws_hit && candidate.kws_prompted_local_confirm && unseen
        >= tuning.confirm_retry_bytes && candidate.kws_local_absent_count
        < tuning.absent_reject_count;
    if !ladder_due && !immediate && !again && !prefix_retry_due {
        return on(ReleaseStage::Poll { kws_hit }, ReleaseAction::PollConfirmation);
    }
    if ladder_due {
        candidate.local_confirmation_attempts = candidate.local_confirmation_attempts
            .saturating_add(1);
    }
    if immediate || again {
        candidate.kws_prompted_local_confirm = true;
    }
    candidate.local_confirmation_last_snapshot_bytes = window;
    let origin: usize = if kws_hit {
        0
    } else {
        candidate.local_confirmation_window_origin_bytes
    };
    candidate.local_confirmation_task = Some(
        LocalConfirmationTask {
            origin_bytes: origin,
            has_keyword_model_hit: kws_hit,
            started_at: now,
        },
    );
    on(
        ReleaseStage::Poll { kws_hit },
        ReleaseAction::StartConfirmation {
            origin_bytes: origin,
            exploratory: !kws_hit,
            prefix_retry: prefix_retry_due,
        },
    )
}

fn collect(candidate: &mut BufferedSpeakerCandidate, kws_hit: bool, finished: bool) -> (r:
    ReleaseStep)
    ensures
        (*final(candidate), r) == collected(*old(candidate), kws_hit, finished),
{
    let running: Option<LocalConfirmationTask> = candidate.local_confirmation_task;
    if let Some(task) = running {
        if finished {
            candidate.local_confirmation_task = None;
            return on(ReleaseStage::Judge { kws_hit, task }, ReleaseAction::JudgeConfirmation);
        }
    }
    if kws_hit {
        on(ReleaseStage::Secondary, ReleaseAction::WeighSecondary)
    } else {
        wait_step()
    }
}

fn judge(
    candidate: &mut BufferedSpeakerCandidate,
    kws_hit: bool,
    task: LocalConfirmationTask,
    verdict: ConfirmationVerdict,
    inference_ms: u64,
) -> (r: ReleaseStep)
    ensures
        (*final(candidate), r) == judged(*old(candidate), kws_hit, task, verdict, inference_ms),
{
    match verdict {
        ConfirmationVerdict::Busy => wait_step(),
        ConfirmationVerdict::Matched { may_activate } => {
            if !may_activate {
                candidate.local_kws_fusion_evidence = true;
                return wait_step();
            }
            let origin: usize = if task.has_keyword_model_hit {
                0
            } else {
                task.origin_bytes
            };
            found(
                WakeMatch::LocalTranscript { origin_bytes: origin, refines_keyword: kws_hit },
                PhraseSignal::LocalTranscript,
                inference_ms,
                true,
            )
        },
        ConfirmationVerdict::Unmatched {
            partial_phrase,
            near,
            live_owner_near,
            kws_absent_count,
            local_absent_count,
            absent_coverage,
        } => {
            if partial_phrase {
                candidate.local_partial_phrase_confirmations = candidate
                    .local_partial_phrase_confirmations.saturating_add(1);
            }
            if near.is_near() {
                candidate.owner_near_phrase_confirmations = candidate
                    .owner_near_phrase_confirmations.saturating_add(1);
            }
            if live_owner_near {
                return found(
                    WakeMatch::OwnerNear { origin_bytes: task.origin_bytes },
                    PhraseSignal::LocalTranscript,
                    inference_ms,
                    false,
                );
            }
            candidate.kws_local_absent_count = kws_absent_count;
            candidate.local_absent_count = local_absent_count;
            candidate.local_absent_coverage = absent_coverage;
            wait_step()
        },
        ConfirmationVerdict::Unavailable { may_trust_keyword } => {
            if kws_hit && may_trust_keyword {
                found(WakeMatch::Keyword, PhraseSignal::KeywordModel, 0, false)
            } else {
                wait_step()
            }
        },
    }
}

fn weigh(
    candidate: &mut BufferedSpeakerCandidate,
    phrase: PendingAutomaticPhraseMatch,
    accepted: bool,
    separation_running: bool,
    retry_at_ms: Option<usize>,
) -> (r: ReleaseStep)
    ensures
        (*final(candidate), r) == weighed(
            *old(candidate),
            phrase,
            accepted,
            separation_running,
            retry_at_ms,
        ),
{
    if accepted {
        return on(
            ReleaseStage::Locate { phrase },
            ReleaseAction::LocatePhrase {
                calibrate: phrase.phrase_signal == PhraseSignal::KeywordModel,
            },
        );
    }
    if separation_running {
        candidate.pending_phrase_match = Some(
            PendingAutomaticPhraseMatch {
                owner_verification_start_ms: candidate.pcm_bytes / 32 + 1,
                owner_verified_by_extraction: false,
                ..phrase
            },
        );
        return wait_step();
    }
    match retry_at_ms {
        Some(at) => {
            candidate.pending_phrase_match = Some(
                PendingAutomaticPhraseMatch { owner_verification_start_ms: at, ..phrase },
            );
            wait_step()
        },
        None => reject(candidate, RejectReason::VoiceprintNonMatch),
    }
}

proof fn lemma_next_wf(
    c: BufferedSpeakerCandidate,
    stage: ReleaseStage,
    event: ReleaseEvent,
    tuning: WakeTuning,
)
    requires
        c.wf(),
        stage is Entry || c.kind == BufferedSpeakerCandidateKind::Verification,
        awaits(c, stage, event),
    ensures
        next(c, stage, event, tuning).0.wf(),
{
}

/// The step of a live release that follows an event.
pub fn try_release_automatic_candidate(
    candidate: &mut BufferedSpeakerCandidate,
    stage: ReleaseStage,
    event: ReleaseEvent,
    tuning: WakeTuning,
) -> (r: ReleaseStep)
    requires
        old(candidate).wf(),
        stage is Entry || old(candidate).kind == BufferedSpeakerCandidateKind::Verification,
        awaits(*old(candidate), stage, event),
    ensures
        (*final(candidate), r) == next(*old(candidate), stage, event, tuning),
        final(candidate).wf(),
{
    let step: ReleaseStep = match (stage, event) {
        (ReleaseStage::Entry, ReleaseEvent::Chunk { extracted }) => enter(candidate, extracted),
        (ReleaseStage::Detector, ReleaseEvent::DetectorPolled { poll, rotation_start }) => feed(
            candidate,
            poll,
            rotation_start,
            tuning,
        ),
        (
            ReleaseStage::Feed,
            ReleaseEvent::Fed { heard, step_ms, stream_origin_bytes, advance_window, now },
        ) => match heard {
            None => {
                note_fed(candidate, false, step_ms, stream_origin_bytes, advance_window, now);
                reject(candidate, RejectReason::DetectorFailed)
            },
            Some(hit) => {
                note_fed(candidate, hit, step_ms, stream_origin_bytes, advance_window, now);
                if tuning.confirms_locally {
                    on(
                        ReleaseStage::Plan { kws_hit: hit },
                        ReleaseAction::ConsultSchedule { window_moved: advance_window },
                    )
                } else if hit {
                    found(WakeMatch::Keyword, PhraseSignal::KeywordModel, 0, false)
                } else {
                    wait_step()
                }
            },
        },
        (ReleaseStage::Feed, _) => reject(candidate, RejectReason::DetectorTaskFailed),
        (
            ReleaseStage::Plan { kws_hit },
            ReleaseEvent::Planned { ladder, prefix_retry_due, now },
        ) => plan(candidate, kws_hit, ladder, prefix_retry_due, now, tuning),
        (ReleaseStage::Poll { kws_hit }, ReleaseEvent::ConfirmationPolled { finished }) => {
            collect(candidate, kws_hit, finished)
        },
        (
            ReleaseStage::Judge { kws_hit, task },
            ReleaseEvent::Judged { age, verdict, inference_ms },
        ) => {
            if age.is_discarded() {
                wait_step()
            } else {
                judge(candidate, kws_hit, task, verdict, inference_ms)
            }
        },
        (ReleaseStage::Secondary, ReleaseEvent::SecondaryWeighed(decision)) => {
            if decision == PendingSecondaryDecision::AcceptKeywordModel {
                found(WakeMatch::Keyword, PhraseSignal::KeywordModel, 0, false)
            } else {
                wait_step()
            }
        },
        (
            ReleaseStage::OwnerWindow { wake_match, phrase_signal, local_confirmation_ms },
            ReleaseEvent::OwnerWindowChecked { ready },
        ) => {
            let phrase = PendingAutomaticPhraseMatch {
                wake_match,
                phrase_signal,
                local_confirmation_ms,
                owner_verification_start_ms: tuning.owner_verification_start_ms,
                owner_verified_by_extraction: false,
            };
            if ready {
                on(ReleaseStage::Verify { phrase }, ReleaseAction::VerifyOwner)
            } else {
                candidate.pending_phrase_match = Some(phrase);
                wait_step()
            }
        },
        (
            ReleaseStage::Verify { phrase },
            ReleaseEvent::OwnerWeighed { accepted, separation_running, retry_at_ms },
        ) => weigh(candidate, phrase, accepted, separation_running, retry_at_ms),
        (
            ReleaseStage::Locate { phrase: _ },
            ReleaseEvent::PhraseLocated { post_wake_offset, anchor_offset },
        ) => {
            let post_wake_bytes: usize = candidate.pcm_bytes.saturating_sub(post_wake_offset);
            candidate.keep_from(anchor_offset);
            on(
                ReleaseStage::Begin { from: anchor_offset },
                ReleaseAction::OpenSession { post_wake_bytes },
            )
        },
        (ReleaseStage::Begin { from }, ReleaseEvent::SessionBegun(begun)) => match begun {
            Some(session_id) => on(
                ReleaseStage::Promote { session_id, from },
                ReleaseAction::PromoteToOwner { session_id },
            ),
            None => on(ReleaseStage::Done, ReleaseAction::ReportNoSession),
        },
        (
            ReleaseStage::Promote { session_id, from },
            ReleaseEvent::LifecycleAnswered { promoted },
        ) => {
            if promoted {
                on(
                    ReleaseStage::Activate { session_id, from },
                    ReleaseAction::ActivateSession { session_id },
                )
            } else {
                on(ReleaseStage::Done, ReleaseAction::UndoRefusedSession { session_id })
            }
        },
        (
            ReleaseStage::Activate { session_id, from },
            ReleaseEvent::SessionActivated { active },
        ) => {
            if active {
                on(
                    ReleaseStage::Done,
                    ReleaseAction::Released { session_id, from, bytes: candidate.pcm_bytes },
                )
            } else {
                on(ReleaseStage::Done, ReleaseAction::UndoCancelledSession { session_id })
            }
        },
        _ => wait_step(),
    };
    proof {
        lemma_next_wf(*old(candidate), stage, event, tuning);
    }
    step
}

/// How many steps a live release can still take before it waits for the next chunk.
pub open spec fn steps_left(stage: ReleaseStage) -> nat {
    match stage {
        ReleaseStage::Entry => 13,
        ReleaseStage::Detector => 12,
        ReleaseStage::Feed => 11,
        ReleaseStage::Plan { kws_hit } => 10,
        ReleaseStage::Poll { kws_hit } => 9,
        ReleaseStage::Judge { kws_hit, task } => 8,
        ReleaseStage::Secondary => 7,
        ReleaseStage::OwnerWindow { wake_match, phrase_signal, local_confirmation_ms } => 6,
        ReleaseStage::Verify { phrase } => 5,
        ReleaseStage::Locate { phrase } => 4,
        ReleaseStage::Begin { from } => 3,
        ReleaseStage::Promote { session_id, from } => 2,
        ReleaseStage::Activate { session_id, from } => 1,
        ReleaseStage::Done => 0,
    }
}

/// A chunk of audio is dealt with in finitely many steps.
pub proof fn a_chunk_is_always_settled(
    c: BufferedSpeakerCandidate,
    stage: ReleaseStage,
    event: ReleaseEvent,
    tuning: WakeTuning,
)
    requires
        awaits(c, stage, event),
    ensures
        steps_left(next(c, stage, event, tuning).1.stage) < steps_left(stage),
{
}

/// Something vouches for a phrase.
pub open spec fn vouched(phrase: PendingAutomaticPhraseMatch) -> bool {
    phrase.phrase_signal != PhraseSignal::Unheard
}

/// Every phrase that a candidate or a stage holds is vouched for by a keyword or a transcript.
pub open spec fn only_vouched_phrases(c: BufferedSpeakerCandidate, stage: ReleaseStage) -> bool {
    &&& c.pending_phrase_match matches Some(phrase) ==> vouched(phrase)
    &&& stage matches ReleaseStage::Verify { phrase } ==> vouched(phrase)
    &&& stage matches ReleaseStage::Locate { phrase } ==> vouched(phrase)
    &&& stage matches ReleaseStage::OwnerWindow { phrase_signal, .. } ==> phrase_signal
        != PhraseSignal::Unheard
}

/// Voice activity alone never counts as a phrase: whatever reaches the voiceprint, or waits for
/// it, was heard by the keyword model or read in a transcript.
pub proof fn only_a_heard_phrase_reaches_the_voiceprint(
    c: BufferedSpeakerCandidate,
    stage: ReleaseStage,
    event: ReleaseEvent,
    tuning: WakeTuning,
)
    requires
        awaits(c, stage, event),
        only_vouched_phrases(c, stage),
        event matches ReleaseEvent::Chunk { extracted: Some(phrase) } ==> vouched(phrase),
    ensures
        only_vouched_phrases(
            next(c, stage, event, tuning).0,
            next(c, stage, event, tuning).1.stage,
        ),
{
}

/// A session is opened only behind a phrase that was located, and a phrase is located only when
/// phrase and voice were accepted together.
pub proof fn only_an_accepted_owner_opens_a_session(
    c: BufferedSpeakerCandidate,
    stage: ReleaseStage,
    event: ReleaseEvent,
    tuning: WakeTuning,
)
    requires
        awaits(c, stage, event),
    ensures
        next(c, stage, event, tuning).1.action is OpenSession ==> stage is Locate,
        next(c, stage, event, tuning).1.stage is Locate ==> stage is Verify && (event matches
            ReleaseEvent::OwnerWeighed { accepted, .. } && accepted),
{
}

/// Once the phrase is located, the session that is opened gets the audio from the anchor on, all
/// of it and nothing before it; the cut is made once.
pub proof fn a_released_session_gets_the_whole_tail(
    c: BufferedSpeakerCandidate,
    phrase: PendingAutomaticPhraseMatch,
    post_wake_offset: usize,
    anchor_offset: usize,
    session_id: SessionId,
    tuning: WakeTuning,
)
    requires
        anchor_offset <= c.pcm_bytes,
    ensures
        ({
            let located = ReleaseEvent::PhraseLocated { post_wake_offset, anchor_offset };
            let begun = ReleaseEvent::SessionBegun(Some(session_id));
            let admitted = ReleaseEvent::LifecycleAnswered { promoted: true };
            let active = ReleaseEvent::SessionActivated { active: true };
            let (cut, opening) = next(c, ReleaseStage::Locate { phrase }, located, tuning);
            let (_, promoting) = next(cut, opening.stage, begun, tuning);
            let (_, activating) = next(cut, promoting.stage, admitted, tuning);
            let (kept, released) = next(cut, activating.stage, active, tuning);
            &&& cut.pcm_bytes == c.pcm_bytes - anchor_offset
            &&& kept == cut
            &&& released.action == (ReleaseAction::Released {
                session_id,
                from: anchor_offset,
                bytes: (c.pcm_bytes - anchor_offset) as usize,
            })
        }),
{
}

/// The audio that a session is handed is the whole retained buffer, from where it was cut.
pub proof fn a_release_hands_over_the_retained_buffer(
    c: BufferedSpeakerCandidate,
    stage: ReleaseStage,
    event: ReleaseEvent,
    tuning: WakeTuning,
)
    requires
        awaits(c, stage, event),
    ensures
        next(c, stage, event, tuning).1.action matches ReleaseAction::Released {
            session_id,
            from,
            bytes,
        } ==> bytes == c.pcm_bytes && next(c, stage, event, tuning).0 == c && stage == (
        ReleaseStage::Activate { session_id, from }),
        next(c, stage, event, tuning).1.stage matches ReleaseStage::Begin { from } ==> (event
            matches ReleaseEvent::PhraseLocated { anchor_offset, .. } && from == anchor_offset
            && next(c, stage, event, tuning).0.pcm_bytes == c.pcm_bytes - anchor_offset),
{
}

/// Where a local recogniser confirms keywords, the keyword model is never trusted on its word
/// alone: either the recogniser could not answer, or its time was up.
pub proof fn a_bare_keyword_is_not_enough(
    c: BufferedSpeakerCandidate,
    stage: ReleaseStage,
    event: ReleaseEvent,
    tuning: WakeTuning,
)
    requires
        awaits(c, stage, event),
        tuning.confirms_locally,
        !(stage is OwnerWindow),
        next(c, stage, event, tuning).1.stage matches ReleaseStage::OwnerWindow {
            phrase_signal,
            ..
        } && phrase_signal == PhraseSignal::KeywordModel,
    ensures
        event == ReleaseEvent::SecondaryWeighed(PendingSecondaryDecision::AcceptKeywordModel) || (
        event matches ReleaseEvent::Judged { verdict, .. } && verdict == (
        ConfirmationVerdict::Unavailable { may_trust_keyword: true })),
{
}

/// A capsule is shown early only for a whole phrase in a transcript, never for a near match.
pub proof fn a_near_match_stays_hidden(
    c: BufferedSpeakerCandidate,
    stage: ReleaseStage,
    event: ReleaseEvent,
    tuning: WakeTuning,
)
    requires
        awaits(c, stage, event),
        next(c, stage, event, tuning).1.action == (ReleaseAction::CheckOwnerWindow {
            show_capsule: true,
        }),
    ensures
        event matches ReleaseEvent::Judged { verdict, .. } && verdict == (
        ConfirmationVerdict::Matched { may_activate: true }),
{
}

/// Every position that outside work is given lies inside the buffer.
pub proof fn positions_lie_in_the_buffer(
    c: BufferedSpeakerCandidate,
    stage: ReleaseStage,
    event: ReleaseEvent,
    tuning: WakeTuning,
)
    requires
        c.wf(),
        c.kind == BufferedSpeakerCandidateKind::Verification,
        awaits(c, stage, event),
    ensures
        next(c, stage, event, tuning).1.action matches ReleaseAction::FeedKeywordModel {
            from,
            otherwise_from,
            ..
        } ==> from <= c.pcm_bytes && otherwise_from <= c.pcm_bytes,
        next(c, stage, event, tuning).1.action matches ReleaseAction::StartConfirmation {
            origin_bytes,
            ..
        } ==> origin_bytes <= c.pcm_bytes,
{
}

/// A rejected candidate keeps none of its audio.
pub proof fn a_rejected_candidate_keeps_no_audio(
    c: BufferedSpeakerCandidate,
    stage: ReleaseStage,
    event: ReleaseEvent,
    tuning: WakeTuning,
)
    requires
        awaits(c, stage, event),
        next(c, stage, event, tuning).1.action is Reject,
    ensures
        next(c, stage, event, tuning).0.kind == BufferedSpeakerCandidateKind::Rejected,
        next(c, stage, event, tuning).0.pcm_bytes == 0,
{
}

/// Whatever happens in a chunk, audio is lost only with a candidate that is given up or with the cut
/// before its phrase; and only a failed detector or a voice that is not the owner's gives it up.
pub proof fn audio_is_lost_only_with_the_candidate(
    c: BufferedSpeakerCandidate,
    stage: ReleaseStage,
    event: ReleaseEvent,
    tuning: WakeTuning,
)
    requires
        awaits(c, stage, event),
    ensures
        ({
            let (after, step) = next(c, stage, event, tuning);
            &&& after.pcm_bytes != c.pcm_bytes ==> step.action is Reject || event is PhraseLocated
            &&& after.started_at == c.started_at
            &&& step.action is Reject ==> after.kind == BufferedSpeakerCandidateKind::Rejected
                && after.pcm_bytes == 0
            &&& after.kind != c.kind ==> step.action is Reject || event == (
            ReleaseEvent::DetectorPolled {
                poll: DetectorPoll::Failed,
                rotation_start: event->rotation_start,
            })
            &&& step.action matches ReleaseAction::Reject { reason, .. } ==> {
                &&& reason == RejectReason::DetectorTaskFailed <==> event is FeedTaskFailed
                &&& reason == RejectReason::DetectorFailed <==> (event matches ReleaseEvent::Fed {
                    heard: None,
                    ..
                })
                &&& reason == RejectReason::VoiceprintNonMatch <==> event is OwnerWeighed
            }
            &&& event is FeedTaskFailed || (event matches ReleaseEvent::Fed { heard: None, .. })
                ==> step.action is Reject
        }),
{
}

/// A phrase that waits for its voiceprint is taken up as soon as the buffer is long enough, and not
/// before; without one the keyword detector is polled.
pub proof fn a_waiting_phrase_is_taken_up_in_time(
    c: BufferedSpeakerCandidate,
    extracted: Option<PendingAutomaticPhraseMatch>,
    tuning: WakeTuning,
)
    requires
        c.kind == BufferedSpeakerCandidateKind::Verification,
    ensures
        ({
            let (after, step) = next(
                c,
                ReleaseStage::Entry,
                ReleaseEvent::Chunk { extracted },
                tuning,
            );
            let waiting_for = if c.pending_phrase_match is Some {
                c.pending_phrase_match
            } else {
                extracted
            };
            &&& waiting_for is None ==> step.action == ReleaseAction::PollDetector && after == c
            &&& waiting_for matches Some(phrase) ==> {
                &&& c.pcm_bytes / 32 >= phrase.owner_verification_start_ms ==> step.action
                    == ReleaseAction::VerifyOwner && step.stage == (ReleaseStage::Verify { phrase })
                    && after.pending_phrase_match is None
                &&& c.pcm_bytes / 32 < phrase.owner_verification_start_ms ==> step.action
                    is Wait && after.pending_phrase_match == Some(phrase)
            }
        }),
{
}

/// Only a wake candidate is worked on; any other waits as it is.
pub proof fn only_a_wake_candidate_is_worked_on(
    c: BufferedSpeakerCandidate,
    extracted: Option<PendingAutomaticPhraseMatch>,
    tuning: WakeTuning,
)
    requires
        c.kind != BufferedSpeakerCandidateKind::Verification,
    ensures
        next(c, ReleaseStage::Entry, ReleaseEvent::Chunk { extracted }, tuning).1.action is Wait,
        next(c, ReleaseStage::Entry, ReleaseEvent::Chunk { extracted }, tuning).0.pcm_bytes
            == c.pcm_bytes,
{
}

/// The keyword model is fed once it is loaded and a batch of audio is there that it has not heard,
/// and then with all of it, from where the stream starts over or from where it stopped.
pub proof fn the_keyword_model_hears_everything(
    c: BufferedSpeakerCandidate,
    poll: DetectorPoll,
    rotation_start: Option<usize>,
    tuning: WakeTuning,
)
    requires
        c.wf(),
        c.kind == BufferedSpeakerCandidateKind::Verification,
    ensures
        ({
            let (after, step) = next(
                c,
                ReleaseStage::Detector,
                ReleaseEvent::DetectorPolled { poll, rotation_start },
                tuning,
            );
            let loaded = c.detector == DetectorState::Ready || (c.detector
                == DetectorState::Loading && poll == DetectorPoll::Loaded);
            &&& step.action is FeedKeywordModel <==> loaded && c.pcm_bytes - c.kws_fed_bytes
                >= tuning.feed_batch_bytes
            &&& step.action matches ReleaseAction::FeedKeywordModel { from, otherwise_from, fresh }
                ==> {
                &&& after.kws_fed_bytes == c.pcm_bytes
                &&& otherwise_from == c.kws_fed_bytes
                &&& fresh <==> rotation_start is Some
                &&& rotation_start is None ==> from == c.kws_fed_bytes
                &&& rotation_start matches Some(at) ==> from == at
            }
            &&& !(step.action is FeedKeywordModel) ==> after.kws_fed_bytes == c.kws_fed_bytes
            &&& c.detector == DetectorState::Loading && poll == DetectorPoll::Failed ==> after.kind
                == BufferedSpeakerCandidateKind::Rejected && step.action == (ReleaseAction::Wait {
                dismiss_capsule: c.early_capsule_session_id,
            })
        }),
{
}

/// What the keyword model heard is remembered, the first time with its moment, and leads to the
/// schedule of confirmations where one is kept; elsewhere the keyword counts as it is.
pub proof fn a_heard_keyword_is_remembered(
    c: BufferedSpeakerCandidate,
    hit: bool,
    step_ms: u64,
    stream_origin_bytes: usize,
    advance_window: bool,
    now: u64,
    tuning: WakeTuning,
)
    ensures
        ({
            let (after, step) = next(
                c,
                ReleaseStage::Feed,
                ReleaseEvent::Fed {
                    heard: Some(hit),
                    step_ms,
                    stream_origin_bytes,
                    advance_window,
                    now,
                },
                tuning,
            );
            &&& after.detector == DetectorState::Ready
            &&& after.kws_stream_origin_bytes == stream_origin_bytes
            &&& after.kws_phrase_detected == (c.kws_phrase_detected || hit)
            &&& hit && c.kws_first_hit_at is None ==> after.kws_first_hit_at == Some(now)
            &&& !hit || c.kws_first_hit_at is Some ==> after.kws_first_hit_at == c.kws_first_hit_at
            &&& tuning.confirms_locally ==> step.stage == (ReleaseStage::Plan { kws_hit: hit })
                && step.action == (ReleaseAction::ConsultSchedule { window_moved: advance_window })
            &&& !tuning.confirms_locally && hit ==> step.action is CheckOwnerWindow && (
            step.stage matches ReleaseStage::OwnerWindow {
                wake_match: WakeMatch::Keyword,
                phrase_signal: PhraseSignal::KeywordModel,
                ..
            })
            &&& !tuning.confirms_locally && !hit ==> step.action is Wait
            &&& advance_window ==> after.local_confirmation_window_origin_bytes
                == stream_origin_bytes && after.local_confirmation_attempts == 0
                && after.local_confirmation_last_snapshot_bytes == 0
            &&& !advance_window ==> after.local_confirmation_window_origin_bytes
                == c.local_confirmation_window_origin_bytes
                && after.local_confirmation_attempts == c.local_confirmation_attempts
        }),
{
}

/// A confirmation is started only where none runs and somebody asks for it: the ladder, a heard
/// prefix, or a keyword, which asks once there is enough audio and later only with new audio and
/// few denials.  It looks at the whole buffer for a keyword and at the window otherwise.
pub proof fn a_confirmation_is_started_on_request(
    c: BufferedSpeakerCandidate,
    kws_hit: bool,
    ladder: LadderEvidence,
    prefix_retry_due: bool,
    now: u64,
    tuning: WakeTuning,
)
    requires
        c.wf(),
        c.kind == BufferedSpeakerCandidateKind::Verification,
    ensures
        ({
            let (after, step) = next(
                c,
                ReleaseStage::Plan { kws_hit },
                ReleaseEvent::Planned { ladder, prefix_retry_due, now },
                tuning,
            );
            let by_ladder = !ladder.deferred && ladder.allowed && ladder.rung_reached;
            let unseen = c.pcm_bytes - c.local_confirmation_window_origin_bytes
                - c.local_confirmation_last_snapshot_bytes;
            let first = kws_hit && !c.kws_prompted_local_confirm && c.pcm_bytes
                >= tuning.immediate_confirm_min_bytes && unseen > 0;
            let again = kws_hit && c.kws_prompted_local_confirm && unseen >= 0 && unseen
                >= tuning.confirm_retry_bytes && c.kws_local_absent_count
                < tuning.absent_reject_count;
            &&& step.action is StartConfirmation ==> c.local_confirmation_task is None
            &&& c.local_confirmation_task is None && (by_ladder || prefix_retry_due || first || again)
                ==> step.action is StartConfirmation
            &&& step.action is StartConfirmation && tuning.confirm_retry_bytes > 0 ==> by_ladder
                || prefix_retry_due || first || again
            &&& step.action matches ReleaseAction::StartConfirmation {
                origin_bytes,
                exploratory,
                prefix_retry,
            } ==> {
                &&& origin_bytes == (if kws_hit {
                    0
                } else {
                    c.local_confirmation_window_origin_bytes
                })
                &&& exploratory == !kws_hit
                &&& prefix_retry == prefix_retry_due
                &&& after.local_confirmation_task == Some(
                    LocalConfirmationTask {
                        origin_bytes,
                        has_keyword_model_hit: kws_hit,
                        started_at: now,
                    },
                )
                &&& by_ladder && c.local_confirmation_attempts < u32::MAX
                    ==> after.local_confirmation_attempts == c.local_confirmation_attempts + 1
                &&& !by_ladder ==> after.local_confirmation_attempts
                    == c.local_confirmation_attempts
                &&& after.local_confirmation_last_snapshot_bytes == c.pcm_bytes
                    - c.local_confirmation_window_origin_bytes
                &&& first || again ==> after.kws_prompted_local_confirm
            }
            &&& !(step.action is StartConfirmation) ==> step.action
                == ReleaseAction::PollConfirmation && after == c
            &&& step.stage == (ReleaseStage::Poll { kws_hit })
        }),
{
}

/// A finished confirmation is judged and no longer runs; while one still runs, or none does, a
/// keyword is weighed without it, and without a keyword the chunk is dealt with.
pub proof fn a_finished_confirmation_is_judged(
    c: BufferedSpeakerCandidate,
    kws_hit: bool,
    finished: bool,
    tuning: WakeTuning,
)
    ensures
        ({
            let (after, step) = next(
                c,
                ReleaseStage::Poll { kws_hit },
                ReleaseEvent::ConfirmationPolled { finished },
                tuning,
            );
            let done = finished && c.local_confirmation_task is Some;
            &&& step.action == ReleaseAction::JudgeConfirmation <==> done
            &&& done ==> after.local_confirmation_task is None && step.stage == (
            ReleaseStage::Judge { kws_hit, task: c.local_confirmation_task->0 })
            &&& !done ==> after == c
            &&& !done && kws_hit ==> step.action == ReleaseAction::WeighSecondary
            &&& !done && !kws_hit ==> step.action is Wait
        }),
{
}

/// What a confirmation that counts says: a whole phrase that may activate goes to the voiceprint and
/// shows the capsule; one that may not backs a later keyword; a near match of the owner goes to the
/// voiceprint unseen; a denial is counted; and a recogniser that cannot answer leaves the keyword to
/// count where it is trusted.  One that is out of date changes nothing.
pub proof fn each_verdict_has_its_consequence(
    c: BufferedSpeakerCandidate,
    kws_hit: bool,
    task: LocalConfirmationTask,
    age: WindowAge,
    verdict: ConfirmationVerdict,
    inference_ms: u64,
    tuning: WakeTuning,
)
    ensures
        ({
            let (after, step) = next(
                c,
                ReleaseStage::Judge { kws_hit, task },
                ReleaseEvent::Judged { age, verdict, inference_ms },
                tuning,
            );
            let old = age.stale && !age.still_activates;
            &&& old || verdict is Busy ==> after == c && step.action is Wait
            &&& !old && verdict == (ConfirmationVerdict::Matched { may_activate: true }) ==> after
                == c && step.action == (ReleaseAction::CheckOwnerWindow { show_capsule: true }) && (
            step.stage matches ReleaseStage::OwnerWindow {
                wake_match: WakeMatch::LocalTranscript { origin_bytes, refines_keyword },
                phrase_signal: PhraseSignal::LocalTranscript,
                local_confirmation_ms,
            } && local_confirmation_ms == inference_ms && refines_keyword == kws_hit
                && origin_bytes == (if task.has_keyword_model_hit {
                0
            } else {
                task.origin_bytes
            }))
            &&& !old && verdict == (ConfirmationVerdict::Matched { may_activate: false })
                ==> after.local_kws_fusion_evidence && step.action is Wait && after.pcm_bytes
                == c.pcm_bytes
            &&& !old && verdict is Unmatched && verdict->live_owner_near ==> step.action == (
            ReleaseAction::CheckOwnerWindow { show_capsule: false }) && after.local_absent_count
                == c.local_absent_count && after.kws_local_absent_count
                == c.kws_local_absent_count && (step.stage matches ReleaseStage::OwnerWindow {
                wake_match: WakeMatch::OwnerNear { origin_bytes },
                phrase_signal: PhraseSignal::LocalTranscript,
                ..
            } && origin_bytes == task.origin_bytes)
            &&& !old && verdict is Unmatched && !verdict->live_owner_near ==> step.action is Wait
                && after.local_absent_count == verdict->local_absent_count
                && after.kws_local_absent_count == verdict->kws_absent_count
                && after.local_absent_coverage == verdict->absent_coverage
            &&& !old && verdict is Unmatched && verdict->partial_phrase
                && c.local_partial_phrase_confirmations < u32::MAX
                ==> after.local_partial_phrase_confirmations
                == c.local_partial_phrase_confirmations + 1
            &&& !old && verdict is Unmatched && c.owner_near_phrase_confirmations < u32::MAX
                ==> after.owner_near_phrase_confirmations == c.owner_near_phrase_confirmations + (
            if verdict->near.phrase_absent && verdict->near.best_distance <= 2
                && verdict->near.transcript_chars > verdict->near.phrase_chars {
                1int
            } else {
                0
            })
            &&& !old && verdict is Unavailable ==> after == c && (step.action is CheckOwnerWindow
                <==> kws_hit && verdict->may_trust_keyword)
        }),
{
}

/// A keyword whose confirmation is not in yet counts only where it is accepted as it is.
pub proof fn an_unconfirmed_keyword_waits(
    c: BufferedSpeakerCandidate,
    decision: PendingSecondaryDecision,
    tuning: WakeTuning,
)
    ensures
        ({
            let (after, step) = next(
                c,
                ReleaseStage::Secondary,
                ReleaseEvent::SecondaryWeighed(decision),
                tuning,
            );
            &&& after == c
            &&& step.action == (ReleaseAction::CheckOwnerWindow { show_capsule: false })
                <==> decision is AcceptKeywordModel
            &&& !(decision is AcceptKeywordModel) ==> step.action is Wait
        }),
{
}

/// A found phrase is verified at once where the buffer is long enough, and otherwise waits with
/// everything that is known of it until it is.
pub proof fn a_found_phrase_is_verified_or_waits(
    c: BufferedSpeakerCandidate,
    wake_match: WakeMatch,
    phrase_signal: PhraseSignal,
    local_confirmation_ms: u64,
    ready: bool,
    tuning: WakeTuning,
)
    ensures
        ({
            let (after, step) = next(
                c,
                ReleaseStage::OwnerWindow { wake_match, phrase_signal, local_confirmation_ms },
                ReleaseEvent::OwnerWindowChecked { ready },
                tuning,
            );
            let phrase = PendingAutomaticPhraseMatch {
                wake_match,
                phrase_signal,
                local_confirmation_ms,
                owner_verification_start_ms: tuning.owner_verification_start_ms,
                owner_verified_by_extraction: false,
            };
            &&& ready ==> after == c && step.action == ReleaseAction::VerifyOwner && step.stage == (
            ReleaseStage::Verify { phrase })
            &&& !ready ==> after.pending_phrase_match == Some(phrase) && step.action is Wait
                && after.pcm_bytes == c.pcm_bytes
        }),
{
}

/// An accepted owner's phrase is located and nothing else; a voice that is not accepted is asked for
/// again while its separation runs or where a retry is due, later than now in the first case, and
/// gives the candidate up otherwise.
pub proof fn an_unaccepted_voice_is_asked_again_or_given_up(
    c: BufferedSpeakerCandidate,
    phrase: PendingAutomaticPhraseMatch,
    accepted: bool,
    separation_running: bool,
    retry_at_ms: Option<usize>,
    tuning: WakeTuning,
)
    ensures
        ({
            let (after, step) = next(
                c,
                ReleaseStage::Verify { phrase },
                ReleaseEvent::OwnerWeighed { accepted, separation_running, retry_at_ms },
                tuning,
            );
            &&& accepted ==> after == c && step.stage == (ReleaseStage::Locate { phrase })
                && step.action == (ReleaseAction::LocatePhrase {
                calibrate: phrase.phrase_signal == PhraseSignal::KeywordModel,
            })
            &&& !accepted && separation_running ==> step.action is Wait
                && after.pending_phrase_match is Some
                && after.pending_phrase_match->0.owner_verification_start_ms == c.pcm_bytes / 32 + 1
                && after.pending_phrase_match->0.wake_match == phrase.wake_match
                && after.pending_phrase_match->0.phrase_signal == phrase.phrase_signal
            &&& !accepted && !separation_running && retry_at_ms is Some ==> step.action is Wait
                && after.pending_phrase_match is Some
                && after.pending_phrase_match->0.owner_verification_start_ms == retry_at_ms->0
                && after.pending_phrase_match->0.phrase_signal == phrase.phrase_signal
            &&& !accepted && !separation_running && retry_at_ms is None ==> step.action
                is Reject
        }),
{
}

/// A session is opened, made the owner and activated in this order, and each failure on the way is
/// undone or reported under its own session.
pub proof fn a_session_is_opened_step_by_step(
    c: BufferedSpeakerCandidate,
    from: usize,
    begun: Option<SessionId>,
    session_id: SessionId,
    tuning: WakeTuning,
)
    ensures
        next(c, ReleaseStage::Begin { from }, ReleaseEvent::SessionBegun(begun), tuning).1.action
            == (match begun {
            Some(id) => ReleaseAction::PromoteToOwner { session_id: id },
            None => ReleaseAction::ReportNoSession,
        }),
        next(
            c,
            ReleaseStage::Promote { session_id, from },
            ReleaseEvent::LifecycleAnswered { promoted: false },
            tuning,
        ).1.action == (ReleaseAction::UndoRefusedSession { session_id }),
        next(
            c,
            ReleaseStage::Activate { session_id, from },
            ReleaseEvent::SessionActivated { active: false },
            tuning,
        ).1.action == (ReleaseAction::UndoCancelledSession { session_id }),
        next(
            c,
            ReleaseStage::Promote { session_id, from },
            ReleaseEvent::LifecycleAnswered { promoted: true },
            tuning,
        ).1.action == (ReleaseAction::ActivateSession { session_id }),
{
}

/// Every action is followed by the stage that waits for its answer, and by no other.
pub proof fn each_action_waits_for_its_answer(
    c: BufferedSpeakerCandidate,
    stage: ReleaseStage,
    event: ReleaseEvent,
    tuning: WakeTuning,
)
    requires
        awaits(c, stage, event),
    ensures
        ({
            let step = next(c, stage, event, tuning).1;
            let action = step.action;
            &&& action is Wait || action is Reject || action is ReportNoSession || action
                is UndoRefusedSession || action is UndoCancelledSession || action is Released
                <==> step.stage == ReleaseStage::Done
            &&& action is PollDetector <==> step.stage == ReleaseStage::Detector
            &&& action is FeedKeywordModel <==> step.stage == ReleaseStage::Feed
            &&& action is ConsultSchedule <==> step.stage is Plan
            &&& action is StartConfirmation || action is PollConfirmation <==> step.stage is Poll
            &&& action is JudgeConfirmation <==> step.stage is Judge
            &&& action is WeighSecondary <==> step.stage == ReleaseStage::Secondary
            &&& action is CheckOwnerWindow <==> step.stage is OwnerWindow
            &&& action is VerifyOwner <==> step.stage is Verify
            &&& action is LocatePhrase <==> step.stage is Locate
            &&& action is OpenSession <==> step.stage is Begin
            &&& action is PromoteToOwner <==> step.stage is Promote
            &&& action is ActivateSession <==> step.stage is Activate
        }),
{
}

/// A candidate is given up for its detector, for the task that ran it, or for the voice, each with
/// its own reason, and for nothing else.
pub proof fn each_rejection_has_its_cause(
    c: BufferedSpeakerCandidate,
    stage: ReleaseStage,
    event: ReleaseEvent,
    tuning: WakeTuning,
)
    requires
        awaits(c, stage, event),
    ensures
        ({
            let (after, step) = next(c, stage, event, tuning);
            let reason = step.action->reason;
            let failed = event matches ReleaseEvent::Fed { heard: None, .. };
            let unaccepted = event == (ReleaseEvent::OwnerWeighed {
                accepted: false,
                separation_running: false,
                retry_at_ms: None,
            });
            &&& step.action is Reject <==> event is FeedTaskFailed || failed || unaccepted
            &&& step.action is Reject ==> (reason == RejectReason::DetectorTaskFailed <==> event
                is FeedTaskFailed)
            &&& step.action is Reject ==> (reason == RejectReason::DetectorFailed <==> failed)
            &&& step.action is Reject ==> (reason == RejectReason::VoiceprintNonMatch
                <==> unaccepted)
            &&& step.action is Reject ==> after.kind == BufferedSpeakerCandidateKind::Rejected
                && after.pcm_bytes == 0
        }),
{
}

/// What a found phrase is taken on with: a keyword counts as it was heard, with no confirmation
/// behind it, a transcript with the time it took, and only a whole phrase that was read shows the
/// capsule.
pub proof fn a_found_phrase_is_taken_on_as_it_was_found(
    c: BufferedSpeakerCandidate,
    stage: ReleaseStage,
    event: ReleaseEvent,
    tuning: WakeTuning,
)
    requires
        awaits(c, stage, event),
    ensures
        ({
            let step = next(c, stage, event, tuning).1;
            step.stage matches ReleaseStage::OwnerWindow {
                wake_match,
                phrase_signal,
                local_confirmation_ms,
            } ==> {
                &&& wake_match == WakeMatch::Keyword || wake_match is LocalTranscript || wake_match
                    is OwnerNear
                &&& phrase_signal == PhraseSignal::KeywordModel <==> wake_match
                    == WakeMatch::Keyword
                &&& phrase_signal == PhraseSignal::LocalTranscript <==> wake_match
                    != WakeMatch::Keyword
                &&& wake_match == WakeMatch::Keyword ==> local_confirmation_ms == 0
                &&& wake_match != WakeMatch::Keyword ==> event is Judged && local_confirmation_ms
                    == event->inference_ms
                &&& step.action->show_capsule <==> wake_match is LocalTranscript
                &&& wake_match is LocalTranscript ==> (event->verdict matches
                    ConfirmationVerdict::Matched { may_activate: true })
                &&& wake_match is OwnerNear ==> (event->verdict matches
                    ConfirmationVerdict::Unmatched { live_owner_near: true, .. })
            }
        }),
{
}

/// A phrase keeps what is known of it until the voice is weighed, whether that happens at once or
/// later.
pub proof fn a_phrase_keeps_what_is_known_of_it(
    c: BufferedSpeakerCandidate,
    wake_match: WakeMatch,
    phrase_signal: PhraseSignal,
    local_confirmation_ms: u64,
    ready: bool,
    tuning: WakeTuning,
)
    ensures
        ({
            let (after, step) = next(
                c,
                ReleaseStage::OwnerWindow { wake_match, phrase_signal, local_confirmation_ms },
                ReleaseEvent::OwnerWindowChecked { ready },
                tuning,
            );
            let phrase = if ready {
                step.stage->Verify_phrase
            } else {
                after.pending_phrase_match->0
            };
            &&& ready ==> step.stage is Verify && step.action == ReleaseAction::VerifyOwner
                && after == c
            &&& !ready ==> after.pending_phrase_match is Some && step.action is Wait
                && after.pcm_bytes == c.pcm_bytes && after.kind == c.kind
            &&& phrase.wake_match == wake_match
            &&& phrase.phrase_signal == phrase_signal
            &&& phrase.local_confirmation_ms == local_confirmation_ms
            &&& phrase.owner_verification_start_ms == tuning.owner_verification_start_ms
            &&& !phrase.owner_verified_by_extraction
        }),
{
}

/// A window that moves on starts anew where the model says, and one that does not is left alone; what
/// was heard has no part in it.
pub proof fn a_moved_window_starts_anew(
    c: BufferedSpeakerCandidate,
    heard: Option<bool>,
    step_ms: u64,
    stream_origin_bytes: usize,
    advance_window: bool,
    now: u64,
    tuning: WakeTuning,
)
    requires
        stream_origin_bytes <= c.pcm_bytes,
    ensures
        ({
            let after = next(
                c,
                ReleaseStage::Feed,
                ReleaseEvent::Fed { heard, step_ms, stream_origin_bytes, advance_window, now },
                tuning,
            ).0;
            &&& after.kws_stream_origin_bytes == stream_origin_bytes
            &&& advance_window ==> after.local_confirmation_window_origin_bytes
                == stream_origin_bytes && after.local_confirmation_attempts == 0
                && after.local_confirmation_last_snapshot_bytes == 0
            &&& !advance_window ==> after.local_confirmation_window_origin_bytes
                == c.local_confirmation_window_origin_bytes && after.local_confirmation_attempts
                == c.local_confirmation_attempts && after.local_confirmation_last_snapshot_bytes
                == c.local_confirmation_last_snapshot_bytes
            &&& after.detector == DetectorState::Ready
            &&& after.kws_phrase_detected <==> c.kws_phrase_detected || heard == Some(true)
            &&& heard == Some(true) && c.kws_first_hit_at is None ==> after.kws_first_hit_at
                == Some(now) && after.kws_first_hit_pcm_ms == Some(c.audio_ms())
            &&& heard != Some(true) || c.kws_first_hit_at is Some ==> after.kws_first_hit_at
                == c.kws_first_hit_at && after.kws_first_hit_pcm_ms == c.kws_first_hit_pcm_ms
            &&& c.kws_total_ms + step_ms <= u64::MAX ==> after.kws_total_ms == c.kws_total_ms
                + step_ms
        }),
{
}

/// What an unmatched confirmation counts: a part of the phrase, a near match, and an absence unless
/// the owner's voice was near; each for itself.
pub proof fn an_unmatched_confirmation_is_counted(
    c: BufferedSpeakerCandidate,
    partial_phrase: bool,
    near: NearPhraseEvidence,
    live_owner_near: bool,
    kws_absent_count: u32,
    local_absent_count: u32,
    absent_coverage: Option<AbsentCoverage>,
)
    requires
        c.local_partial_phrase_confirmations < u32::MAX,
        c.owner_near_phrase_confirmations < u32::MAX,
    ensures
        ({
            let after = denied(
                c,
                partial_phrase,
                near,
                live_owner_near,
                kws_absent_count,
                local_absent_count,
                absent_coverage,
            );
            &&& after.local_partial_phrase_confirmations == c.local_partial_phrase_confirmations
                + (if partial_phrase {
                1int
            } else {
                0
            })
            &&& after.owner_near_phrase_confirmations == c.owner_near_phrase_confirmations + (
            if near.phrase_absent && near.best_distance <= 2 && near.transcript_chars
                > near.phrase_chars {
                1int
            } else {
                0
            })
            &&& live_owner_near ==> after.kws_local_absent_count == c.kws_local_absent_count
                && after.local_absent_count == c.local_absent_count && after.local_absent_coverage
                == c.local_absent_coverage
            &&& !live_owner_near ==> after.kws_local_absent_count == kws_absent_count
                && after.local_absent_count == local_absent_count && after.local_absent_coverage
                == absent_coverage
        }),
{
}

/// The audio behind a position is what lies between it and the end, and nothing past the end.
pub proof fn the_audio_behind_a_position_is_the_rest(length: usize, position: usize)
    ensures
        position <= length ==> position + bytes_behind(length, position) == length,
        position > length ==> bytes_behind(length, position) == 0,
{
}

} // verus!
