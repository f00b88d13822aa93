//! Deciding a buffered candidate once its recording has ended.
//!
//! The last audio is fed to the keyword model, a running confirmation is waited for, and what
//! was missed is looked for once more in the whole buffer.  A phrase that holds up and belongs to
//! the owner becomes a session, or asks for a continuation where hardly anything followed it.

use vstd::prelude::*;
use crate::audio::{embedded_feed_chunks, in_pieces};
use crate::candidate::{
    coverage_after,
    take_early_capsule_session_id,
    AbsentCoverage,
    BufferedSpeakerCandidate,
    BufferedSpeakerCandidateKind,
    DetectorState,
    LocalConfirmationTask,
    NearPhraseEvidence,
    PhraseSignal,
    WakeMatch,
};
use crate::release::{bytes_behind, one_more};
use crate::session::SessionId;
use crate::stream::{EmbeddedStreamingDictation, StreamError, StreamingSession};

verus! {

/// Audio behind the wake phrase that makes a session worth opening: one second.
pub const MIN_POST_WAKE_DICTATION_PCM_BYTES: usize = 32_000;

/// Why a finished candidate is given up.
#[derive(Clone, Copy, Debug, PartialEq, Eq, Structural)]
pub enum TerminalReject {
    AlreadyRejected,
    DetectionFailed,
    PhraseNonMatch,
    VoiceprintNonMatch,
    VoiceprintVerificationFailed,
    ContinuationAlreadyActive,
}

impl TerminalReject {
    /// The label under which a rejection is reported.
    pub open spec fn name(self) -> Seq<char> {
        match self {
            TerminalReject::AlreadyRejected => "automatic_candidate_rejected"@,
            TerminalReject::DetectionFailed => "wake_phrase_detection_failed"@,
            TerminalReject::PhraseNonMatch => "wake_phrase_non_match"@,
            TerminalReject::VoiceprintNonMatch => "voiceprint_non_match"@,
            TerminalReject::VoiceprintVerificationFailed => "voiceprint_verification_failed"@,
            TerminalReject::ContinuationAlreadyActive => "wake_phrase_continuation_already_active"@,
        }
    }

    /// The label under which a rejection is reported.
    pub fn label(self) -> (r: &'static str)
        ensures
            r@ == self.name(),
    {
        match self {
            TerminalReject::AlreadyRejected => "automatic_candidate_rejected",
            TerminalReject::DetectionFailed => "wake_phrase_detection_failed",
            TerminalReject::PhraseNonMatch => "wake_phrase_non_match",
            TerminalReject::VoiceprintNonMatch => "voiceprint_non_match",
            TerminalReject::VoiceprintVerificationFailed => "voiceprint_verification_failed",
            TerminalReject::ContinuationAlreadyActive => "wake_phrase_continuation_already_active",
        }
    }
}

/// How an enrollment recording ended.
#[derive(Clone, Copy, Debug, PartialEq, Eq, Structural)]
pub enum EnrollmentEnd {
    Cancelled,
    Failed,
    Complete,
}

impl EnrollmentEnd {
    /// The label under which the end of an enrollment is reported.
    pub open spec fn name(self) -> Seq<char> {
        match self {
            EnrollmentEnd::Cancelled => "voiceprint_enrollment_cancelled"@,
            EnrollmentEnd::Failed => "voiceprint_enrollment_failed"@,
            EnrollmentEnd::Complete => "voiceprint_enrollment_complete"@,
        }
    }

    /// The label under which the end of an enrollment is reported.
    pub fn label(self) -> (r: &'static str)
        ensures
            r@ == self.name(),
    {
        match self {
            EnrollmentEnd::Cancelled => "voiceprint_enrollment_cancelled",
            EnrollmentEnd::Failed => "voiceprint_enrollment_failed",
            EnrollmentEnd::Complete => "voiceprint_enrollment_complete",
        }
    }
}

/// A phrase that was found, and what vouches for it.
#[derive(Clone, Copy, Debug, PartialEq, Eq, Structural)]
pub struct FoundPhrase {
    pub wake_match: WakeMatch,
    pub phrase_signal: PhraseSignal,
}

/// What a confirmation that was running at the end says where the keyword model is silent.
#[derive(Clone, Copy, Debug, PartialEq, Eq, Structural)]
pub enum TerminalInflightLocalDecision {
    /// The owner said something close to the phrase at the start of the buffer.
    AcceptOwnerNear,
    AcceptLocal,
    PreserveKwsFusion,
    /// The phrase is absent, and with authority in the stretch named here.
    RecordAbsent { coverage: Option<AbsentCoverage> },
}

/// What a last confirmation says of a phrase.
#[derive(Clone, Copy, Debug, PartialEq, Eq, Structural)]
pub enum LastConfirmation {
    /// The whole phrase is there, and may open a session without a keyword or not.
    Present {
        may_activate: bool,
        /// The owner said something close to it at the start of the buffer.
        owner_near: bool,
        /// How close to the phrase the transcript comes.
        near: NearPhraseEvidence,
        /// A second voice may have covered part of it.
        overlapped: bool,
    },
    /// The phrase is not there as such.
    Absent {
        /// It is close enough for the signal named here, or for none.
        fused: Option<PhraseSignal>,
        /// The owner said something close to it at the start of the buffer.
        owner_near: bool,
        /// How close to the phrase the transcript comes.
        near: NearPhraseEvidence,
        /// A second voice may have covered part of it.
        overlapped: bool,
        /// No voiceprint is enrolled for the phrase.
        not_enrolled: bool,
    },
    /// The recogniser could not answer.
    Unavailable { may_trust_keyword: bool },
}

/// What the decision of a finished candidate waits for.
#[derive(Clone, Copy, Debug, PartialEq, Eq, Structural)]
pub enum TerminalStage {
    Entry,
    Enrollment,
    EnrollmentResult,
    DetectorWait,
    Join,
    Feed { inflight: bool, origin_bytes: usize, kws_task: bool },
    ConfirmKeyword,
    Inflight { origin_bytes: usize, kws_task: bool },
    RecallChoice,
    Recall,
    ConfirmRecall,
    LastChance,
    Recoveries { found: Option<FoundPhrase> },
    Separation { found: Option<FoundPhrase> },
    Weigh { found: Option<FoundPhrase> },
    Locate { phrase: FoundPhrase },
    Continuation,
    ContinuationStart,
    /// Of the buffer the audio from `from` on is retained.
    Begin { from: usize },
    Promote { session_id: SessionId, from: usize },
    Activate { session_id: SessionId, from: usize },
    Done,
}

/// What came back from the outside work that the decision waited for.
#[derive(Clone, Copy, Debug, PartialEq, Eq, Structural)]
pub enum TerminalEvent {
    Ended,
    EnrollmentChecked { should_process: bool },
    EnrollmentProcessed { enrolled: bool },
    DetectorSettled { loaded: bool },
    ConfirmationJoined { completed: bool },
    FeedTaskFailed,
    /// The keyword model saw the rest: it heard the phrase or not, or failed on the audio.
    Fed { heard: Option<bool>, step_ms: u64 },
    KeywordConfirmed(LastConfirmation),
    InflightJudged(TerminalInflightLocalDecision),
    RecallChosen { worthwhile: bool },
    RecallFinished { found: bool },
    RecallConfirmed(LastConfirmation),
    LastChanceTaken(LastConfirmation),
    /// Whether repeated near matches, one strong overlap, or repeated overlaps of the owner may
    /// stand in for the phrase, whether the voiceprint matched, and whether the owner's track can
    /// be separated on this desktop.
    RecoveriesWeighed {
        near: bool,
        strong_overlap: bool,
        repeated_overlap: bool,
        owner_matched: bool,
        can_separate: bool,
    },
    SeparationFinished { recovered: bool },
    /// Phrase and voice were weighed together; `verified` tells whether the voiceprint answered.
    OwnerWeighed { accepted: bool, verified: bool },
    /// Where the phrase ends, and from where on audio is kept.
    PhraseLocated { post_wake_offset: usize, anchor_offset: usize },
    ContinuationStaged { staged: bool },
    ContinuationRequested { session_id: Option<SessionId> },
    SessionBegun(Option<SessionId>),
    LifecycleAnswered { promoted: bool },
    SessionActivated { active: bool },
}

/// The outside work that is to be done next.
#[derive(Clone, Copy, Debug, PartialEq, Eq, Structural)]
pub enum TerminalAction {
    CheckEnrollment,
    ProcessEnrollment,
    EndEnrollment(EnrollmentEnd),
    AwaitDetector,
    JoinConfirmation { started_at: u64 },
    /// Feed the audio from `from` on to the keyword model, finish it, and read the voiceprint.
    FeedRest { from: usize },
    ConfirmKeyword,
    JudgeInflight,
    ChooseRecall,
    RunRecall,
    ConfirmRecall,
    TakeLastChance,
    WeighRecoveries,
    SeparateOwner,
    WeighOwner,
    /// Locate the phrase; `calibrate` tells whether the keyword model may learn from it.
    LocatePhrase { calibrate: bool },
    StageContinuation { dismiss_capsule: Option<SessionId> },
    RequestContinuation,
    /// Drop the staged continuation and close the candidate.
    DropContinuation,
    ScheduleContinuationExpiry { session_id: SessionId },
    OpenSession,
    PromoteToOwner { session_id: SessionId },
    ActivateSession { session_id: SessionId },
    UndoRefusedSession { session_id: SessionId },
    UndoCancelledSession { session_id: SessionId },
    ReportNoSession,
    Reject { reason: TerminalReject, dismiss_capsule: Option<SessionId> },
    /// The session owns the recording, and is handed the retained audio: the `bytes` bytes that
    /// followed `from` in the buffer.
    Released { session_id: SessionId, from: usize, bytes: usize },
}

impl TerminalAction {
    /// The error that an action reports for the device segment it is about.
    pub fn error(self, embedded_session_id: u32) -> (r: Option<StreamError>)
        ensures
            r == (match self {
                TerminalAction::UndoRefusedSession { session_id } => Some(
                    StreamError::LateWakeRefused { embedded_session_id, session_id },
                ),
                TerminalAction::UndoCancelledSession { session_id } => Some(
                    StreamError::WakeCancelled,
                ),
                _ => None,
            }),
    {
        match self {
            TerminalAction::UndoRefusedSession { session_id } => Some(
                StreamError::LateWakeRefused { embedded_session_id, session_id },
            ),
            TerminalAction::UndoCancelledSession { session_id: _ } => Some(
                StreamError::WakeCancelled,
            ),
            _ => None,
        }
    }
}

/// How a confirmation that was running when the recording ended is joined.
#[derive(Clone, Copy, Debug, PartialEq, Eq, Structural)]
pub enum ConfirmationJoin {
    /// It has finished; its result is taken.
    Take,
    /// Its time is up; nothing is taken.
    GiveUp,
    /// It may take this much longer.
    Wait { limit_ms: u64 },
}

/// Decides how a running confirmation is joined, given what is left of its time.
pub fn join_confirmation(already_finished: bool, remaining_ms: u64) -> (r: ConfirmationJoin)
    ensures
        r == (if already_finished {
            ConfirmationJoin::Take
        } else if remaining_ms == 0 {
            ConfirmationJoin::GiveUp
        } else {
            ConfirmationJoin::Wait { limit_ms: remaining_ms }
        }),
{
    if already_finished {
        ConfirmationJoin::Take
    } else if remaining_ms == 0 {
        ConfirmationJoin::GiveUp
    } else {
        ConfirmationJoin::Wait { limit_ms: remaining_ms }
    }
}

impl TerminalAction {
    /// The pieces of the retained audio that a released session is handed, in order; nothing for
    /// any other action.
    pub fn feed(self) -> (r: Vec<(usize, usize)>)
        ensures
            in_pieces(
                r@,
                match self {
                    TerminalAction::Released { bytes, .. } => bytes as int,
                    _ => 0,
                },
            ),
    {
        match self {
            TerminalAction::Released { session_id: _, from: _, bytes } => embedded_feed_chunks(
                bytes,
            ),
            _ => embedded_feed_chunks(0),
        }
    }

    /// Whether a settled candidate ended its recording without a session.  `None` where an error
    /// is reported, or nothing is settled yet.
    pub open spec fn ends(self) -> Option<bool> {
        match self {
            TerminalAction::Released { session_id, from, bytes } => Some(false),
            TerminalAction::EndEnrollment(end) => Some(true),
            TerminalAction::Reject { reason, dismiss_capsule } => Some(true),
            TerminalAction::DropContinuation => Some(true),
            TerminalAction::ScheduleContinuationExpiry { session_id } => Some(true),
            _ => None,
        }
    }

    /// Whether a settled candidate ended its recording without a session.
    pub fn ends_recording(self) -> (r: Option<bool>)
        ensures
            r == self.ends(),
    {
        match self {
            TerminalAction::Released { .. } => Some(false),
            TerminalAction::EndEnrollment(_) => Some(true),
            TerminalAction::Reject { .. } => Some(true),
            TerminalAction::DropContinuation => Some(true),
            TerminalAction::ScheduleContinuationExpiry { .. } => Some(true),
            _ => None,
        }
    }
}

impl EmbeddedStreamingDictation {
    /// Takes the outcome of a finished candidate into the stream, and tells whether the candidate
    /// ended its recording without a session (`None` where an error is reported).  No candidate
    /// is left.  Only a release gives the stream a session; any other outcome leaves it as it is.
    pub fn settle_finished_candidate(&mut self, action: TerminalAction) -> (r: Option<bool>)
        requires
            old(self).wf(),
        ensures
            final(self).wf(),
            r == action.ends(),
            final(self).speaker_candidate is None,
            *final(self) == (EmbeddedStreamingDictation {
                session: match action {
                    TerminalAction::Released { session_id, from, bytes } => Some(
                        StreamingSession {
                            session_id,
                            proactive_stop_body_started: false,
                            proactive_stop_silence_ms: 0,
                            proactive_stop_dispatched: false,
                        },
                    ),
                    _ => old(self).session,
                },
                speaker_candidate: None,
                ..*old(self)
            }),
    {
        if let TerminalAction::Released { session_id, .. } = action {
            self.adopt_released_session(session_id, None, 0);
        } else {
            self.speaker_candidate = None;
        }
        action.ends_recording()
    }
}

/// One step of the decision.
#[derive(Clone, Copy, Debug, PartialEq, Eq, Structural)]
pub struct TerminalStep {
    pub stage: TerminalStage,
    pub action: TerminalAction,
}

/// The desktop's part in the decision.
#[derive(Clone, Copy, Debug, PartialEq, Eq, Structural)]
pub struct TerminalTuning {
    /// Whether a local recogniser confirms keywords on this desktop.
    pub confirms_locally: bool,
    /// Audio that a last confirmation needs.
    pub confirmation_start_bytes: usize,
}

/// The events that can arrive in a stage, with positions that lie inside the buffer.
pub open spec fn awaits(
    c: BufferedSpeakerCandidate,
    stage: TerminalStage,
    event: TerminalEvent,
) -> bool {
    match stage {
        TerminalStage::Entry => event is Ended,
        TerminalStage::Enrollment => event is EnrollmentChecked,
        TerminalStage::EnrollmentResult => event is EnrollmentProcessed,
        TerminalStage::DetectorWait => event is DetectorSettled,
        TerminalStage::Join => event is ConfirmationJoined && c.local_confirmation_task is Some,
        TerminalStage::Feed { inflight, origin_bytes, kws_task } => event is FeedTaskFailed
            || event is Fed,
        TerminalStage::ConfirmKeyword => event is KeywordConfirmed,
        TerminalStage::Inflight { origin_bytes, kws_task } => event is InflightJudged,
        TerminalStage::RecallChoice => event is RecallChosen,
        TerminalStage::Recall => event is RecallFinished,
        TerminalStage::ConfirmRecall => event is RecallConfirmed,
        TerminalStage::LastChance => event is LastChanceTaken,
        TerminalStage::Recoveries { found } => event is RecoveriesWeighed,
        TerminalStage::Separation { found } => event is SeparationFinished,
        TerminalStage::Weigh { found } => event is OwnerWeighed,
        TerminalStage::Locate { phrase } => event matches TerminalEvent::PhraseLocated {
            post_wake_offset,
            anchor_offset,
        } && anchor_offset <= c.pcm_bytes,
        TerminalStage::Continuation => event is ContinuationStaged,
        TerminalStage::ContinuationStart => event is ContinuationRequested,
        TerminalStage::Begin { from } => event is SessionBegun,
        TerminalStage::Promote { session_id, from } => event is LifecycleAnswered,
        TerminalStage::Activate { session_id, from } => event is SessionActivated,
        TerminalStage::Done => false,
    }
}

/// Whether an event can arrive in a stage, with positions that lie inside the buffer.
pub fn event_is_awaited(
    candidate: &BufferedSpeakerCandidate,
    stage: TerminalStage,
    event: TerminalEvent,
) -> (r: bool)
    ensures
        r == awaits(*candidate, stage, event),
{
    match stage {
        TerminalStage::Entry => matches!(event, TerminalEvent::Ended),
        TerminalStage::Enrollment => matches!(event, TerminalEvent::EnrollmentChecked { .. }),
        TerminalStage::EnrollmentResult => matches!(
            event,
            TerminalEvent::EnrollmentProcessed { .. }
        ),
        TerminalStage::DetectorWait => matches!(event, TerminalEvent::DetectorSettled { .. }),
        TerminalStage::Join => matches!(event, TerminalEvent::ConfirmationJoined { .. })
            && candidate.local_confirmation_task.is_some(),
        TerminalStage::Feed { .. } => matches!(
            event,
            TerminalEvent::FeedTaskFailed | TerminalEvent::Fed { .. }
        ),
        TerminalStage::ConfirmKeyword => matches!(event, TerminalEvent::KeywordConfirmed(_)),
        TerminalStage::Inflight { .. } => matches!(event, TerminalEvent::InflightJudged(_)),
        TerminalStage::RecallChoice => matches!(event, TerminalEvent::RecallChosen { .. }),
        TerminalStage::Recall => matches!(event, TerminalEvent::RecallFinished { .. }),
        TerminalStage::ConfirmRecall => matches!(event, TerminalEvent::RecallConfirmed(_)),
        TerminalStage::LastChance => matches!(event, TerminalEvent::LastChanceTaken(_)),
        TerminalStage::Recoveries { .. } => matches!(
            event,
            TerminalEvent::RecoveriesWeighed { .. }
        ),
        TerminalStage::Separation { .. } => matches!(
            event,
            TerminalEvent::SeparationFinished { .. }
        ),
        TerminalStage::Weigh { .. } => matches!(event, TerminalEvent::OwnerWeighed { .. }),
        TerminalStage::Locate { .. } => match event {
            TerminalEvent::PhraseLocated { anchor_offset, .. } => anchor_offset
                <= candidate.pcm_bytes,
            _ => false,
        },
        TerminalStage::Continuation => matches!(event, TerminalEvent::ContinuationStaged { .. }),
        TerminalStage::ContinuationStart => matches!(
            event,
            TerminalEvent::ContinuationRequested { .. }
        ),
        TerminalStage::Begin { .. } => matches!(event, TerminalEvent::SessionBegun(_)),
        TerminalStage::Promote { .. } => matches!(event, TerminalEvent::LifecycleAnswered { .. }),
        TerminalStage::Activate { .. } => matches!(event, TerminalEvent::SessionActivated { .. }),
        TerminalStage::Done => false,
    }
}

/// Go on to `stage` with `action`.
pub open spec fn go(stage: TerminalStage, action: TerminalAction) -> TerminalStep {
    TerminalStep { stage, action }
}

/// Give the candidate up.
pub open spec fn rejection(reason: TerminalReject, dismiss: Option<SessionId>) -> TerminalStep {
    go(TerminalStage::Done, TerminalAction::Reject { reason, dismiss_capsule: dismiss })
}

/// The candidate without its early capsule.
pub open spec fn uncapsuled(c: BufferedSpeakerCandidate) -> BufferedSpeakerCandidate {
    BufferedSpeakerCandidate { early_capsule_session_id: None, ..c }
}

/// Give the candidate up and take its early capsule away.
pub open spec fn dismissed(c: BufferedSpeakerCandidate, reason: TerminalReject) -> (
    BufferedSpeakerCandidate,
    TerminalStep,
) {
    (uncapsuled(c), rejection(reason, c.early_capsule_session_id))
}

/// Feed the rest of the audio to the keyword model, where there is one.
pub open spec fn feed_rest(
    c: BufferedSpeakerCandidate,
    inflight: bool,
    origin_bytes: usize,
    kws_task: bool,
) -> (BufferedSpeakerCandidate, TerminalStep) {
    if c.detector == DetectorState::Ready {
        (
            BufferedSpeakerCandidate {
                detector: DetectorState::Missing,
                kws_fed_bytes: c.pcm_bytes,
                ..c
            },
            go(
                TerminalStage::Feed { inflight, origin_bytes, kws_task },
                TerminalAction::FeedRest { from: c.kws_fed_bytes },
            ),
        )
    } else {
        dismissed(c, TerminalReject::DetectionFailed)
    }
}

/// Wait for a running confirmation, or feed the rest at once.
pub open spec fn join_or_feed(c: BufferedSpeakerCandidate, tuning: TerminalTuning) -> (
    BufferedSpeakerCandidate,
    TerminalStep,
) {
    match c.local_confirmation_task {
        Some(task) if tuning.confirms_locally => (
            c,
            go(
                TerminalStage::Join,
                TerminalAction::JoinConfirmation { started_at: task.started_at },
            ),
        ),
        _ => feed_rest(c, false, 0, false),
    }
}

/// The phrase at the start of the buffer, read in a transcript.
pub open spec fn at_start() -> FoundPhrase {
    FoundPhrase {
        wake_match: WakeMatch::BufferStart,
        phrase_signal: PhraseSignal::LocalTranscript,
    }
}

/// The phrase where the keyword model heard it, with `signal` to vouch for it.
pub open spec fn keyword(signal: PhraseSignal) -> FoundPhrase {
    FoundPhrase { wake_match: WakeMatch::Keyword, phrase_signal: signal }
}

/// On to the recoveries with what was found.
pub open spec fn recover(found: Option<FoundPhrase>) -> TerminalStep {
    go(TerminalStage::Recoveries { found }, TerminalAction::WeighRecoveries)
}

/// What a confirmation of a heard keyword leaves of it.
pub open spec fn keyword_after(last: LastConfirmation) -> Option<FoundPhrase> {
    match last {
        LastConfirmation::Present { .. } => Some(keyword(PhraseSignal::LocalTranscript)),
        LastConfirmation::Absent { fused, not_enrolled, .. } => match fused {
            Some(signal) => Some(keyword(signal)),
            None => if not_enrolled {
                Some(keyword(PhraseSignal::KeywordModel))
            } else {
                None
            },
        },
        LastConfirmation::Unavailable { may_trust_keyword } => if may_trust_keyword {
            Some(keyword(PhraseSignal::KeywordModel))
        } else {
            None
        },
    }
}

/// What a confirmation of a recalled phrase leaves of it.
pub open spec fn recall_after(last: LastConfirmation) -> Option<FoundPhrase> {
    match last {
        LastConfirmation::Present { .. } => Some(keyword(PhraseSignal::LocalTranscript)),
        LastConfirmation::Absent { fused, .. } => if fused is Some {
            Some(keyword(PhraseSignal::KeywordModel))
        } else {
            None
        },
        LastConfirmation::Unavailable { may_trust_keyword } => Some(
            keyword(PhraseSignal::KeywordModel),
        ),
    }
}

/// What a last look leaves where no phrase in it opens a session: the owner may vouch for a near
/// match, and otherwise the near match and the overlap are counted.
pub open spec fn unopened(
    c: BufferedSpeakerCandidate,
    owner_near: bool,
    near: NearPhraseEvidence,
    overlapped: bool,
) -> (BufferedSpeakerCandidate, Option<FoundPhrase>) {
    if owner_near {
        (c, Some(at_start()))
    } else {
        (
            BufferedSpeakerCandidate {
                owner_near_phrase_confirmations: if near.near() {
                    one_more(c.owner_near_phrase_confirmations)
                } else {
                    c.owner_near_phrase_confirmations
                },
                local_owner_overlap_near_confirmations: if overlapped {
                    one_more(c.local_owner_overlap_near_confirmations)
                } else {
                    c.local_owner_overlap_near_confirmations
                },
                ..c
            },
            None,
        )
    }
}

/// What a last look at the whole buffer finds, and what it leaves in the counters.
pub open spec fn last_chance(c: BufferedSpeakerCandidate, last: LastConfirmation) -> (
    BufferedSpeakerCandidate,
    Option<FoundPhrase>,
) {
    match last {
        LastConfirmation::Present { may_activate, owner_near, near, overlapped } => if may_activate {
            (
                c,
                Some(
                    FoundPhrase {
                        wake_match: WakeMatch::LocalTranscript {
                            origin_bytes: 0,
                            refines_keyword: false,
                        },
                        phrase_signal: PhraseSignal::LocalTranscript,
                    },
                ),
            )
        } else {
            unopened(c, owner_near, near, overlapped)
        },
        LastConfirmation::Absent { owner_near, near, overlapped, .. } => unopened(
            c,
            owner_near,
            near,
            overlapped,
        ),
        LastConfirmation::Unavailable { may_trust_keyword } => (c, None),
    }
}

/// What a confirmation that was still running contributes.
pub open spec fn inflight_after(
    c: BufferedSpeakerCandidate,
    origin_bytes: usize,
    kws_task: bool,
    decision: TerminalInflightLocalDecision,
) -> (BufferedSpeakerCandidate, TerminalStep) {
    match decision {
        TerminalInflightLocalDecision::AcceptOwnerNear => (c, recover(Some(at_start()))),
        TerminalInflightLocalDecision::AcceptLocal => (
            c,
            recover(
                Some(
                    FoundPhrase {
                        wake_match: WakeMatch::LocalTranscript {
                            origin_bytes: if kws_task {
                                0
                            } else {
                                origin_bytes
                            },
                            refines_keyword: false,
                        },
                        phrase_signal: PhraseSignal::LocalTranscript,
                    },
                ),
            ),
        ),
        TerminalInflightLocalDecision::PreserveKwsFusion => (
            BufferedSpeakerCandidate { local_kws_fusion_evidence: true, ..c },
            go(TerminalStage::RecallChoice, TerminalAction::ChooseRecall),
        ),
        TerminalInflightLocalDecision::RecordAbsent { coverage } => (
            BufferedSpeakerCandidate {
                local_absent_count: one_more(c.local_absent_count),
                local_absent_coverage: coverage_after(c.local_absent_coverage, coverage),
                ..c
            },
            go(TerminalStage::RecallChoice, TerminalAction::ChooseRecall),
        ),
    }
}

/// What the keyword model's last word leads to.
pub open spec fn after_feed(
    c: BufferedSpeakerCandidate,
    inflight: bool,
    origin_bytes: usize,
    kws_task: bool,
    heard: Option<bool>,
    step_ms: u64,
    tuning: TerminalTuning,
) -> (BufferedSpeakerCandidate, TerminalStep) {
    let timed = BufferedSpeakerCandidate {
        kws_total_ms: crate::endpoint::capped_sum(c.kws_total_ms, step_ms) as u64,
        ..c
    };
    (
        timed,
        match heard {
            None => rejection(TerminalReject::DetectionFailed, None),
            Some(true) => if tuning.confirms_locally {
                go(TerminalStage::ConfirmKeyword, TerminalAction::ConfirmKeyword)
            } else {
                recover(Some(keyword(PhraseSignal::KeywordModel)))
            },
            Some(false) => if inflight {
                go(
                    TerminalStage::Inflight { origin_bytes, kws_task },
                    TerminalAction::JudgeInflight,
                )
            } else {
                go(TerminalStage::RecallChoice, TerminalAction::ChooseRecall)
            },
        },
    )
}

/// What is found in the end: the phrase itself, or what stands in for it.  A single strong
/// overlap counts only where an overlap was observed at all.
pub open spec fn recovered(
    c: BufferedSpeakerCandidate,
    found: Option<FoundPhrase>,
    near: bool,
    strong_overlap: bool,
    repeated_overlap: bool,
) -> Option<FoundPhrase> {
    if found is None && (near || repeated_overlap || (strong_overlap
        && c.local_owner_overlap_near_confirmations > 0)) {
        Some(at_start())
    } else {
        found
    }
}

/// What follows once the phrase is located.
pub open spec fn located(
    c: BufferedSpeakerCandidate,
    post_wake_offset: usize,
    anchor_offset: usize,
) -> (BufferedSpeakerCandidate, TerminalStep) {
    let body = bytes_behind(c.pcm_bytes, post_wake_offset);
    let kept = c.kept_from(anchor_offset);
    if body < MIN_POST_WAKE_DICTATION_PCM_BYTES {
        (
            uncapsuled(kept),
            go(
                TerminalStage::Continuation,
                TerminalAction::StageContinuation { dismiss_capsule: c.early_capsule_session_id },
            ),
        )
    } else {
        (kept, go(TerminalStage::Begin { from: anchor_offset }, TerminalAction::OpenSession))
    }
}

/// How the decision begins.
pub open spec fn entered(c: BufferedSpeakerCandidate, tuning: TerminalTuning) -> (
    BufferedSpeakerCandidate,
    TerminalStep,
) {
    match c.kind {
        BufferedSpeakerCandidateKind::Rejected => dismissed(c, TerminalReject::AlreadyRejected),
        BufferedSpeakerCandidateKind::Enrollment => (
            c,
            go(TerminalStage::Enrollment, TerminalAction::CheckEnrollment),
        ),
        BufferedSpeakerCandidateKind::Verification => if c.detector == DetectorState::Loading {
            (c, go(TerminalStage::DetectorWait, TerminalAction::AwaitDetector))
        } else {
            join_or_feed(c, tuning)
        },
    }
}

/// What a look through the whole buffer leads to.
pub open spec fn after_recall(
    c: BufferedSpeakerCandidate,
    found: bool,
    tuning: TerminalTuning,
) -> TerminalStep {
    if found {
        if tuning.confirms_locally {
            go(TerminalStage::ConfirmRecall, TerminalAction::ConfirmRecall)
        } else {
            recover(Some(keyword(PhraseSignal::KeywordModel)))
        }
    } else if tuning.confirms_locally && c.pcm_bytes >= tuning.confirmation_start_bytes {
        go(TerminalStage::LastChance, TerminalAction::TakeLastChance)
    } else {
        recover(None)
    }
}

/// The owner's track is separated where nothing was found or the voiceprint did not match.
pub open spec fn after_recoveries(
    found: Option<FoundPhrase>,
    owner_matched: bool,
    can_separate: bool,
) -> TerminalStep {
    if can_separate && (found is None || !owner_matched) {
        go(TerminalStage::Separation { found }, TerminalAction::SeparateOwner)
    } else {
        go(TerminalStage::Weigh { found }, TerminalAction::WeighOwner)
    }
}

/// The phrase in the separated owner track.
pub open spec fn extracted() -> FoundPhrase {
    FoundPhrase { wake_match: WakeMatch::Extracted, phrase_signal: PhraseSignal::LocalTranscript }
}

/// What the weighing of phrase and voice leads to.
pub open spec fn weighed(
    c: BufferedSpeakerCandidate,
    found: Option<FoundPhrase>,
    accepted: bool,
    verified: bool,
) -> (BufferedSpeakerCandidate, TerminalStep) {
    match found {
        None => dismissed(c, TerminalReject::PhraseNonMatch),
        Some(phrase) => if accepted && verified {
            (
                c,
                go(
                    TerminalStage::Locate { phrase },
                    TerminalAction::LocatePhrase {
                        calibrate: phrase.phrase_signal == PhraseSignal::KeywordModel,
                    },
                ),
            )
        } else if verified {
            dismissed(c, TerminalReject::VoiceprintNonMatch)
        } else {
            dismissed(c, TerminalReject::VoiceprintVerificationFailed)
        },
    }
}

/// The candidate and the step that follow an event.
pub open spec fn next(
    c: BufferedSpeakerCandidate,
    stage: TerminalStage,
    event: TerminalEvent,
    tuning: TerminalTuning,
) -> (BufferedSpeakerCandidate, TerminalStep) {
    match stage {
        TerminalStage::Entry => entered(c, tuning),
        TerminalStage::Enrollment => (
            c,
            if event->should_process {
                go(TerminalStage::EnrollmentResult, TerminalAction::ProcessEnrollment)
            } else {
                go(TerminalStage::Done, TerminalAction::EndEnrollment(EnrollmentEnd::Cancelled))
            },
        ),
        TerminalStage::EnrollmentResult => (
            c,
            go(
                TerminalStage::Done,
                TerminalAction::EndEnrollment(
                    if event->enrolled {
                        EnrollmentEnd::Complete
                    } else {
                        EnrollmentEnd::Failed
                    },
                ),
            ),
        ),
        TerminalStage::DetectorWait => join_or_feed(
            BufferedSpeakerCandidate {
                detector: if event->loaded {
                    DetectorState::Ready
                } else {
                    DetectorState::Missing
                },
                ..c
            },
            tuning,
        ),
        TerminalStage::Join => feed_rest(
            BufferedSpeakerCandidate { local_confirmation_task: None, ..c },
            event->completed,
            c.local_confirmation_task->0.origin_bytes,
            c.local_confirmation_task->0.has_keyword_model_hit,
        ),
        TerminalStage::Feed { inflight, origin_bytes, kws_task } => if event is Fed {
            after_feed(
                c,
                inflight,
                origin_bytes,
                kws_task,
                event->heard,
                event->step_ms,
                tuning,
            )
        } else {
            (c, rejection(TerminalReject::DetectionFailed, None))
        },
        TerminalStage::ConfirmKeyword => (c, recover(keyword_after(event->KeywordConfirmed_0))),
        TerminalStage::Inflight { origin_bytes, kws_task } => inflight_after(
            c,
            origin_bytes,
            kws_task,
            event->InflightJudged_0,
        ),
        TerminalStage::RecallChoice => (
            c,
            if event->worthwhile {
                go(TerminalStage::Recall, TerminalAction::RunRecall)
            } else {
                recover(None)
            },
        ),
        TerminalStage::Recall => (c, after_recall(c, event->found, tuning)),
        TerminalStage::ConfirmRecall => (c, recover(recall_after(event->RecallConfirmed_0))),
        TerminalStage::LastChance => (
            last_chance(c, event->LastChanceTaken_0).0,
            recover(last_chance(c, event->LastChanceTaken_0).1),
        ),
        TerminalStage::Recoveries { found } => (
            c,
            after_recoveries(
                recovered(c, found, event->near, event->strong_overlap, event->repeated_overlap),
                event->owner_matched,
                event->can_separate,
            ),
        ),
        TerminalStage::Separation { found } => (
            c,
            go(
                TerminalStage::Weigh {
                    found: if event->recovered {
                        Some(extracted())
                    } else {
                        found
                    },
                },
                TerminalAction::WeighOwner,
            ),
        ),
        TerminalStage::Weigh { found } => weighed(c, found, event->accepted, event->verified),
        TerminalStage::Locate { phrase } => located(
            c,
            event->post_wake_offset,
            event->anchor_offset,
        ),
        TerminalStage::Continuation => (
            c,
            if event->staged {
                go(TerminalStage::ContinuationStart, TerminalAction::RequestContinuation)
            } else {
                rejection(TerminalReject::ContinuationAlreadyActive, None)
            },
        ),
        TerminalStage::ContinuationStart => (
            c,
            go(
                TerminalStage::Done,
                match event->session_id {
                    Some(session_id) => TerminalAction::ScheduleContinuationExpiry { session_id },
                    None => TerminalAction::DropContinuation,
                },
            ),
        ),
        TerminalStage::Begin { from } => (
            c,
            match event->SessionBegun_0 {
                Some(session_id) => go(
                    TerminalStage::Promote { session_id, from },
                    TerminalAction::PromoteToOwner { session_id },
                ),
                None => go(TerminalStage::Done, TerminalAction::ReportNoSession),
            },
        ),
        TerminalStage::Promote { session_id, from } => (
            c,
            if event->promoted {
                go(
                    TerminalStage::Activate { session_id, from },
                    TerminalAction::ActivateSession { session_id },
                )
            } else {
                go(TerminalStage::Done, TerminalAction::UndoRefusedSession { session_id })
            },
        ),
        TerminalStage::Activate { session_id, from } => (
            c,
            if event->active {
                go(
                    TerminalStage::Done,
                    TerminalAction::Released { session_id, from, bytes: c.pcm_bytes },
                )
            } else {
                go(TerminalStage::Done, TerminalAction::UndoCancelledSession { session_id })
            },
        ),
        TerminalStage::Done => (c, rejection(TerminalReject::AlreadyRejected, None)),
    }
}

fn on(stage: TerminalStage, action: TerminalAction) -> (r: TerminalStep)
    ensures
        r == go(stage, action),
{
    TerminalStep { stage, action }
}

fn reject(reason: TerminalReject, dismiss: Option<SessionId>) -> (r: TerminalStep)
    ensures
        r == rejection(reason, dismiss),
{
    on(TerminalStage::Done, TerminalAction::Reject { reason, dismiss_capsule: dismiss })
}

fn dismiss(candidate: &mut BufferedSpeakerCandidate, reason: TerminalReject) -> (r: TerminalStep)
    ensures
        (*final(candidate), r) == dismissed(*old(candidate), reason),
{
    let shown: Option<SessionId> = take_early_capsule_session_id(candidate);
    reject(reason, shown)
}

fn feed(
    candidate: &mut BufferedSpeakerCandidate,
    inflight: bool,
    origin_bytes: usize,
    kws_task: bool,
) -> (r: TerminalStep)
    ensures
        (*final(candidate), r) == feed_rest(*old(candidate), inflight, origin_bytes, kws_task),
{
    if candidate.detector != DetectorState::Ready {
        return dismiss(candidate, TerminalReject::DetectionFailed);
    }
    let from: usize = candidate.kws_fed_bytes;
    candidate.detector = DetectorState::Missing;
    candidate.kws_fed_bytes = candidate.pcm_bytes;
    on(
        TerminalStage::Feed { inflight, origin_bytes, kws_task },
        TerminalAction::FeedRest { from },
    )
}

fn join(candidate: &mut BufferedSpeakerCandidate, tuning: TerminalTuning) -> (r: TerminalStep)
    ensures
        (*final(candidate), r) == join_or_feed(*old(candidate), tuning),
{
    let running: Option<LocalConfirmationTask> = candidate.local_confirmation_task;
    if let Some(task) = running {
        if tuning.confirms_locally {
            return on(
                TerminalStage::Join,
                TerminalAction::JoinConfirmation { started_at: task.started_at },
            );
        }
    }
    feed(candidate, false, 0, false)
}

fn to_recoveries(found: Option<FoundPhrase>) -> (r: TerminalStep)
    ensures
        r == recover(found),
{
    on(TerminalStage::Recoveries { found }, TerminalAction::WeighRecoveries)
}

fn phrase_at_start() -> (r: FoundPhrase)
    ensures
        r == at_start(),
{
    FoundPhrase {
        wake_match: WakeMatch::BufferStart,
        phrase_signal: PhraseSignal::LocalTranscript,
    }
}

fn keyword_phrase(signal: PhraseSignal) -> (r: FoundPhrase)
    ensures
        r == keyword(signal),
{
    FoundPhrase { wake_match: WakeMatch::Keyword, phrase_signal: signal }
}

fn confirm_keyword(last: LastConfirmation) -> (r: Option<FoundPhrase>)
    ensures
        r == keyword_after(last),
{
    match last {
        LastConfirmation::Present { .. } => Some(
            keyword_phrase(PhraseSignal::LocalTranscript),
        ),
        LastConfirmation::Absent { fused, not_enrolled, .. } => match fused {
            Some(signal) => Some(keyword_phrase(signal)),
            None => if not_enrolled {
                Some(keyword_phrase(PhraseSignal::KeywordModel))
            } else {
                None
            },
        },
        LastConfirmation::Unavailable { may_trust_keyword } => if may_trust_keyword {
            Some(keyword_phrase(PhraseSignal::KeywordModel))
        } else {
            None
        },
    }
}

fn confirm_recall(last: LastConfirmation) -> (r: Option<FoundPhrase>)
    ensures
        r == recall_after(last),
{
    match last {
        LastConfirmation::Present { .. } => Some(
            keyword_phrase(PhraseSignal::LocalTranscript),
        ),
        LastConfirmation::Absent { fused, .. } => if fused.is_some() {
            Some(keyword_phrase(PhraseSignal::KeywordModel))
        } else {
            None
        },
        LastConfirmation::Unavailable { may_trust_keyword: _ } => Some(
            keyword_phrase(PhraseSignal::KeywordModel),
        ),
    }
}

fn count_evidence(
    candidate: &mut BufferedSpeakerCandidate,
    owner_near: bool,
    near: NearPhraseEvidence,
    overlapped: bool,
) -> (r: Option<FoundPhrase>)
    ensures
        (*final(candidate), r) == unopened(*old(candidate), owner_near, near, overlapped),
{
    if owner_near {
        return Some(phrase_at_start());
    }
    if near.is_near() {
        candidate.owner_near_phrase_confirmations = candidate
            .owner_near_phrase_confirmations.saturating_add(1);
    }
    if overlapped {
        candidate.local_owner_overlap_near_confirmations = candidate
            .local_owner_overlap_near_confirmations.saturating_add(1);
    }
    None
}

fn take_last_chance(candidate: &mut BufferedSpeakerCandidate, last: LastConfirmation) -> (r: Option<
    FoundPhrase,
>)
    ensures
        (*final(candidate), r) == last_chance(*old(candidate), last),
{
    match last {
        LastConfirmation::Present { may_activate, owner_near, near, overlapped } => {
            if may_activate {
                Some(
                    FoundPhrase {
                        wake_match: WakeMatch::LocalTranscript {
                            origin_bytes: 0,
                            refines_keyword: false,
                        },
                        phrase_signal: PhraseSignal::LocalTranscript,
                    },
                )
            } else {
                count_evidence(candidate, owner_near, near, overlapped)
            }
        },
        LastConfirmation::Absent { owner_near, near, overlapped, .. } => count_evidence(
            candidate,
            owner_near,
            near,
            overlapped,
        ),
        LastConfirmation::Unavailable { may_trust_keyword: _ } => None,
    }
}

fn judge_inflight(
    candidate: &mut BufferedSpeakerCandidate,
    origin_bytes: usize,
    kws_task: bool,
    decision: TerminalInflightLocalDecision,
) -> (r: TerminalStep)
    ensures
        (*final(candidate), r) == inflight_after(
            *old(candidate),
            origin_bytes,
            kws_task,
            decision,
        ),
{
    match decision {
        TerminalInflightLocalDecision::AcceptOwnerNear => to_recoveries(Some(phrase_at_start())),
        TerminalInflightLocalDecision::AcceptLocal => {
            let origin: usize = if kws_task {
                0
            } else {
                origin_bytes
            };
            to_recoveries(
                Some(
                    FoundPhrase {
                        wake_match: WakeMatch::LocalTranscript {
                            origin_bytes: origin,
                            refines_keyword: false,
                        },
                        phrase_signal: PhraseSignal::LocalTranscript,
                    },
                ),
            )
        },
        TerminalInflightLocalDecision::PreserveKwsFusion => {
            candidate.local_kws_fusion_evidence = true;
            on(TerminalStage::RecallChoice, TerminalAction::ChooseRecall)
        },
        TerminalInflightLocalDecision::RecordAbsent { coverage } => {
            candidate.local_absent_count = candidate.local_absent_count.saturating_add(1);
            if coverage.is_some() {
                candidate.local_absent_coverage = coverage;
            }
            on(TerminalStage::RecallChoice, TerminalAction::ChooseRecall)
        },
    }
}

fn settle_feed(
    candidate: &mut BufferedSpeakerCandidate,
    inflight: bool,
    origin_bytes: usize,
    kws_task: bool,
    heard: Option<bool>,
    step_ms: u64,
    tuning: TerminalTuning,
) -> (r: TerminalStep)
    ensures
        (*final(candidate), r) == after_feed(
            *old(candidate),
            inflight,
            origin_bytes,
            kws_task,
            heard,
            step_ms,
            tuning,
        ),
{
    candidate.kws_total_ms = candidate.kws_total_ms.saturating_add(step_ms);
    match heard {
        None => reject(TerminalReject::DetectionFailed, None),
        Some(hit) => {
            if hit {
                if tuning.confirms_locally {
                    on(TerminalStage::ConfirmKeyword, TerminalAction::ConfirmKeyword)
                } else {
                    to_recoveries(Some(keyword_phrase(PhraseSignal::KeywordModel)))
                }
            } else if inflight {
                on(
                    TerminalStage::Inflight { origin_bytes, kws_task },
                    TerminalAction::JudgeInflight,
                )
            } else {
                on(TerminalStage::RecallChoice, TerminalAction::ChooseRecall)
            }
        },
    }
}

fn locate(
    candidate: &mut BufferedSpeakerCandidate,
    post_wake_offset: usize,
    anchor_offset: usize,
) -> (r: TerminalStep)
    requires
        anchor_offset <= old(candidate).pcm_bytes,
    ensures
        (*final(candidate), r) == located(*old(candidate), post_wake_offset, anchor_offset),
{
    let body: usize = candidate.pcm_bytes.saturating_sub(post_wake_offset);
    candidate.keep_from(anchor_offset);
    if body < MIN_POST_WAKE_DICTATION_PCM_BYTES {
        let shown: Option<SessionId> = take_early_capsule_session_id(candidate);
        on(
            TerminalStage::Continuation,
            TerminalAction::StageContinuation { dismiss_capsule: shown },
        )
    } else {
        on(TerminalStage::Begin { from: anchor_offset }, TerminalAction::OpenSession)
    }
}

fn settle_weighing(
    candidate: &mut BufferedSpeakerCandidate,
    found: Option<FoundPhrase>,
    accepted: bool,
    verified: bool,
) -> (r: TerminalStep)
    ensures
        (*final(candidate), r) == weighed(*old(candidate), found, accepted, verified),
{
    match found {
        None => dismiss(candidate, TerminalReject::PhraseNonMatch),
        Some(phrase) => {
            if accepted && verified {
                return on(
                    TerminalStage::Locate { phrase },
                    TerminalAction::LocatePhrase {
                        calibrate: phrase.phrase_signal == PhraseSignal::KeywordModel,
                    },
                );
            }
            if verified {
                dismiss(candidate, TerminalReject::VoiceprintNonMatch)
            } else {
                dismiss(candidate, TerminalReject::VoiceprintVerificationFailed)
            }
        },
    }
}

fn enter(candidate: &mut BufferedSpeakerCandidate, tuning: TerminalTuning) -> (r: TerminalStep)
    ensures
        (*final(candidate), r) == entered(*old(candidate), tuning),
{
    match candidate.kind {
        BufferedSpeakerCandidateKind::Rejected => dismiss(
            candidate,
            TerminalReject::AlreadyRejected,
        ),
        BufferedSpeakerCandidateKind::Enrollment => on(
            TerminalStage::Enrollment,
            TerminalAction::CheckEnrollment,
        ),
        BufferedSpeakerCandidateKind::Verification => {
            if candidate.detector == DetectorState::Loading {
                on(TerminalStage::DetectorWait, TerminalAction::AwaitDetector)
            } else {
                join(candidate, tuning)
            }
        },
    }
}

/// The step of the decision on a finished candidate that follows an event.
pub fn finish_buffered_speaker_candidate(
    candidate: &mut BufferedSpeakerCandidate,
    stage: TerminalStage,
    event: TerminalEvent,
    tuning: TerminalTuning,
) -> (r: TerminalStep)
    requires
        old(candidate).wf(),
        awaits(*old(candidate), stage, event),
    ensures
        (*final(candidate), r) == next(*old(candidate), stage, event, tuning),
        final(candidate).wf(),
{
    let step: TerminalStep = match (stage, event) {
        (TerminalStage::Entry, _) => enter(candidate, tuning),
        (TerminalStage::Enrollment, TerminalEvent::EnrollmentChecked { should_process }) => {
            if should_process {
                on(TerminalStage::EnrollmentResult, TerminalAction::ProcessEnrollment)
            } else {
                on(TerminalStage::Done, TerminalAction::EndEnrollment(EnrollmentEnd::Cancelled))
            }
        },
        (TerminalStage::EnrollmentResult, TerminalEvent::EnrollmentProcessed { enrolled }) => {
            if enrolled {
                on(TerminalStage::Done, TerminalAction::EndEnrollment(EnrollmentEnd::Complete))
            } else {
                on(TerminalStage::Done, TerminalAction::EndEnrollment(EnrollmentEnd::Failed))
            }
        },
        (TerminalStage::DetectorWait, TerminalEvent::DetectorSettled { loaded }) => {
            if loaded {
                candidate.detector = DetectorState::Ready;
            } else {
                candidate.detector = DetectorState::Missing;
            }
            join(candidate, tuning)
        },
        (TerminalStage::Join, TerminalEvent::ConfirmationJoined { completed }) => {
            let running: Option<LocalConfirmationTask> = candidate.local_confirmation_task;
            match running {
                Some(task) => {
                    candidate.local_confirmation_task = None;
                    feed(candidate, completed, task.origin_bytes, task.has_keyword_model_hit)
                },
                None => feed(candidate, false, 0, false),
            }
        },
        (
            TerminalStage::Feed { inflight, origin_bytes, kws_task },
            TerminalEvent::Fed { heard, step_ms },
        ) => settle_feed(candidate, inflight, origin_bytes, kws_task, heard, step_ms, tuning),
        (TerminalStage::Feed { .. }, _) => reject(TerminalReject::DetectionFailed, None),
        (TerminalStage::ConfirmKeyword, TerminalEvent::KeywordConfirmed(last)) => to_recoveries(
            confirm_keyword(last),
        ),
        (
            TerminalStage::Inflight { origin_bytes, kws_task },
            TerminalEvent::InflightJudged(decision),
        ) => judge_inflight(candidate, origin_bytes, kws_task, decision),
        (TerminalStage::RecallChoice, TerminalEvent::RecallChosen { worthwhile }) => {
            if worthwhile {
                on(TerminalStage::Recall, TerminalAction::RunRecall)
            } else {
                to_recoveries(None)
            }
        },
        (TerminalStage::Recall, TerminalEvent::RecallFinished { found }) => {
            if found {
                if tuning.confirms_locally {
                    on(TerminalStage::ConfirmRecall, TerminalAction::ConfirmRecall)
                } else {
                    to_recoveries(Some(keyword_phrase(PhraseSignal::KeywordModel)))
                }
            } else if tuning.confirms_locally && candidate.pcm_bytes
                >= tuning.confirmation_start_bytes {
                on(TerminalStage::LastChance, TerminalAction::TakeLastChance)
            } else {
                to_recoveries(None)
            }
        },
        (TerminalStage::ConfirmRecall, TerminalEvent::RecallConfirmed(last)) => to_recoveries(
            confirm_recall(last),
        ),
        (TerminalStage::LastChance, TerminalEvent::LastChanceTaken(last)) => {
            let found: Option<FoundPhrase> = take_last_chance(candidate, last);
            to_recoveries(found)
        },
        (
            TerminalStage::Recoveries { found },
            TerminalEvent::RecoveriesWeighed {
                near,
                strong_overlap,
                repeated_overlap,
                owner_matched,
                can_separate,
            },
        ) => {
            let overlap: bool = strong_overlap && candidate.local_owner_overlap_near_confirmations
                > 0;
            let all: Option<FoundPhrase> = if found.is_none() && (near || overlap
                || repeated_overlap) {
                Some(phrase_at_start())
            } else {
                found
            };
            if can_separate && (all.is_none() || !owner_matched) {
                on(TerminalStage::Separation { found: all }, TerminalAction::SeparateOwner)
            } else {
                on(TerminalStage::Weigh { found: all }, TerminalAction::WeighOwner)
            }
        },
        (TerminalStage::Separation { found }, TerminalEvent::SeparationFinished { recovered }) => {
            let all: Option<FoundPhrase> = if recovered {
                Some(
                    FoundPhrase {
                        wake_match: WakeMatch::Extracted,
                        phrase_signal: PhraseSignal::LocalTranscript,
                    },
                )
            } else {
                found
            };
            on(TerminalStage::Weigh { found: all }, TerminalAction::WeighOwner)
        },
        (TerminalStage::Weigh { found }, TerminalEvent::OwnerWeighed { accepted, verified }) =>
            settle_weighing(candidate, found, accepted, verified),
        (
            TerminalStage::Locate { phrase: _ },
            TerminalEvent::PhraseLocated { post_wake_offset, anchor_offset },
        ) => locate(candidate, post_wake_offset, anchor_offset),
        (TerminalStage::Continuation, TerminalEvent::ContinuationStaged { staged }) => {
            if staged {
                on(TerminalStage::ContinuationStart, TerminalAction::RequestContinuation)
            } else {
                reject(TerminalReject::ContinuationAlreadyActive, None)
            }
        },
        (TerminalStage::ContinuationStart, TerminalEvent::ContinuationRequested { session_id }) =>
            match session_id {
                Some(session_id) => on(
                    TerminalStage::Done,
                    TerminalAction::ScheduleContinuationExpiry { session_id },
                ),
                None => on(TerminalStage::Done, TerminalAction::DropContinuation),
            },
        (TerminalStage::Begin { from }, TerminalEvent::SessionBegun(begun)) => match begun {
            Some(session_id) => on(
                TerminalStage::Promote { session_id, from },
                TerminalAction::PromoteToOwner { session_id },
            ),
            None => on(TerminalStage::Done, TerminalAction::ReportNoSession),
        },
        (
            TerminalStage::Promote { session_id, from },
            TerminalEvent::LifecycleAnswered { promoted },
        ) => {
            if promoted {
                on(
                    TerminalStage::Activate { session_id, from },
                    TerminalAction::ActivateSession { session_id },
                )
            } else {
                on(TerminalStage::Done, TerminalAction::UndoRefusedSession { session_id })
            }
        },
        (
            TerminalStage::Activate { session_id, from },
            TerminalEvent::SessionActivated { active },
        ) => {
            if active {
                on(
                    TerminalStage::Done,
                    TerminalAction::Released { session_id, from, bytes: candidate.pcm_bytes },
                )
            } else {
                on(TerminalStage::Done, TerminalAction::UndoCancelledSession { session_id })
            }
        },
        _ => reject(TerminalReject::AlreadyRejected, None),
    };
    step
}

/// How many steps the decision can still take.
pub open spec fn steps_left(stage: TerminalStage) -> nat {
    match stage {
        TerminalStage::Entry => 20,
        TerminalStage::Enrollment => 2,
        TerminalStage::EnrollmentResult => 1,
        TerminalStage::DetectorWait => 19,
        TerminalStage::Join => 18,
        TerminalStage::Feed { inflight, origin_bytes, kws_task } => 17,
        TerminalStage::ConfirmKeyword => 16,
        TerminalStage::Inflight { origin_bytes, kws_task } => 15,
        TerminalStage::RecallChoice => 14,
        TerminalStage::Recall => 13,
        TerminalStage::ConfirmRecall => 12,
        TerminalStage::LastChance => 11,
        TerminalStage::Recoveries { found } => 10,
        TerminalStage::Separation { found } => 9,
        TerminalStage::Weigh { found } => 8,
        TerminalStage::Locate { phrase } => 7,
        TerminalStage::Continuation => 2,
        TerminalStage::ContinuationStart => 1,
        TerminalStage::Begin { from } => 6,
        TerminalStage::Promote { session_id, from } => 5,
        TerminalStage::Activate { session_id, from } => 4,
        TerminalStage::Done => 0,
    }
}

/// Every finished candidate is decided in finitely many steps.
#[verifier::rlimit(60)]
pub proof fn a_finished_candidate_is_always_decided(
    c: BufferedSpeakerCandidate,
    stage: TerminalStage,
    event: TerminalEvent,
    tuning: TerminalTuning,
)
    requires
        awaits(c, stage, event),
    ensures
        steps_left(next(c, stage, event, tuning).1.stage) < steps_left(stage),
{
}

/// A session or a continuation follows only from a phrase and a voice that were accepted
/// together by a voiceprint that answered.
pub proof fn only_an_accepted_phrase_goes_on(
    c: BufferedSpeakerCandidate,
    stage: TerminalStage,
    event: TerminalEvent,
    tuning: TerminalTuning,
)
    requires
        awaits(c, stage, event),
        next(c, stage, event, tuning).1.stage is Locate,
    ensures
        stage matches TerminalStage::Weigh { found } && found is Some,
        event == (TerminalEvent::OwnerWeighed { accepted: true, verified: true }),
{
}

/// A phrase with enough speech behind it opens a session that gets the audio from the anchor on,
/// all of it and nothing before it.
pub proof fn a_released_session_gets_the_whole_tail(
    c: BufferedSpeakerCandidate,
    phrase: FoundPhrase,
    post_wake_offset: usize,
    anchor_offset: usize,
    session_id: SessionId,
    tuning: TerminalTuning,
)
    requires
        anchor_offset <= c.pcm_bytes,
        c.pcm_bytes >= post_wake_offset + MIN_POST_WAKE_DICTATION_PCM_BYTES,
    ensures
        ({
            let located = TerminalEvent::PhraseLocated { post_wake_offset, anchor_offset };
            let begun = TerminalEvent::SessionBegun(Some(session_id));
            let admitted = TerminalEvent::LifecycleAnswered { promoted: true };
            let active = TerminalEvent::SessionActivated { active: true };
            let (cut, opening) = next(c, TerminalStage::Locate { phrase }, located, tuning);
            let (_, promoting) = next(cut, opening.stage, begun, tuning);
            let (_, activating) = next(cut, promoting.stage, admitted, tuning);
            let (kept, released) = next(cut, activating.stage, active, tuning);
            &&& cut.pcm_bytes == c.pcm_bytes - anchor_offset
            &&& kept == cut
            &&& released.action == (TerminalAction::Released {
                session_id,
                from: anchor_offset,
                bytes: (c.pcm_bytes - anchor_offset) as usize,
            })
        }),
{
}

/// The audio that a session is handed is the whole retained buffer, from where it was cut; a
/// candidate that ended its recording without a session hands nothing over.
pub proof fn a_release_hands_over_the_retained_buffer(
    c: BufferedSpeakerCandidate,
    stage: TerminalStage,
    event: TerminalEvent,
    tuning: TerminalTuning,
)
    requires
        awaits(c, stage, event),
    ensures
        next(c, stage, event, tuning).1.action matches TerminalAction::Released {
            session_id,
            from,
            bytes,
        } ==> bytes == c.pcm_bytes && next(c, stage, event, tuning).0 == c && stage == (
        TerminalStage::Activate { session_id, from }),
        next(c, stage, event, tuning).1.stage matches TerminalStage::Begin { from } ==> (event
            matches TerminalEvent::PhraseLocated { anchor_offset, .. } && from == anchor_offset
            && next(c, stage, event, tuning).0.pcm_bytes == c.pcm_bytes - anchor_offset),
        next(c, stage, event, tuning).1.action.ends() == Some(false) <==> next(
            c,
            stage,
            event,
            tuning,
        ).1.action is Released,
{
}

/// Without a phrase the recording is rejected, whoever spoke.
pub proof fn a_voice_without_a_phrase_is_rejected(
    c: BufferedSpeakerCandidate,
    accepted: bool,
    verified: bool,
    tuning: TerminalTuning,
)
    ensures
        next(
            c,
            TerminalStage::Weigh { found: None },
            TerminalEvent::OwnerWeighed { accepted, verified },
            tuning,
        ).1.action == (TerminalAction::Reject {
            reason: TerminalReject::PhraseNonMatch,
            dismiss_capsule: c.early_capsule_session_id,
        }),
{
}

/// A wake with less than a second of speech behind it never opens a session by itself; it asks
/// for a continuation.
pub proof fn a_short_body_asks_for_a_continuation(
    c: BufferedSpeakerCandidate,
    post_wake_offset: usize,
    anchor_offset: usize,
)
    requires
        c.pcm_bytes < post_wake_offset + MIN_POST_WAKE_DICTATION_PCM_BYTES,
    ensures
        located(c, post_wake_offset, anchor_offset).1.stage == TerminalStage::Continuation,
{
}

/// A rejection that follows a decision on phrase or voice takes the early capsule away, so that
/// no capsule outlives its candidate.
pub proof fn a_decided_rejection_takes_the_capsule_away(
    c: BufferedSpeakerCandidate,
    stage: TerminalStage,
    event: TerminalEvent,
    tuning: TerminalTuning,
)
    requires
        awaits(c, stage, event),
        stage is Weigh,
        next(c, stage, event, tuning).1.action is Reject,
    ensures
        next(c, stage, event, tuning).0.early_capsule_session_id is None,
        next(c, stage, event, tuning).1.action matches TerminalAction::Reject {
            dismiss_capsule,
            ..
        } && dismiss_capsule == c.early_capsule_session_id,
{
}

/// Every reason for which a finished candidate is rejected, and what alone leads to it.
pub proof fn each_rejection_has_its_cause(
    c: BufferedSpeakerCandidate,
    stage: TerminalStage,
    event: TerminalEvent,
    tuning: TerminalTuning,
)
    requires
        awaits(c, stage, event),
    ensures
        ({
            let action = next(c, stage, event, tuning).1.action;
            &&& action matches TerminalAction::Reject { reason, .. } ==> {
                &&& reason is AlreadyRejected <==> stage == TerminalStage::Entry
                    && c.kind == BufferedSpeakerCandidateKind::Rejected
                &&& reason is PhraseNonMatch <==> stage == (TerminalStage::Weigh { found: None })
                &&& reason is VoiceprintNonMatch <==> (stage matches TerminalStage::Weigh {
                    found: Some(_),
                }) && event == (TerminalEvent::OwnerWeighed { accepted: false, verified: true })
                &&& reason is VoiceprintVerificationFailed <==> (stage matches TerminalStage::Weigh {
                    found: Some(_),
                }) && !event->verified
                &&& reason is ContinuationAlreadyActive <==> event == (
                TerminalEvent::ContinuationStaged { staged: false })
                &&& reason is DetectionFailed ==> event is FeedTaskFailed || (event matches
                    TerminalEvent::Fed { heard: None, .. }) || event is Ended
                    || event is DetectorSettled || event is ConfirmationJoined
            }
            &&& event is FeedTaskFailed || (event matches TerminalEvent::Fed { heard: None, .. })
                ==> (action matches TerminalAction::Reject { reason, .. } && reason
                is DetectionFailed)
            &&& stage is Weigh ==> action is Reject || action is LocatePhrase
            &&& event == (TerminalEvent::ContinuationStaged { staged: false }) ==> action is Reject
        }),
{
}

/// A recording with a working detector is heard to its end, and one whose detector never came is
/// rejected for it.
pub proof fn the_whole_recording_is_heard(
    c: BufferedSpeakerCandidate,
    stage: TerminalStage,
    event: TerminalEvent,
    tuning: TerminalTuning,
)
    requires
        awaits(c, stage, event),
        c.kind == BufferedSpeakerCandidateKind::Verification,
        stage == TerminalStage::Entry || stage == TerminalStage::DetectorWait || stage
            == TerminalStage::Join,
    ensures
        ({
            let (after, step) = next(c, stage, event, tuning);
            let ready = (stage == TerminalStage::DetectorWait && event->loaded) || (stage
                != TerminalStage::DetectorWait && c.detector == DetectorState::Ready);
            let joins = stage != TerminalStage::Join && tuning.confirms_locally
                && c.local_confirmation_task is Some;
            let loads = stage == TerminalStage::Entry && c.detector == DetectorState::Loading;
            &&& loads ==> step.action == TerminalAction::AwaitDetector && after == c
            &&& !loads && joins ==> step.action == (TerminalAction::JoinConfirmation {
                started_at: c.local_confirmation_task->0.started_at,
            })
            &&& !loads && !joins && ready ==> step.action == (TerminalAction::FeedRest {
                from: c.kws_fed_bytes,
            }) && after.kws_fed_bytes == c.pcm_bytes
            &&& !loads && !joins && !ready ==> step.action == (TerminalAction::Reject {
                reason: TerminalReject::DetectionFailed,
                dismiss_capsule: c.early_capsule_session_id,
            }) && after.early_capsule_session_id is None
            &&& after.pcm_bytes == c.pcm_bytes
            &&& stage == TerminalStage::Join && ready ==> step.stage == (TerminalStage::Feed {
                inflight: event->completed,
                origin_bytes: c.local_confirmation_task->0.origin_bytes,
                kws_task: c.local_confirmation_task->0.has_keyword_model_hit,
            })
        }),
{
}

/// An enrollment recording is processed unless it was cancelled, and ends as it went; it never opens
/// a session.
pub proof fn an_enrollment_ends_as_it_went(
    c: BufferedSpeakerCandidate,
    should_process: bool,
    enrolled: bool,
    tuning: TerminalTuning,
)
    ensures
        c.kind == BufferedSpeakerCandidateKind::Enrollment ==> next(
            c,
            TerminalStage::Entry,
            TerminalEvent::Ended,
            tuning,
        ) == (c, TerminalStep {
            stage: TerminalStage::Enrollment,
            action: TerminalAction::CheckEnrollment,
        }),
        next(
            c,
            TerminalStage::Enrollment,
            TerminalEvent::EnrollmentChecked { should_process },
            tuning,
        ).1.action == (if should_process {
            TerminalAction::ProcessEnrollment
        } else {
            TerminalAction::EndEnrollment(EnrollmentEnd::Cancelled)
        }),
        next(
            c,
            TerminalStage::EnrollmentResult,
            TerminalEvent::EnrollmentProcessed { enrolled },
            tuning,
        ).1.action == TerminalAction::EndEnrollment(
            if enrolled {
                EnrollmentEnd::Complete
            } else {
                EnrollmentEnd::Failed
            },
        ),
{
}

/// A keyword that was heard at the end is confirmed where that is possible and counts as it is
/// elsewhere; without one, a confirmation that was still running is asked, and then the buffer is
/// looked through.
pub proof fn the_last_word_of_the_keyword_model(
    c: BufferedSpeakerCandidate,
    inflight: bool,
    origin_bytes: usize,
    kws_task: bool,
    hit: bool,
    step_ms: u64,
    tuning: TerminalTuning,
)
    ensures
        ({
            let step = next(
                c,
                TerminalStage::Feed { inflight, origin_bytes, kws_task },
                TerminalEvent::Fed { heard: Some(hit), step_ms },
                tuning,
            ).1;
            &&& hit && tuning.confirms_locally ==> step.action == TerminalAction::ConfirmKeyword
            &&& hit && !tuning.confirms_locally ==> (step.stage matches TerminalStage::Recoveries {
                found: Some(phrase),
            } && phrase.wake_match == WakeMatch::Keyword && phrase.phrase_signal
                == PhraseSignal::KeywordModel)
            &&& !hit && inflight ==> step.action == TerminalAction::JudgeInflight && step.stage == (
            TerminalStage::Inflight { origin_bytes, kws_task })
            &&& !hit && !inflight ==> step.action == TerminalAction::ChooseRecall
        }),
{
}

/// What a confirmation of a heard keyword leaves of it: a whole phrase makes it a transcript, a close
/// one keeps its own signal, an absent one keeps the keyword only where nobody is enrolled, and no
/// answer keeps it only where it is trusted.
pub proof fn a_confirmed_keyword_counts(
    c: BufferedSpeakerCandidate,
    last: LastConfirmation,
    tuning: TerminalTuning,
)
    ensures
        ({
            let step = next(
                c,
                TerminalStage::ConfirmKeyword,
                TerminalEvent::KeywordConfirmed(last),
                tuning,
            ).1;
            &&& step.action == TerminalAction::WeighRecoveries
            &&& step.stage matches TerminalStage::Recoveries { found } && {
                &&& last is Present ==> found is Some && found->0.phrase_signal
                    == PhraseSignal::LocalTranscript
                &&& last matches LastConfirmation::Absent { fused: Some(signal), .. } ==> found
                    is Some && found->0.phrase_signal == signal
                &&& last matches LastConfirmation::Absent { fused: None, not_enrolled, .. } ==> (
                found is Some <==> not_enrolled)
                &&& last matches LastConfirmation::Unavailable { may_trust_keyword } ==> (found
                    is Some <==> may_trust_keyword)
                &&& found matches Some(phrase) ==> phrase.wake_match == WakeMatch::Keyword
                &&& found is Some && !(last is Present) && !(last matches LastConfirmation::Absent {
                    fused: Some(_),
                    ..
                }) ==> found->0.phrase_signal == PhraseSignal::KeywordModel
            }
        }),
{
}

/// What was still being confirmed counts where the keyword model is silent: a whole phrase from where
/// it began, a near match of the owner at the start, and an absence in the counters.
pub proof fn a_joined_confirmation_counts(
    c: BufferedSpeakerCandidate,
    origin_bytes: usize,
    kws_task: bool,
    decision: TerminalInflightLocalDecision,
    tuning: TerminalTuning,
)
    ensures
        ({
            let (after, step) = next(
                c,
                TerminalStage::Inflight { origin_bytes, kws_task },
                TerminalEvent::InflightJudged(decision),
                tuning,
            );
            &&& decision is AcceptLocal ==> after == c && (step.stage matches
                TerminalStage::Recoveries { found: Some(phrase) } && phrase.phrase_signal
                == PhraseSignal::LocalTranscript && phrase.wake_match == (
            WakeMatch::LocalTranscript {
                origin_bytes: if kws_task {
                    0
                } else {
                    origin_bytes
                },
                refines_keyword: false,
            }))
            &&& decision is AcceptOwnerNear ==> after == c && (step.stage matches
                TerminalStage::Recoveries { found: Some(phrase) } && phrase.wake_match
                == WakeMatch::BufferStart && phrase.phrase_signal == PhraseSignal::LocalTranscript)
            &&& decision is PreserveKwsFusion ==> after.local_kws_fusion_evidence && step.action
                == TerminalAction::ChooseRecall && after.local_absent_count
                == c.local_absent_count
            &&& decision is RecordAbsent ==> step.action == TerminalAction::ChooseRecall
                && after.local_kws_fusion_evidence == c.local_kws_fusion_evidence && (
            c.local_absent_count < u32::MAX ==> after.local_absent_count == c.local_absent_count
                + 1)
            &&& decision matches TerminalInflightLocalDecision::RecordAbsent { coverage: Some(at) }
                ==> after.local_absent_coverage == Some(at)
            &&& decision == (TerminalInflightLocalDecision::RecordAbsent { coverage: None })
                ==> after.local_absent_coverage == c.local_absent_coverage
        }),
{
}

/// A look through the whole buffer is taken only where it is worthwhile.  A phrase it recalls is
/// confirmed where that is possible, and falls only to an explicit absence that nothing close backs;
/// where it recalls nothing, a long enough buffer gets one more confirmation.
pub proof fn a_recall_is_confirmed(
    c: BufferedSpeakerCandidate,
    worthwhile: bool,
    found: bool,
    last: LastConfirmation,
    tuning: TerminalTuning,
)
    ensures
        ({
            let chosen = next(
                c,
                TerminalStage::RecallChoice,
                TerminalEvent::RecallChosen { worthwhile },
                tuning,
            ).1;
            let recalled = next(
                c,
                TerminalStage::Recall,
                TerminalEvent::RecallFinished { found },
                tuning,
            ).1;
            let confirmed = next(
                c,
                TerminalStage::ConfirmRecall,
                TerminalEvent::RecallConfirmed(last),
                tuning,
            ).1;
            &&& worthwhile ==> chosen.action == TerminalAction::RunRecall
            &&& !worthwhile ==> chosen.stage == (TerminalStage::Recoveries { found: None })
            &&& found && tuning.confirms_locally ==> recalled.action
                == TerminalAction::ConfirmRecall
            &&& found && !tuning.confirms_locally ==> (recalled.stage matches
                TerminalStage::Recoveries { found: Some(phrase) } && phrase.phrase_signal
                == PhraseSignal::KeywordModel)
            &&& !found && tuning.confirms_locally && c.pcm_bytes >= tuning.confirmation_start_bytes
                ==> recalled.action == TerminalAction::TakeLastChance
            &&& !found && !(tuning.confirms_locally && c.pcm_bytes
                >= tuning.confirmation_start_bytes) ==> recalled.stage == (
            TerminalStage::Recoveries { found: None })
            &&& confirmed.stage matches TerminalStage::Recoveries { found: kept } && {
                &&& kept is None <==> (last matches LastConfirmation::Absent { fused: None, .. })
                &&& last is Present ==> kept->0.phrase_signal == PhraseSignal::LocalTranscript
                &&& kept is Some && !(last is Present) ==> kept->0.phrase_signal
                    == PhraseSignal::KeywordModel
                &&& kept is Some ==> kept->0.wake_match == WakeMatch::Keyword
            }
        }),
{
}

/// The last look finds a whole phrase that may activate, or else what the owner vouches for; where it
/// finds nothing it counts what came close and what was overlapped, each once.
pub proof fn the_last_look_counts_what_it_finds(
    c: BufferedSpeakerCandidate,
    last: LastConfirmation,
    tuning: TerminalTuning,
)
    requires
        c.owner_near_phrase_confirmations < u32::MAX,
        c.local_owner_overlap_near_confirmations < u32::MAX,
    ensures
        ({
            let (after, step) = next(
                c,
                TerminalStage::LastChance,
                TerminalEvent::LastChanceTaken(last),
                tuning,
            );
            let opens = last matches LastConfirmation::Present { may_activate: true, .. };
            let vouched = (last is Present && last->Present_owner_near) || (last is Absent
                && last->Absent_owner_near);
            let near = if last is Present {
                last->Present_near
            } else {
                last->Absent_near
            };
            let overlapped = (last is Present && last->Present_overlapped) || (last is Absent
                && last->Absent_overlapped);
            &&& step.action == TerminalAction::WeighRecoveries
            &&& step.stage matches TerminalStage::Recoveries { found } && {
                &&& found is Some <==> opens || vouched
                &&& opens ==> found->0.wake_match == (WakeMatch::LocalTranscript {
                    origin_bytes: 0,
                    refines_keyword: false,
                })
                &&& vouched && !opens ==> found->0.wake_match == WakeMatch::BufferStart
                &&& found is Some ==> after == c && found->0.phrase_signal
                    == PhraseSignal::LocalTranscript
                &&& last is Unavailable ==> after == c
                &&& found is None && !(last is Unavailable) ==> {
                    &&& after.owner_near_phrase_confirmations == c.owner_near_phrase_confirmations
                        + (if near.phrase_absent && near.best_distance <= 2
                        && near.transcript_chars > near.phrase_chars {
                        1int
                    } else {
                        0
                    })
                    &&& after.local_owner_overlap_near_confirmations
                        == c.local_owner_overlap_near_confirmations + (if overlapped {
                        1int
                    } else {
                        0
                    })
                }
            }
        }),
{
}

/// A phrase that was found stays found; without one, repeated near matches and overlaps of the owner
/// stand in for it, a single strong overlap only where one was observed.  The owner's track is
/// separated where nothing was found or the voice did not match, and what it holds counts.
pub proof fn evidence_stands_in_for_a_missed_phrase(
    c: BufferedSpeakerCandidate,
    found: Option<FoundPhrase>,
    near: bool,
    strong_overlap: bool,
    repeated_overlap: bool,
    owner_matched: bool,
    can_separate: bool,
    recovered: bool,
    tuning: TerminalTuning,
)
    ensures
        ({
            let (after, step) = next(
                c,
                TerminalStage::Recoveries { found },
                TerminalEvent::RecoveriesWeighed {
                    near,
                    strong_overlap,
                    repeated_overlap,
                    owner_matched,
                    can_separate,
                },
                tuning,
            );
            let stands_in = near || repeated_overlap || (strong_overlap
                && c.local_owner_overlap_near_confirmations > 0);
            &&& after == c
            &&& found is Some || !stands_in ==> step.stage == (TerminalStage::Separation { found })
                || step.stage == (TerminalStage::Weigh { found })
            &&& found is None && stands_in ==> (step.stage matches TerminalStage::Separation {
                found: Some(phrase),
            } && phrase.wake_match == WakeMatch::BufferStart) || (step.stage matches
                TerminalStage::Weigh { found: Some(phrase) } && phrase.wake_match
                == WakeMatch::BufferStart)
            &&& step.action == TerminalAction::SeparateOwner <==> can_separate && (!owner_matched
                || (found is None && !stands_in))
            &&& step.action == TerminalAction::SeparateOwner || step.action
                == TerminalAction::WeighOwner
            &&& next(
                c,
                TerminalStage::Separation { found },
                TerminalEvent::SeparationFinished { recovered },
                tuning,
            ) == (c, TerminalStep {
                stage: TerminalStage::Weigh {
                    found: if recovered {
                        Some(
                            FoundPhrase {
                                wake_match: WakeMatch::Extracted,
                                phrase_signal: PhraseSignal::LocalTranscript,
                            },
                        )
                    } else {
                        found
                    },
                },
                action: TerminalAction::WeighOwner,
            })
        }),
{
}

/// A found phrase of an accepted, verified owner is located.
pub proof fn an_accepted_phrase_is_located(
    c: BufferedSpeakerCandidate,
    phrase: FoundPhrase,
    tuning: TerminalTuning,
)
    ensures
        next(
            c,
            TerminalStage::Weigh { found: Some(phrase) },
            TerminalEvent::OwnerWeighed { accepted: true, verified: true },
            tuning,
        ) == (c, TerminalStep {
            stage: TerminalStage::Locate { phrase },
            action: TerminalAction::LocatePhrase {
                calibrate: phrase.phrase_signal == PhraseSignal::KeywordModel,
            },
        }),
{
}

/// A phrase with a second of speech behind it opens a session at once; one with less asks for a
/// continuation, which is staged, requested and given time, or dropped where it cannot be had.
pub proof fn a_located_phrase_opens_a_session_or_a_continuation(
    c: BufferedSpeakerCandidate,
    phrase: FoundPhrase,
    post_wake_offset: usize,
    anchor_offset: usize,
    session_id: Option<SessionId>,
    tuning: TerminalTuning,
)
    requires
        anchor_offset <= c.pcm_bytes,
    ensures
        ({
            let (after, step) = next(
                c,
                TerminalStage::Locate { phrase },
                TerminalEvent::PhraseLocated { post_wake_offset, anchor_offset },
                tuning,
            );
            let long = c.pcm_bytes >= post_wake_offset + 32_000;
            &&& after.pcm_bytes == c.pcm_bytes - anchor_offset
            &&& long ==> step.action == TerminalAction::OpenSession
            &&& !long ==> step.action == (TerminalAction::StageContinuation {
                dismiss_capsule: c.early_capsule_session_id,
            }) && after.early_capsule_session_id is None
            &&& next(
                c,
                TerminalStage::Continuation,
                TerminalEvent::ContinuationStaged { staged: true },
                tuning,
            ).1.action == TerminalAction::RequestContinuation
            &&& next(
                c,
                TerminalStage::ContinuationStart,
                TerminalEvent::ContinuationRequested { session_id },
                tuning,
            ).1.action == (match session_id {
                Some(id) => TerminalAction::ScheduleContinuationExpiry { session_id: id },
                None => TerminalAction::DropContinuation,
            })
        }),
{
}

/// A session is opened, made the owner and activated in this order, and each failure on the way is
/// undone or reported under its own session.
pub proof fn a_session_is_opened_step_by_step(
    c: BufferedSpeakerCandidate,
    from: usize,
    begun: Option<SessionId>,
    session_id: SessionId,
    tuning: TerminalTuning,
)
    ensures
        next(c, TerminalStage::Begin { from }, TerminalEvent::SessionBegun(begun), tuning).1.action
            == (match begun {
            Some(id) => TerminalAction::PromoteToOwner { session_id: id },
            None => TerminalAction::ReportNoSession,
        }),
        next(
            c,
            TerminalStage::Promote { session_id, from },
            TerminalEvent::LifecycleAnswered { promoted: true },
            tuning,
        ).1.action == (TerminalAction::ActivateSession { session_id }),
        next(
            c,
            TerminalStage::Promote { session_id, from },
            TerminalEvent::LifecycleAnswered { promoted: false },
            tuning,
        ).1.action == (TerminalAction::UndoRefusedSession { session_id }),
        next(
            c,
            TerminalStage::Activate { session_id, from },
            TerminalEvent::SessionActivated { active: false },
            tuning,
        ).1.action == (TerminalAction::UndoCancelledSession { session_id }),
{
}

/// Nothing but a released session leaves a recording open, and no step but the cut loses audio.
pub proof fn only_a_released_session_goes_on(
    c: BufferedSpeakerCandidate,
    stage: TerminalStage,
    event: TerminalEvent,
    tuning: TerminalTuning,
    action: TerminalAction,
)
    requires
        awaits(c, stage, event),
    ensures
        action.ends() == Some(false) <==> action is Released,
        action is Reject || action is EndEnrollment || action is DropContinuation || action
            is ScheduleContinuationExpiry ==> action.ends() == Some(true),
        action is ReportNoSession || action is UndoRefusedSession || action is UndoCancelledSession
            ==> action.ends() is None,
        next(c, stage, event, tuning).0.pcm_bytes != c.pcm_bytes ==> event is PhraseLocated,
        next(c, stage, event, tuning).0.kind == c.kind,
{
}

/// Every action is followed by the stage that waits for its answer, and by no other.
pub proof fn each_action_waits_for_its_answer(
    c: BufferedSpeakerCandidate,
    stage: TerminalStage,
    event: TerminalEvent,
    tuning: TerminalTuning,
)
    requires
        awaits(c, stage, event),
    ensures
        ({
            let step = next(c, stage, event, tuning).1;
            let action = step.action;
            &&& action is CheckEnrollment <==> step.stage == TerminalStage::Enrollment
            &&& action is ProcessEnrollment <==> step.stage == TerminalStage::EnrollmentResult
            &&& action is AwaitDetector <==> step.stage == TerminalStage::DetectorWait
            &&& action is JoinConfirmation <==> step.stage == TerminalStage::Join
            &&& action is FeedRest <==> step.stage is Feed
            &&& action is ConfirmKeyword <==> step.stage == TerminalStage::ConfirmKeyword
            &&& action is JudgeInflight <==> step.stage is Inflight
            &&& action is ChooseRecall <==> step.stage == TerminalStage::RecallChoice
            &&& action is RunRecall <==> step.stage == TerminalStage::Recall
            &&& action is ConfirmRecall <==> step.stage == TerminalStage::ConfirmRecall
            &&& action is TakeLastChance <==> step.stage == TerminalStage::LastChance
            &&& action is WeighRecoveries <==> step.stage is Recoveries
            &&& action is SeparateOwner <==> step.stage is Separation
            &&& action is WeighOwner <==> step.stage is Weigh
            &&& action is LocatePhrase <==> step.stage is Locate
            &&& action is StageContinuation <==> step.stage == TerminalStage::Continuation
            &&& action is RequestContinuation <==> step.stage == TerminalStage::ContinuationStart
            &&& action is OpenSession <==> step.stage is Begin
            &&& action is PromoteToOwner <==> step.stage is Promote
            &&& action is ActivateSession <==> step.stage is Activate
            &&& action is EndEnrollment || action is Reject || action is DropContinuation || action
                is ScheduleContinuationExpiry || action is UndoRefusedSession || action
                is UndoCancelledSession || action is ReportNoSession || action is Released
                <==> step.stage == TerminalStage::Done
        }),
{
}

/// A confirmation counts as running at the end only where it was joined.
pub proof fn only_a_joined_confirmation_is_in_flight(
    c: BufferedSpeakerCandidate,
    stage: TerminalStage,
    event: TerminalEvent,
    tuning: TerminalTuning,
)
    requires
        awaits(c, stage, event),
    ensures
        ({
            let step = next(c, stage, event, tuning).1;
            step.stage matches TerminalStage::Feed { inflight, origin_bytes, kws_task } ==> {
                &&& stage != TerminalStage::Join ==> !inflight && origin_bytes == 0 && !kws_task
                &&& stage == TerminalStage::Join ==> inflight == event->completed
            }
        }),
{
}

} // verus!
