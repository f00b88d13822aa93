//! A buffered recording that is not yet known to be meant for dictation.
//!
//! While the device reports voice activity, its audio is buffered out of sight.  A keyword model
//! and a local recogniser look for the wake phrase in it, and a voiceprint decides whether the
//! owner spoke it.  Only then does the buffer become a dictation session.

use vstd::prelude::*;
use crate::session::{SessionId, SessionPhase};

verus! {

/// Bytes of 16 kHz mono 16-bit audio in one millisecond.
pub const CANDIDATE_BYTES_PER_MS: usize = 32;

/// What a buffered recording is for.
#[derive(Clone, Copy, Debug, PartialEq, Eq, Structural)]
pub enum BufferedSpeakerCandidateKind {
    /// A sample for the owner's voiceprint.
    Enrollment,
    /// A possible wake phrase.
    Verification,
    /// Given up; its audio is ignored until the recording ends.
    Rejected,
}

/// The keyword detector of a candidate, which is loaded in the background.
#[derive(Clone, Copy, Debug, PartialEq, Eq, Structural)]
pub enum DetectorState {
    Missing,
    Loading,
    Ready,
}

/// What vouches for the wake phrase.
#[derive(Clone, Copy, Debug, PartialEq, Eq, Structural)]
pub enum PhraseSignal {
    Unheard,
    KeywordModel,
    LocalTranscript,
}

/// Where in the buffer the wake phrase was found.
#[derive(Clone, Copy, Debug, PartialEq, Eq, Structural)]
pub enum WakeMatch {
    /// Where the keyword model heard it.
    Keyword,
    /// Where the local transcript places it, in a window that starts at `origin_bytes`.
    LocalTranscript { origin_bytes: usize, refines_keyword: bool },
    /// At the start of the buffer.
    BufferStart,
    /// In a window that starts at `origin_bytes`, by a near match of the owner.
    OwnerNear { origin_bytes: usize },
    /// Where the separated owner track has it.
    Extracted,
}

/// A phrase that was found and waits for enough audio to verify its speaker.
#[derive(Clone, Copy, Debug, PartialEq, Eq, Structural)]
pub struct PendingAutomaticPhraseMatch {
    pub wake_match: WakeMatch,
    pub phrase_signal: PhraseSignal,
    pub local_confirmation_ms: u64,
    pub owner_verification_start_ms: usize,
    pub owner_verified_by_extraction: bool,
}

/// A local confirmation that is running.
#[derive(Clone, Copy, Debug, PartialEq, Eq, Structural)]
pub struct LocalConfirmationTask {
    pub origin_bytes: usize,
    pub has_keyword_model_hit: bool,
    pub started_at: u64,
}

/// A stretch of the buffer in which the phrase is known to be absent.
#[derive(Clone, Copy, Debug, PartialEq, Eq, Structural)]
pub struct AbsentCoverage {
    pub start_bytes: usize,
    pub end_bytes: usize,
}

/// The stretch that a confirmation looked at: from where it began, as long as its snapshot.
pub fn confirmed_stretch(origin_bytes: usize, snapshot_pcm_ms: usize) -> (r: AbsentCoverage)
    ensures
        r.start_bytes == origin_bytes,
        r.end_bytes == (if origin_bytes + snapshot_pcm_ms * 32 <= usize::MAX {
            origin_bytes + snapshot_pcm_ms * 32
        } else {
            usize::MAX as int
        }),
{
    let length: usize = match snapshot_pcm_ms.checked_mul(32) {
        Some(bytes) => bytes,
        None => usize::MAX,
    };
    AbsentCoverage { start_bytes: origin_bytes, end_bytes: origin_bytes.saturating_add(length) }
}

/// What is kept of two stretches: the one that is offered, or else the one that was kept before.
pub open spec fn coverage_after(
    kept: Option<AbsentCoverage>,
    offered: Option<AbsentCoverage>,
) -> Option<AbsentCoverage> {
    if offered is Some {
        offered
    } else {
        kept
    }
}

/// A buffered recording.  Clocks are milliseconds; `pcm_bytes` is the length of the buffer.
#[derive(Clone, Copy, Debug, PartialEq, Eq, Structural)]
pub struct BufferedSpeakerCandidate {
    pub kind: BufferedSpeakerCandidateKind,
    pub pcm_bytes: usize,
    pub detector: DetectorState,
    pub pending_phrase_match: Option<PendingAutomaticPhraseMatch>,
    pub local_confirmation_task: Option<LocalConfirmationTask>,
    pub local_confirmation_window_origin_bytes: usize,
    pub local_confirmation_attempts: u32,
    pub local_confirmation_last_snapshot_bytes: usize,
    pub kws_prompted_local_confirm: bool,
    pub kws_local_absent_count: u32,
    pub local_absent_count: u32,
    /// Where the phrase is known to be absent.
    pub local_absent_coverage: Option<AbsentCoverage>,
    pub local_kws_fusion_evidence: bool,
    pub kws_phrase_detected: bool,
    pub local_owner_overlap_near_confirmations: u32,
    pub local_partial_phrase_confirmations: u32,
    pub owner_near_phrase_confirmations: u32,
    pub kws_first_hit_at: Option<u64>,
    pub kws_first_hit_pcm_ms: Option<usize>,
    pub early_capsule_session_id: Option<SessionId>,
    pub early_capsule_request_ms: Option<u64>,
    pub kws_fed_bytes: usize,
    pub kws_stream_origin_bytes: usize,
    pub kws_total_ms: u64,
    pub started_at: u64,
}

/// A fresh candidate.
pub open spec fn fresh(kind: BufferedSpeakerCandidateKind, now: u64) -> BufferedSpeakerCandidate {
    BufferedSpeakerCandidate {
        kind,
        pcm_bytes: 0,
        detector: if kind == BufferedSpeakerCandidateKind::Verification {
            DetectorState::Loading
        } else {
            DetectorState::Missing
        },
        pending_phrase_match: None,
        local_confirmation_task: None,
        local_confirmation_window_origin_bytes: 0,
        local_confirmation_attempts: 0,
        local_confirmation_last_snapshot_bytes: 0,
        kws_prompted_local_confirm: false,
        kws_local_absent_count: 0,
        local_absent_count: 0,
        local_absent_coverage: None,
        local_kws_fusion_evidence: false,
        kws_phrase_detected: false,
        local_owner_overlap_near_confirmations: 0,
        local_partial_phrase_confirmations: 0,
        owner_near_phrase_confirmations: 0,
        kws_first_hit_at: None,
        kws_first_hit_pcm_ms: None,
        early_capsule_session_id: None,
        early_capsule_request_ms: None,
        kws_fed_bytes: 0,
        kws_stream_origin_bytes: 0,
        kws_total_ms: 0,
        started_at: now,
    }
}

impl BufferedSpeakerCandidate {
    /// As long as a candidate is not given up, every position it remembers lies in its buffer,
    /// and a buffer that fed the keyword model was fed up to a point inside it.
    pub open spec fn wf(self) -> bool {
        self.kind != BufferedSpeakerCandidateKind::Rejected ==> {
            &&& self.kws_fed_bytes <= self.pcm_bytes
            &&& self.kws_stream_origin_bytes <= self.pcm_bytes
            &&& self.local_confirmation_window_origin_bytes <= self.pcm_bytes
            &&& self.local_confirmation_task matches Some(task) ==> task.origin_bytes
                <= self.pcm_bytes
        }
    }

    /// The candidate once it is given up: its audio is dropped.
    pub open spec fn given_up(self) -> BufferedSpeakerCandidate {
        BufferedSpeakerCandidate {
            kind: BufferedSpeakerCandidateKind::Rejected,
            pcm_bytes: 0,
            ..self
        }
    }

    /// The candidate whose buffer keeps only the audio from `offset` on; positions in the former
    /// buffer mean nothing any more.
    pub open spec fn kept_from(self, offset: usize) -> BufferedSpeakerCandidate {
        BufferedSpeakerCandidate {
            pcm_bytes: (self.pcm_bytes - offset) as usize,
            kws_fed_bytes: 0,
            kws_stream_origin_bytes: 0,
            local_confirmation_window_origin_bytes: 0,
            local_confirmation_task: None,
            ..self
        }
    }

    /// Drops the audio before `offset`.
    pub fn keep_from(&mut self, offset: usize)
        requires
            offset <= old(self).pcm_bytes,
        ensures
            *final(self) == old(self).kept_from(offset),
            final(self).wf(),
    {
        self.pcm_bytes = self.pcm_bytes - offset;
        self.kws_fed_bytes = 0;
        self.kws_stream_origin_bytes = 0;
        self.local_confirmation_window_origin_bytes = 0;
        self.local_confirmation_task = None;
    }

    /// Whether every position that the candidate remembers lies in its buffer, as far as that
    /// matters.
    pub fn is_sound(&self) -> (r: bool)
        ensures
            r == self.wf(),
    {
        if self.kind == BufferedSpeakerCandidateKind::Rejected {
            return true;
        }
        let task_inside: bool = match self.local_confirmation_task {
            Some(task) => task.origin_bytes <= self.pcm_bytes,
            None => true,
        };
        self.kws_fed_bytes <= self.pcm_bytes && self.kws_stream_origin_bytes <= self.pcm_bytes
            && self.local_confirmation_window_origin_bytes <= self.pcm_bytes && task_inside
    }

    /// The audio of the buffer in milliseconds.
    pub open spec fn audio_ms(self) -> usize {
        self.pcm_bytes / 32
    }

    /// A fresh candidate; the detector of a possible wake starts loading at once.
    pub fn new(kind: BufferedSpeakerCandidateKind, now: u64) -> (r: BufferedSpeakerCandidate)
        ensures
            r == fresh(kind, now),
            r.wf(),
    {
        BufferedSpeakerCandidate {
            kind,
            pcm_bytes: 0,
            detector: match kind {
                BufferedSpeakerCandidateKind::Verification => DetectorState::Loading,
                _ => DetectorState::Missing,
            },
            pending_phrase_match: None,
            local_confirmation_task: None,
            local_confirmation_window_origin_bytes: 0,
            local_confirmation_attempts: 0,
            local_confirmation_last_snapshot_bytes: 0,
            kws_prompted_local_confirm: false,
            kws_local_absent_count: 0,
            local_absent_count: 0,
            local_absent_coverage: None,
            local_kws_fusion_evidence: false,
            kws_phrase_detected: false,
            local_owner_overlap_near_confirmations: 0,
            local_partial_phrase_confirmations: 0,
            owner_near_phrase_confirmations: 0,
            kws_first_hit_at: None,
            kws_first_hit_pcm_ms: None,
            early_capsule_session_id: None,
            early_capsule_request_ms: None,
            kws_fed_bytes: 0,
            kws_stream_origin_bytes: 0,
            kws_total_ms: 0,
            started_at: now,
        }
    }

    /// Gives the candidate up and drops its audio.
    pub fn give_up(&mut self)
        ensures
            *final(self) == old(self).given_up(),
    {
        self.kind = BufferedSpeakerCandidateKind::Rejected;
        self.pcm_bytes = 0;
    }

    /// Appends a chunk of `bytes` bytes unless the buffer would grow past `limit`.
    pub fn append(&mut self, bytes: usize, limit: usize) -> (r: bool)
        requires
            old(self).wf(),
        ensures
            r == (old(self).pcm_bytes + bytes <= limit),
            r ==> *final(self) == (BufferedSpeakerCandidate {
                pcm_bytes: (old(self).pcm_bytes + bytes) as usize,
                ..*old(self)
            }),
            !r ==> *final(self) == *old(self),
            final(self).wf(),
    {
        match self.pcm_bytes.checked_add(bytes) {
            Some(total) => {
                if total > limit {
                    return false;
                }
                self.pcm_bytes = total;
                true
            },
            None => false,
        }
    }
}

/// Largest phonetic distance at which something still counts as close to the phrase.
pub const NEAR_PHRASE_MAX_DISTANCE: usize = 2;

/// What a local transcript shows of a phrase that it does not hold as such.
#[derive(Clone, Copy, Debug, PartialEq, Eq, Structural)]
pub struct NearPhraseEvidence {
    /// The phrase is absent from the transcript.
    pub phrase_absent: bool,
    /// How far the closest part of the transcript is from the phrase, by its sounds.
    pub best_distance: usize,
    pub transcript_chars: usize,
    pub phrase_chars: usize,
}

impl NearPhraseEvidence {
    /// Something close to the phrase was said: the phrase is absent, its sounds nearly match, and
    /// the transcript is longer than the phrase.
    pub open spec fn near(self) -> bool {
        self.phrase_absent && self.best_distance <= NEAR_PHRASE_MAX_DISTANCE
            && self.transcript_chars > self.phrase_chars
    }

    /// Whether something close to the phrase was said.
    pub fn is_near(self) -> (r: bool)
        ensures
            r == self.near(),
    {
        self.phrase_absent && self.best_distance <= NEAR_PHRASE_MAX_DISTANCE
            && self.transcript_chars > self.phrase_chars
    }
}

/// Takes the session that an early capsule was shown for, so that it is dismissed once.
pub fn take_early_capsule_session_id(candidate: &mut BufferedSpeakerCandidate) -> (r: Option<
    SessionId,
>)
    ensures
        r == old(candidate).early_capsule_session_id,
        *final(candidate) == (BufferedSpeakerCandidate {
            early_capsule_session_id: None,
            ..*old(candidate)
        }),
{
    let shown: Option<SessionId> = candidate.early_capsule_session_id;
    candidate.early_capsule_session_id = None;
    shown
}

/// Remembers the capsule that is shown early for a candidate, unless one is shown already or a
/// session is running.  The capsule has an identity of its own and opens no session.
pub fn show_early_wake_recording_capsule(
    candidate: &mut BufferedSpeakerCandidate,
    phase: SessionPhase,
    capsule: SessionId,
    now: u64,
) -> (r: bool)
    ensures
        r == (old(candidate).early_capsule_session_id is None && phase == SessionPhase::Idle),
        !r ==> *final(candidate) == *old(candidate),
        r ==> *final(candidate) == (BufferedSpeakerCandidate {
            early_capsule_session_id: Some(capsule),
            early_capsule_request_ms: Some(
                crate::endpoint::past(now, old(candidate).started_at) as u64,
            ),
            ..*old(candidate)
        }),
{
    if candidate.early_capsule_session_id.is_some() || phase != SessionPhase::Idle {
        return false;
    }
    candidate.early_capsule_request_ms = Some(now.saturating_sub(candidate.started_at));
    candidate.early_capsule_session_id = Some(capsule);
    true
}

/// Whether the device still streams the segment of a candidate.
#[derive(Clone, Copy, Debug, PartialEq, Eq, Structural)]
pub enum HiddenCandidateTransportState {
    Streaming,
    Ended,
}

/// Whether the device is told to stop when a hidden candidate is rejected: only where the
/// candidate was still open, and its segment has not ended by itself.  A bare stop would hit the
/// next segment.
pub fn reject_hidden_automatic_candidate(
    candidate_was_open: bool,
    transport: HiddenCandidateTransportState,
) -> (r: bool)
    ensures
        r == (candidate_was_open && transport == HiddenCandidateTransportState::Streaming),
{
    candidate_was_open && transport == HiddenCandidateTransportState::Streaming
}

/// Whether a buffered recording may be recognised: a person's own always, an automatic one only
/// behind a voice that was verified.
pub fn speaker_candidate_may_reach_asr(automatic: bool, verified_match: Option<bool>) -> (r: bool)
    ensures
        r == (!automatic || verified_match == Some(true)),
{
    match verified_match {
        Some(matched) => !automatic || matched,
        None => !automatic,
    }
}

/// What a poll of the detector found.
#[derive(Clone, Copy, Debug, PartialEq, Eq, Structural)]
pub enum DetectorPoll {
    /// The loader is still running.
    Running,
    /// The loader finished with a detector.
    Loaded,
    /// The loader failed.
    Failed,
}

/// What follows from a poll of the detector.
#[derive(Clone, Copy, Debug, PartialEq, Eq, Structural)]
pub struct DetectorPollResult {
    pub ready: bool,
    /// The early capsule that has to go.
    pub dismiss_capsule: Option<SessionId>,
}

/// The candidate after a poll of its detector.
pub open spec fn polled(
    candidate: BufferedSpeakerCandidate,
    poll: DetectorPoll,
) -> BufferedSpeakerCandidate {
    if candidate.detector != DetectorState::Loading {
        candidate
    } else {
        match poll {
            DetectorPoll::Running => candidate,
            DetectorPoll::Loaded => BufferedSpeakerCandidate {
                detector: DetectorState::Ready,
                ..candidate
            },
            DetectorPoll::Failed => BufferedSpeakerCandidate {
                detector: DetectorState::Missing,
                kind: BufferedSpeakerCandidateKind::Rejected,
                early_capsule_session_id: None,
                ..candidate
            },
        }
    }
}

/// Completes the deferred loading of the detector where it has finished.  A candidate whose
/// detector cannot be had is given up, and its early capsule goes.
pub fn poll_wake_detector_init(
    candidate: &mut BufferedSpeakerCandidate,
    poll: DetectorPoll,
) -> (r: DetectorPollResult)
    requires
        old(candidate).wf(),
    ensures
        *final(candidate) == polled(*old(candidate), poll),
        r.ready == (final(candidate).detector == DetectorState::Ready),
        r.dismiss_capsule == (if old(candidate).detector == DetectorState::Loading && poll
            == DetectorPoll::Failed {
            old(candidate).early_capsule_session_id
        } else {
            None
        }),
        final(candidate).wf(),
{
    match candidate.detector {
        DetectorState::Ready => {
            return DetectorPollResult { ready: true, dismiss_capsule: None };
        },
        DetectorState::Missing => {
            return DetectorPollResult { ready: false, dismiss_capsule: None };
        },
        DetectorState::Loading => {},
    }
    match poll {
        DetectorPoll::Running => DetectorPollResult { ready: false, dismiss_capsule: None },
        DetectorPoll::Loaded => {
            candidate.detector = DetectorState::Ready;
            DetectorPollResult { ready: true, dismiss_capsule: None }
        },
        DetectorPoll::Failed => {
            candidate.detector = DetectorState::Missing;
            candidate.kind = BufferedSpeakerCandidateKind::Rejected;
            let shown: Option<SessionId> = take_early_capsule_session_id(candidate);
            DetectorPollResult { ready: false, dismiss_capsule: shown }
        },
    }
}

/// What is cut off in front is all that is lost: the rest stays, with everything that is known of
/// the candidate, and is looked at anew from its start.
pub proof fn a_cut_keeps_the_rest(c: BufferedSpeakerCandidate, offset: usize)
    requires
        offset <= c.pcm_bytes,
    ensures
        ({
            let rest = c.kept_from(offset);
            &&& rest.pcm_bytes + offset == c.pcm_bytes
            &&& rest.kws_fed_bytes == 0 && rest.kws_stream_origin_bytes == 0
                && rest.local_confirmation_window_origin_bytes == 0
            &&& rest.local_confirmation_task is None
            &&& rest.kind == c.kind && rest.detector == c.detector
            &&& rest.pending_phrase_match == c.pending_phrase_match
            &&& rest.early_capsule_session_id == c.early_capsule_session_id
            &&& rest.started_at == c.started_at
            &&& rest.kws_phrase_detected == c.kws_phrase_detected
            &&& rest.local_absent_coverage == c.local_absent_coverage
        }),
{
}

/// Two cuts are one cut of both lengths.
pub proof fn cuts_add_up(c: BufferedSpeakerCandidate, first: usize, second: usize)
    requires
        first + second <= c.pcm_bytes,
    ensures
        c.kept_from(first).kept_from(second) == c.kept_from((first + second) as usize),
{
}

/// A candidate that is given up holds no audio and stays given up, and keeps the capsule that was
/// shown for it, so that it can be taken away.
pub proof fn a_given_up_candidate_holds_no_audio(c: BufferedSpeakerCandidate)
    ensures
        c.given_up().kind == BufferedSpeakerCandidateKind::Rejected,
        c.given_up().pcm_bytes == 0,
        c.given_up().wf(),
        c.given_up().early_capsule_session_id == c.early_capsule_session_id,
        c.given_up().given_up() == c.given_up(),
        c.given_up().detector == c.detector,
        c.given_up().started_at == c.started_at,
{
}

/// A new candidate knows nothing yet and holds nothing; only one whose owner is to be found waits
/// for the keyword model.
pub proof fn a_new_candidate_is_blank(kind: BufferedSpeakerCandidateKind, now: u64)
    ensures
        ({
            let c = fresh(kind, now);
            &&& c.kind == kind && c.started_at == now
            &&& c.pcm_bytes == 0 && c.kws_fed_bytes == 0 && c.kws_stream_origin_bytes == 0
                && c.local_confirmation_window_origin_bytes == 0
                && c.local_confirmation_last_snapshot_bytes == 0
            &&& c.detector == DetectorState::Loading <==> kind
                == BufferedSpeakerCandidateKind::Verification
            &&& c.detector != DetectorState::Ready
            &&& c.pending_phrase_match is None && c.local_confirmation_task is None
            &&& c.early_capsule_session_id is None && c.early_capsule_request_ms is None
            &&& !c.kws_phrase_detected && !c.local_kws_fusion_evidence
                && !c.kws_prompted_local_confirm
            &&& c.kws_first_hit_at is None && c.kws_first_hit_pcm_ms is None
            &&& c.local_absent_coverage is None && c.local_absent_count == 0
                && c.kws_local_absent_count == 0 && c.local_confirmation_attempts == 0
            &&& c.owner_near_phrase_confirmations == 0
                && c.local_owner_overlap_near_confirmations == 0
                && c.local_partial_phrase_confirmations == 0 && c.kws_total_ms == 0
        }),
{
}

/// A sound candidate never looks past its audio, whichever way it looks.
pub proof fn a_sound_candidate_stays_in_its_audio(c: BufferedSpeakerCandidate)
    ensures
        c.wf() && c.kind != BufferedSpeakerCandidateKind::Rejected ==> c.kws_fed_bytes
            <= c.pcm_bytes && c.kws_stream_origin_bytes <= c.pcm_bytes
            && c.local_confirmation_window_origin_bytes <= c.pcm_bytes && (
        c.local_confirmation_task is Some ==> c.local_confirmation_task->0.origin_bytes
            <= c.pcm_bytes),
        c.kind == BufferedSpeakerCandidateKind::Rejected ==> c.wf(),
        c.pcm_bytes == usize::MAX ==> c.wf(),
{
}

/// Audio is counted at thirty-two bytes a millisecond, and only whole milliseconds count.
pub proof fn a_millisecond_is_thirty_two_bytes(c: BufferedSpeakerCandidate)
    ensures
        c.audio_ms() * 32 <= c.pcm_bytes < c.audio_ms() * 32 + 32,
{
}

/// What was offered last is what stands, and nothing that stands is lost to silence.
pub proof fn the_latest_coverage_stands(
    kept: Option<AbsentCoverage>,
    offered: AbsentCoverage,
)
    ensures
        coverage_after(kept, Some(offered)) == Some(offered),
        coverage_after(kept, None) == kept,
{
}

/// A transcript is near the phrase exactly where the phrase itself is not in it, at most two
/// characters are amiss, and it says more than the phrase would.
pub proof fn a_near_phrase_is_close_but_absent(near: NearPhraseEvidence)
    ensures
        near.near() ==> near.phrase_absent,
        near.near() ==> near.best_distance <= 2,
        near.near() ==> near.transcript_chars > near.phrase_chars,
        near.phrase_absent && near.best_distance <= 2 && near.transcript_chars
            > near.phrase_chars ==> near.near(),
{
}

/// A keyword model that came is ready, one that failed rejects the candidate and takes its capsule
/// away, and one that is still loading changes nothing.  A candidate that waits for none is left
/// alone, and no poll touches its audio.
pub proof fn a_polled_model_is_ready_or_gone(c: BufferedSpeakerCandidate, poll: DetectorPoll)
    ensures
        ({
            let after = polled(c, poll);
            let waits = c.detector == DetectorState::Loading;
            &&& !waits || poll == DetectorPoll::Running ==> after == c
            &&& waits && poll == DetectorPoll::Loaded ==> after.detector == DetectorState::Ready
                && after.kind == c.kind && after.early_capsule_session_id
                == c.early_capsule_session_id
            &&& waits && poll == DetectorPoll::Failed ==> after.detector == DetectorState::Missing
                && after.kind == BufferedSpeakerCandidateKind::Rejected
                && after.early_capsule_session_id is None
            &&& after.pcm_bytes == c.pcm_bytes && after.started_at == c.started_at
        }),
{
}

} // verus!
