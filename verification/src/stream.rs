//! The packet actor: what a device packet does to the recording it belongs to.

use vstd::prelude::*;
use vstd::string::*;
use crate::candidate::{
    fresh,
    BufferedSpeakerCandidate,
    BufferedSpeakerCandidateKind,
};
use crate::closeout::EmbeddedAudioTranscriptResult;
use crate::recording::take_embedded_audio_final_result;
use crate::session::{hyphenated, SessionId};
use crate::text::{blank, decimal, decimal_digits, is_blank};

verus! {

/// How long a stopped recording waits for missing packets on a link that stays open.
pub const PENDING_STOP_FORCE_DELAY_MS: u64 = 1_200;
/// The first packet number at which a recording whose start was lost is taken up.
pub const ORPHAN_RECOVERY_MIN_SEQUENCE: u16 = 3;

/// What made the device start a recording.
#[derive(Clone, Copy, Debug, PartialEq, Eq, Structural)]
pub enum SessionStartOrigin {
    User,
    VoiceActivation,
    Unknown(u16),
}

/// What made the device end a recording.
#[derive(Clone, Copy, Debug, PartialEq, Eq, Structural)]
pub enum SessionStopOrigin {
    User,
    VoiceActivation,
    VoiceActivationMaxDuration,
}

/// Whether a person ended a recording; without a word from the device, a person did.
pub fn embedded_audio_stop_is_user_initiated(origin: Option<SessionStopOrigin>) -> (r: bool)
    ensures
        r == (origin != Some(SessionStopOrigin::VoiceActivation) && origin != Some(
            SessionStopOrigin::VoiceActivationMaxDuration,
        )),
{
    match origin {
        Some(SessionStopOrigin::VoiceActivation) => false,
        Some(SessionStopOrigin::VoiceActivationMaxDuration) => false,
        _ => true,
    }
}

/// The dictation session that a recording feeds.
#[derive(Clone, Copy, Debug, PartialEq, Eq, Structural)]
pub struct StreamingSession {
    pub session_id: SessionId,
    /// Speech of the body was heard.
    pub proactive_stop_body_started: bool,
    /// Silence since the body was last heard.
    pub proactive_stop_silence_ms: u64,
    /// A stop was asked for already.
    pub proactive_stop_dispatched: bool,
}

/// Guards a session that was just activated against the end of the segment that woke it.
#[derive(Clone, Copy, Debug, PartialEq, Eq, Structural)]
pub struct ActivationGuard {
    pub segment_id: u32,
    pub activated_at: u64,
}

/// The recording that the packet actor works on.
#[derive(Clone, Copy, Debug, PartialEq, Eq, Structural)]
pub struct EmbeddedStreamingDictation {
    pub session: Option<StreamingSession>,
    pub speaker_candidate: Option<BufferedSpeakerCandidate>,
    pub embedded_session_id: Option<u32>,
    pub pending_stop_expected_packet_count: Option<u16>,
    pub pending_stop_force_after: Option<u64>,
    pub orphan_recovery_quarantine_session_id: Option<u32>,
    pub activation_segment_race_guard: Option<ActivationGuard>,
    pub keep_listening_after_pipeline_errors: bool,
}

/// The bounds that the packet actor works with.
#[derive(Clone, Copy, Debug, PartialEq, Eq, Structural)]
pub struct StreamLimits {
    /// The largest buffer of a candidate.
    pub max_candidate_bytes: usize,
    /// How long after its activation a session survives the end of its wake segment.
    pub activation_race_window_ms: u64,
}

/// A device packet, with what the surroundings say about it.
#[derive(Clone, Copy, Debug, PartialEq, Eq, Structural)]
pub enum PacketEvent {
    Started { session_id: u32, origin: SessionStartOrigin, admitted: bool },
    PcmChunk { session_id: u32, packet_sequence: u16, pcm_bytes: usize, admitted: bool },
    /// `body_started` tells whether speech of the body was recognised, `complete` whether no
    /// packet is missing.
    Stopped {
        session_id: u32,
        expected_packet_count: u16,
        body_started: bool,
        complete: bool,
        now: u64,
    },
    Cancelled { session_id: u32 },
    Failed { session_id: u32 },
    Ignored,
}

/// What a packet leads to.
#[derive(Clone, Copy, Debug, PartialEq, Eq, Structural)]
pub enum PacketDecision {
    /// Nothing.
    Ignore,
    /// Start buffering a candidate or a session.
    Begin { session_id: u32, origin: SessionStartOrigin },
    /// Close what the recording owned; new audio is not admitted.
    DropInFlight,
    /// Let the candidate, which holds the chunk now, be promoted, released or finished.
    WorkOnCandidate { enrollment: bool },
    /// Report that a candidate grew too large.
    CandidateTooLarge,
    /// Take up a recording whose start was lost, as a hidden candidate.
    RecoverOrphan { session_id: u32 },
    /// Feed the chunk to the session, which belongs to the device segment of the chunk now;
    /// the session named here no longer waits for its segment.
    FeedSession { rebound: Option<SessionId> },
    /// The stream is reset and this recording is done.
    ResetDone,
    /// Only the wake segment ended; the session named here waits for the next one.
    KeepForNextSegment { coordinator: SessionId },
    /// Show that recognition goes on, and wait for missing packets.
    AwaitTail,
    /// Show that recognition goes on, and finish the recording.
    FinishComplete { session_id: u32, expected_packet_count: u16 },
    /// The candidate is dropped and the stream reset; `enrollment` tells what it was for.
    DiscardCandidate { enrollment: bool },
    /// Nothing was recorded; the stream is reset.
    NothingToCancel,
    /// The user cancelled: drop the session and keep listening.
    DiscardCancelled,
    /// The user cancelled: abort and report it.
    AbortCancelled,
    /// The device failed: drop the session and keep listening.
    DiscardFailed,
    /// The device failed: abort and report it.
    AbortFailed,
}

/// The stream after a reset.  A quarantine outlives it, and so does the mode of the listener.
pub open spec fn cleared(s: EmbeddedStreamingDictation) -> EmbeddedStreamingDictation {
    EmbeddedStreamingDictation {
        session: None,
        speaker_candidate: None,
        embedded_session_id: None,
        pending_stop_expected_packet_count: None,
        pending_stop_force_after: None,
        activation_segment_race_guard: None,
        ..s
    }
}

impl EmbeddedStreamingDictation {
    /// A recording feeds a session or a candidate, never both, and the candidate is sound.
    pub open spec fn wf(self) -> bool {
        &&& !(self.session is Some && self.speaker_candidate is Some)
        &&& self.speaker_candidate matches Some(c) ==> c.wf()
    }

    /// Whether the recording feeds anything.
    pub open spec fn active(self) -> bool {
        self.session is Some || self.speaker_candidate is Some
    }

    /// Whether the stream is well-formed.
    pub fn is_sound(&self) -> (r: bool)
        ensures
            r == self.wf(),
    {
        match (self.session, self.speaker_candidate) {
            (Some(_), Some(_)) => false,
            (_, Some(candidate)) => candidate.is_sound(),
            (_, None) => true,
        }
    }

    /// Empties the stream for the next recording.
    pub fn reset_for_next_session(&mut self)
        ensures
            *final(self) == cleared(*old(self)),
    {
        self.session = None;
        self.speaker_candidate = None;
        self.embedded_session_id = None;
        self.pending_stop_expected_packet_count = None;
        self.pending_stop_force_after = None;
        self.activation_segment_race_guard = None;
    }
}

/// A start packet: a quarantined segment is not reopened, any other one lifts the quarantine.
pub open spec fn started(
    s: EmbeddedStreamingDictation,
    session_id: u32,
    origin: SessionStartOrigin,
    admitted: bool,
) -> (EmbeddedStreamingDictation, PacketDecision) {
    if s.orphan_recovery_quarantine_session_id == Some(session_id) {
        (s, PacketDecision::Ignore)
    } else {
        (
            EmbeddedStreamingDictation { orphan_recovery_quarantine_session_id: None, ..s },
            if admitted {
                PacketDecision::Begin { session_id, origin }
            } else {
                PacketDecision::Ignore
            },
        )
    }
}

/// An audio packet for a candidate: buffered, unless the candidate was given up or is full.
pub open spec fn buffered(
    s: EmbeddedStreamingDictation,
    c: BufferedSpeakerCandidate,
    pcm_bytes: usize,
    limits: StreamLimits,
) -> (EmbeddedStreamingDictation, PacketDecision) {
    if c.kind == BufferedSpeakerCandidateKind::Rejected {
        (s, PacketDecision::Ignore)
    } else if c.pcm_bytes + pcm_bytes > limits.max_candidate_bytes {
        (s, PacketDecision::CandidateTooLarge)
    } else {
        (
            EmbeddedStreamingDictation {
                speaker_candidate: Some(
                    BufferedSpeakerCandidate {
                        pcm_bytes: (c.pcm_bytes + pcm_bytes) as usize,
                        ..c
                    },
                ),
                ..s
            },
            PacketDecision::WorkOnCandidate {
                enrollment: c.kind == BufferedSpeakerCandidateKind::Enrollment,
            },
        )
    }
}

/// An audio packet without a recording: taken up as a hidden candidate behind the first few
/// packets, unless its segment is in quarantine.
pub open spec fn orphaned(
    s: EmbeddedStreamingDictation,
    session_id: u32,
    packet_sequence: u16,
) -> (EmbeddedStreamingDictation, PacketDecision) {
    if s.orphan_recovery_quarantine_session_id != Some(session_id) && packet_sequence
        >= ORPHAN_RECOVERY_MIN_SEQUENCE && s.embedded_session_id is None {
        (
            EmbeddedStreamingDictation {
                orphan_recovery_quarantine_session_id: Some(session_id),
                ..s
            },
            PacketDecision::RecoverOrphan { session_id },
        )
    } else {
        (s, PacketDecision::Ignore)
    }
}

/// An audio packet for a session, which follows the device to a new segment after a wake.
pub open spec fn fed(
    s: EmbeddedStreamingDictation,
    session: StreamingSession,
    session_id: u32,
) -> (EmbeddedStreamingDictation, PacketDecision) {
    match s.activation_segment_race_guard {
        Some(guard) if guard.segment_id != session_id => (
            EmbeddedStreamingDictation {
                embedded_session_id: Some(session_id),
                activation_segment_race_guard: None,
                ..s
            },
            PacketDecision::FeedSession { rebound: Some(session.session_id) },
        ),
        _ => (s, PacketDecision::FeedSession { rebound: None }),
    }
}

/// An audio packet.
pub open spec fn chunk(
    s: EmbeddedStreamingDictation,
    session_id: u32,
    packet_sequence: u16,
    pcm_bytes: usize,
    admitted: bool,
    limits: StreamLimits,
) -> (EmbeddedStreamingDictation, PacketDecision) {
    if !admitted {
        if s.active() {
            (
                EmbeddedStreamingDictation {
                    session: None,
                    speaker_candidate: None,
                    embedded_session_id: None,
                    pending_stop_expected_packet_count: None,
                    ..s
                },
                PacketDecision::DropInFlight,
            )
        } else {
            (s, PacketDecision::Ignore)
        }
    } else if s.speaker_candidate is Some {
        buffered(s, s.speaker_candidate->0, pcm_bytes, limits)
    } else if s.session is None {
        orphaned(s, session_id, packet_sequence)
    } else {
        fed(s, s.session->0, session_id)
    }
}

/// Whether a stop packet ends only the wake segment of a session that was just activated.
pub open spec fn only_the_wake_segment_ended(
    s: EmbeddedStreamingDictation,
    session_id: u32,
    body_started: bool,
    now: u64,
    limits: StreamLimits,
) -> bool {
    &&& s.session is Some
    &&& s.activation_segment_race_guard matches Some(guard) && guard.segment_id == session_id
        && !body_started && crate::endpoint::past(now, guard.activated_at)
        <= limits.activation_race_window_ms
}

/// A stop packet.
pub open spec fn stopped(
    s: EmbeddedStreamingDictation,
    session_id: u32,
    expected_packet_count: u16,
    body_started: bool,
    complete: bool,
    now: u64,
    limits: StreamLimits,
) -> (EmbeddedStreamingDictation, PacketDecision) {
    if !s.active() {
        (cleared(s), PacketDecision::ResetDone)
    } else if only_the_wake_segment_ended(s, session_id, body_started, now, limits) {
        (
            EmbeddedStreamingDictation {
                embedded_session_id: None,
                pending_stop_expected_packet_count: None,
                ..s
            },
            PacketDecision::KeepForNextSegment { coordinator: s.session->0.session_id },
        )
    } else {
        let guard_done = s.session is Some && (s.activation_segment_race_guard matches Some(guard)
            && guard.segment_id == session_id);
        let pending = EmbeddedStreamingDictation {
            activation_segment_race_guard: if guard_done {
                None
            } else {
                s.activation_segment_race_guard
            },
            pending_stop_expected_packet_count: Some(expected_packet_count),
            ..s
        };
        if complete {
            (
                EmbeddedStreamingDictation { pending_stop_force_after: None, ..pending },
                PacketDecision::FinishComplete { session_id, expected_packet_count },
            )
        } else {
            (
                EmbeddedStreamingDictation {
                    pending_stop_force_after: if s.keep_listening_after_pipeline_errors {
                        Some(
                            crate::endpoint::capped_sum(now, PENDING_STOP_FORCE_DELAY_MS) as u64,
                        )
                    } else {
                        s.pending_stop_force_after
                    },
                    ..pending
                },
                PacketDecision::AwaitTail,
            )
        }
    }
}

/// A cancel packet.
pub open spec fn cancelled(s: EmbeddedStreamingDictation) -> (
    EmbeddedStreamingDictation,
    PacketDecision,
) {
    if s.session is None {
        (
            cleared(s),
            match s.speaker_candidate {
                Some(c) => PacketDecision::DiscardCandidate {
                    enrollment: c.kind == BufferedSpeakerCandidateKind::Enrollment,
                },
                None => PacketDecision::NothingToCancel,
            },
        )
    } else if s.keep_listening_after_pipeline_errors {
        (cleared(s), PacketDecision::DiscardCancelled)
    } else {
        (cleared(s), PacketDecision::AbortCancelled)
    }
}

/// The stream and the decision that follow a packet.
pub open spec fn after_packet(
    s: EmbeddedStreamingDictation,
    event: PacketEvent,
    limits: StreamLimits,
) -> (EmbeddedStreamingDictation, PacketDecision) {
    match event {
        PacketEvent::Started { session_id, origin, admitted } => started(
            s,
            session_id,
            origin,
            admitted,
        ),
        PacketEvent::PcmChunk { session_id, packet_sequence, pcm_bytes, admitted } => chunk(
            s,
            session_id,
            packet_sequence,
            pcm_bytes,
            admitted,
            limits,
        ),
        PacketEvent::Stopped { session_id, expected_packet_count, body_started, complete, now } =>
            stopped(s, session_id, expected_packet_count, body_started, complete, now, limits),
        PacketEvent::Cancelled { session_id } => cancelled(s),
        PacketEvent::Failed { session_id } => (
            cleared(s),
            if s.keep_listening_after_pipeline_errors {
                PacketDecision::DiscardFailed
            } else {
                PacketDecision::AbortFailed
            },
        ),
        PacketEvent::Ignored => (s, PacketDecision::Ignore),
    }
}

impl EmbeddedStreamingDictation {
    fn take_start(&mut self, session_id: u32, origin: SessionStartOrigin, admitted: bool) -> (r:
        PacketDecision)
        ensures
            (*final(self), r) == started(*old(self), session_id, origin, admitted),
    {
        if let Some(held) = self.orphan_recovery_quarantine_session_id {
            if held == session_id {
                return PacketDecision::Ignore;
            }
            self.orphan_recovery_quarantine_session_id = None;
        }
        if admitted {
            PacketDecision::Begin { session_id, origin }
        } else {
            PacketDecision::Ignore
        }
    }

    fn take_chunk(
        &mut self,
        session_id: u32,
        packet_sequence: u16,
        pcm_bytes: usize,
        admitted: bool,
        limits: StreamLimits,
    ) -> (r: PacketDecision)
        requires
            old(self).wf(),
        ensures
            (*final(self), r) == chunk(
                *old(self),
                session_id,
                packet_sequence,
                pcm_bytes,
                admitted,
                limits,
            ),
            final(self).wf(),
    {
        if !admitted {
            if self.session.is_some() || self.speaker_candidate.is_some() {
                self.session = None;
                self.speaker_candidate = None;
                self.embedded_session_id = None;
                self.pending_stop_expected_packet_count = None;
                return PacketDecision::DropInFlight;
            }
            return PacketDecision::Ignore;
        }
        if let Some(held) = self.speaker_candidate {
            if held.kind == BufferedSpeakerCandidateKind::Rejected {
                return PacketDecision::Ignore;
            }
            let mut candidate: BufferedSpeakerCandidate = held;
            if !candidate.append(pcm_bytes, limits.max_candidate_bytes) {
                return PacketDecision::CandidateTooLarge;
            }
            self.speaker_candidate = Some(candidate);
            return PacketDecision::WorkOnCandidate {
                enrollment: held.kind == BufferedSpeakerCandidateKind::Enrollment,
            };
        }
        match self.session {
            None => {
                let quarantined: bool = match self.orphan_recovery_quarantine_session_id {
                    Some(held) => held == session_id,
                    None => false,
                };
                if !quarantined && packet_sequence >= ORPHAN_RECOVERY_MIN_SEQUENCE
                    && self.embedded_session_id.is_none() {
                    self.orphan_recovery_quarantine_session_id = Some(session_id);
                    return PacketDecision::RecoverOrphan { session_id };
                }
                PacketDecision::Ignore
            },
            Some(session) => {
                let moved: bool = match self.activation_segment_race_guard {
                    Some(guard) => guard.segment_id != session_id,
                    None => false,
                };
                if moved {
                    self.embedded_session_id = Some(session_id);
                    self.activation_segment_race_guard = None;
                    return PacketDecision::FeedSession { rebound: Some(session.session_id) };
                }
                PacketDecision::FeedSession { rebound: None }
            },
        }
    }

    fn take_stop(
        &mut self,
        session_id: u32,
        expected_packet_count: u16,
        body_started: bool,
        complete: bool,
        now: u64,
        limits: StreamLimits,
    ) -> (r: PacketDecision)
        ensures
            (*final(self), r) == stopped(
                *old(self),
                session_id,
                expected_packet_count,
                body_started,
                complete,
                now,
                limits,
            ),
    {
        if self.session.is_none() && self.speaker_candidate.is_none() {
            self.reset_for_next_session();
            return PacketDecision::ResetDone;
        }
        if let Some(session) = self.session {
            if let Some(guard) = self.activation_segment_race_guard {
                if guard.segment_id == session_id {
                    if !body_started && now.saturating_sub(guard.activated_at)
                        <= limits.activation_race_window_ms {
                        self.embedded_session_id = None;
                        self.pending_stop_expected_packet_count = None;
                        return PacketDecision::KeepForNextSegment {
                            coordinator: session.session_id,
                        };
                    }
                    self.activation_segment_race_guard = None;
                }
            }
        }
        self.pending_stop_expected_packet_count = Some(expected_packet_count);
        if complete {
            self.pending_stop_force_after = None;
            return PacketDecision::FinishComplete { session_id, expected_packet_count };
        }
        if self.keep_listening_after_pipeline_errors {
            self.pending_stop_force_after = Some(now.saturating_add(PENDING_STOP_FORCE_DELAY_MS));
        }
        PacketDecision::AwaitTail
    }

    fn take_cancel(&mut self) -> (r: PacketDecision)
        ensures
            (*final(self), r) == cancelled(*old(self)),
    {
        let keep: bool = self.keep_listening_after_pipeline_errors;
        let session: Option<StreamingSession> = self.session;
        let candidate: Option<BufferedSpeakerCandidate> = self.speaker_candidate;
        self.reset_for_next_session();
        if session.is_none() {
            return match candidate {
                Some(c) => PacketDecision::DiscardCandidate {
                    enrollment: c.kind == BufferedSpeakerCandidateKind::Enrollment,
                },
                None => PacketDecision::NothingToCancel,
            };
        }
        if keep {
            PacketDecision::DiscardCancelled
        } else {
            PacketDecision::AbortCancelled
        }
    }

    /// Applies a device packet to the recording and decides what it leads to.
    pub fn apply_ble_packet_actor_command(&mut self, event: PacketEvent, limits: StreamLimits) -> (r:
        PacketDecision)
        requires
            old(self).wf(),
        ensures
            (*final(self), r) == after_packet(*old(self), event, limits),
            final(self).wf(),
    {
        let decision: PacketDecision = match event {
            PacketEvent::Started { session_id, origin, admitted } => self.take_start(
                session_id,
                origin,
                admitted,
            ),
            PacketEvent::PcmChunk { session_id, packet_sequence, pcm_bytes, admitted } =>
                self.take_chunk(session_id, packet_sequence, pcm_bytes, admitted, limits),
            PacketEvent::Stopped {
                session_id,
                expected_packet_count,
                body_started,
                complete,
                now,
            } => self.take_stop(
                session_id,
                expected_packet_count,
                body_started,
                complete,
                now,
                limits,
            ),
            PacketEvent::Cancelled { session_id: _ } => self.take_cancel(),
            PacketEvent::Failed { session_id: _ } => {
                let keep: bool = self.keep_listening_after_pipeline_errors;
                self.reset_for_next_session();
                if keep {
                    PacketDecision::DiscardFailed
                } else {
                    PacketDecision::AbortFailed
                }
            },
            PacketEvent::Ignored => PacketDecision::Ignore,
        };
        decision
    }

    /// Closes the recovery of an orphaned recording.  Where it was admitted the quarantine is
    /// lifted; otherwise the stream is reset and the segment stays in quarantine.
    pub fn settle_orphan_recovery(&mut self, admitted: bool)
        ensures
            *final(self) == (if admitted {
                EmbeddedStreamingDictation {
                    orphan_recovery_quarantine_session_id: None,
                    ..*old(self)
                }
            } else {
                cleared(*old(self))
            }),
    {
        if admitted {
            self.orphan_recovery_quarantine_session_id = None;
        } else {
            self.reset_for_next_session();
        }
    }

    /// Whether a recording that was stopped before can be finished after this chunk.
    pub fn pending_finish(&self, complete: bool) -> (r: Option<u16>)
        ensures
            r == (if complete {
                self.pending_stop_expected_packet_count
            } else {
                None
            }),
    {
        if complete {
            self.pending_stop_expected_packet_count
        } else {
            None
        }
    }
}

/// Whether speech of the body was recognised before a wake segment ended: the guard of the wake
/// saw it begin, or some of it is shown already.
pub fn body_started_before_stop(wake_body_started: bool, preview: Option<&str>) -> (r: bool)
    ensures
        r == (wake_body_started || (preview matches Some(text) && !blank(text@))),
{
    wake_body_started || match preview {
        Some(text) => !is_blank(text),
        None => false,
    }
}

impl StreamingSession {
    /// Whether the host is to stop a session whose provider failed: the body was heard, it has
    /// been silent long enough, and no stop was asked for yet.
    pub open spec fn stop_due(self, silence_threshold_ms: u64) -> bool {
        self.proactive_stop_body_started && self.proactive_stop_silence_ms >= silence_threshold_ms
            && !self.proactive_stop_dispatched
    }
}

/// Whether a session whose provider failed is to be stopped by the host: the body was heard, it
/// has been silent long enough, and no stop was asked for yet.
pub fn proactive_stop_due(session: &StreamingSession, silence_threshold_ms: u64) -> (r: bool)
    ensures
        r == session.stop_due(silence_threshold_ms),
{
    session.proactive_stop_body_started && session.proactive_stop_silence_ms >= silence_threshold_ms
        && !session.proactive_stop_dispatched
}

/// The stream once the host's stop was tried: one that was sent is remembered by the session.
pub open spec fn stop_tried(
    s: EmbeddedStreamingDictation,
    stop_sent: bool,
) -> EmbeddedStreamingDictation {
    EmbeddedStreamingDictation {
        session: match s.session {
            Some(session) => Some(
                StreamingSession {
                    proactive_stop_dispatched: stop_sent || session.proactive_stop_dispatched,
                    ..session
                },
            ),
            None => None,
        },
        ..s
    }
}

impl EmbeddedStreamingDictation {
    /// Notes whether the stop that the host asked for was sent, and tells whether the user is
    /// shown that the recording stops.
    pub fn note_proactive_stop(&mut self, stop_sent: bool) -> (r: bool)
        ensures
            *final(self) == stop_tried(*old(self), stop_sent),
            r == stop_sent,
    {
        if stop_sent {
            if let Some(session) = self.session {
                self.session = Some(
                    StreamingSession { proactive_stop_dispatched: true, ..session },
                );
            }
        }
        stop_sent
    }
}

/// One part of the work on a candidate that holds a new chunk.
#[derive(Clone, Copy, Debug, PartialEq, Eq, Structural)]
pub enum CandidateWork {
    /// Hand the candidate over to a person who pressed the key.
    Promote,
    /// Release it to a session, where phrase and voice are recognised.
    Release,
    /// Finish the recording, which was stopped before and is complete now.
    Finish { expected_packet_count: u16 },
    /// The chunk is dealt with; `recording_done` tells whether the recording is.
    Done { recording_done: bool },
}

/// The part that follows: a candidate that was handed over or released needs no more, and a
/// recording is finished only where neither happened.
pub open spec fn next_work(
    s: EmbeddedStreamingDictation,
    work: CandidateWork,
    succeeded: bool,
    complete: bool,
) -> CandidateWork {
    match work {
        CandidateWork::Promote if !succeeded => CandidateWork::Release,
        CandidateWork::Release if !succeeded => match s.pending_stop_expected_packet_count {
            Some(expected_packet_count) if complete => CandidateWork::Finish {
                expected_packet_count,
            },
            _ => CandidateWork::Done { recording_done: false },
        },
        CandidateWork::Finish { expected_packet_count } => CandidateWork::Done {
            recording_done: true,
        },
        CandidateWork::Done { recording_done } => work,
        _ => CandidateWork::Done { recording_done: false },
    }
}

impl EmbeddedStreamingDictation {
    /// The part of the work on a candidate that follows one whose outcome is known; `complete`
    /// tells whether no packet is missing.
    pub fn work_on_candidate(&self, work: CandidateWork, succeeded: bool, complete: bool) -> (r:
        CandidateWork)
        ensures
            r == next_work(*self, work, succeeded, complete),
    {
        match work {
            CandidateWork::Promote => {
                if succeeded {
                    CandidateWork::Done { recording_done: false }
                } else {
                    CandidateWork::Release
                }
            },
            CandidateWork::Release => {
                if succeeded {
                    return CandidateWork::Done { recording_done: false };
                }
                match self.pending_finish(complete) {
                    Some(expected_packet_count) => CandidateWork::Finish { expected_packet_count },
                    None => CandidateWork::Done { recording_done: false },
                }
            },
            CandidateWork::Finish { expected_packet_count: _ } => CandidateWork::Done {
                recording_done: true,
            },
            CandidateWork::Done { recording_done: _ } => work,
        }
    }
}

impl PacketDecision {
    /// Whether the recording is done for the actor that delivers packets, as far as the decision
    /// settles it.  `None` where what follows settles it, or an error is reported.
    pub fn settled(self, keep_listening: bool) -> (r: Option<bool>)
        ensures
            r == (match self {
                PacketDecision::ResetDone => Some(true),
                PacketDecision::DiscardCandidate { enrollment } => Some(!keep_listening),
                PacketDecision::NothingToCancel => Some(!keep_listening),
                PacketDecision::FinishComplete { session_id, expected_packet_count } => Some(true),
                PacketDecision::Begin { session_id, origin } => Some(false),
                PacketDecision::Ignore => Some(false),
                PacketDecision::DropInFlight => Some(false),
                PacketDecision::RecoverOrphan { session_id } => Some(false),
                PacketDecision::KeepForNextSegment { coordinator } => Some(false),
                PacketDecision::AwaitTail => Some(false),
                PacketDecision::DiscardCancelled => Some(false),
                PacketDecision::DiscardFailed => Some(false),
                _ => None,
            }),
    {
        match self {
            PacketDecision::ResetDone => Some(true),
            PacketDecision::DiscardCandidate { enrollment: _ } => Some(!keep_listening),
            PacketDecision::NothingToCancel => Some(!keep_listening),
            PacketDecision::FinishComplete { session_id: _, expected_packet_count: _ } => Some(true),
            PacketDecision::Begin { session_id: _, origin: _ } => Some(false),
            PacketDecision::Ignore => Some(false),
            PacketDecision::DropInFlight => Some(false),
            PacketDecision::RecoverOrphan { session_id: _ } => Some(false),
            PacketDecision::KeepForNextSegment { coordinator: _ } => Some(false),
            PacketDecision::AwaitTail => Some(false),
            PacketDecision::DiscardCancelled => Some(false),
            PacketDecision::DiscardFailed => Some(false),
            _ => None,
        }
    }
}

impl PacketDecision {
    /// The error that a decision reports.  A failure of the device is reported with the device's
    /// own words instead.
    pub fn error(self) -> (r: Option<StreamError>)
        ensures
            r == (match self {
                PacketDecision::CandidateTooLarge => Some(StreamError::CandidateTooLarge),
                PacketDecision::AbortCancelled => Some(StreamError::Cancelled),
                _ => None,
            }),
    {
        match self {
            PacketDecision::CandidateTooLarge => Some(StreamError::CandidateTooLarge),
            PacketDecision::AbortCancelled => Some(StreamError::Cancelled),
            _ => None,
        }
    }
}

/// The report of a failure of the device, under the device's code.
pub fn device_failure(error_code: &str) -> (r: String)
    ensures
        r@ == "嵌入式音频会话错误: "@ + error_code@,
{
    "嵌入式音频会话错误: ".to_owned().concat(error_code)
}

/// Why a recording could not be taken up, taken over or finished.
#[derive(Clone, Copy, Debug, PartialEq, Eq, Structural)]
pub enum StreamError {
    /// Another device segment is being recorded.
    SegmentMismatch { current: Option<u32>, incoming: u32 },
    /// The recording lifecycle admits no candidate now.
    CandidateRefused { embedded_session_id: u32 },
    /// A takeover was asked for another device segment than the one being recorded.
    TakeoverMismatch { current: Option<u32>, incoming: u32 },
    /// A stop came for another device segment than the one being recorded.
    StopMismatch { current: Option<u32>, incoming: u32 },
    /// The recording holds no audio.
    NoAudio,
    /// No session was opened for the recording.
    NoSession,
    /// A candidate grew too large.
    CandidateTooLarge,
    /// The device cancelled the recording.
    Cancelled,
    /// The recording lifecycle refused the session of a person who took a candidate over.
    TakeoverRefused { embedded_session_id: u32, session_id: SessionId },
    /// The session of a person who took a candidate over was cancelled.
    TakeoverCancelled,
    /// The recording lifecycle refused the session that a wake phrase opened.
    WakeRefused { embedded_session_id: u32, session_id: SessionId },
    /// The recording lifecycle refused the session that a wake phrase opened at the very end.
    LateWakeRefused { embedded_session_id: u32, session_id: SessionId },
    /// The session that a wake phrase opened was cancelled.
    WakeCancelled,
}

/// An optional number as it is written in reports.
pub open spec fn optional_number(n: Option<u32>) -> Seq<char> {
    match n {
        Some(v) => "Some("@ + decimal_digits(v as nat) + ")"@,
        None => "None"@,
    }
}

/// A report that two device segments differ.
pub open spec fn mismatch_text(lead: Seq<char>, current: Option<u32>, incoming: u32) -> Seq<char> {
    lead + "current="@ + optional_number(current) + ", incoming="@ + decimal_digits(incoming as nat)
}

/// A report that the recording lifecycle refused a session.
pub open spec fn refusal_text(
    lead: Seq<char>,
    embedded_session_id: u32,
    session_id: SessionId,
) -> Seq<char> {
    lead + " embedded_session_id="@ + decimal_digits(embedded_session_id as nat)
        + " coordinator_session_id="@ + hyphenated(session_id.bits)
}

fn refusal(lead: &str, embedded_session_id: u32, session_id: SessionId) -> (r: String)
    ensures
        r@ == refusal_text(lead@, embedded_session_id, session_id),
{
    lead.to_owned().concat(" embedded_session_id=").concat(
        decimal(embedded_session_id as u64).as_str(),
    ).concat(" coordinator_session_id=").concat(session_id.to_text().as_str())
}

fn optional_number_text(n: Option<u32>) -> (r: String)
    ensures
        r@ == optional_number(n),
{
    match n {
        Some(v) => "Some(".to_owned().concat(decimal(v as u64).as_str()).concat(")"),
        None => "None".to_owned(),
    }
}

fn mismatch(lead: &str, current: Option<u32>, incoming: u32) -> (r: String)
    ensures
        r@ == mismatch_text(lead@, current, incoming),
{
    lead.to_owned().concat("current=").concat(optional_number_text(current).as_str()).concat(
        ", incoming=",
    ).concat(decimal(incoming as u64).as_str())
}

impl StreamError {
    /// The words of a report.
    pub open spec fn words(self) -> Seq<char> {
        match self {
            StreamError::SegmentMismatch { current, incoming } => mismatch_text(
                "嵌入式音频流式 session 不一致: "@,
                current,
                incoming,
            ),
            StreamError::CandidateRefused { embedded_session_id } =>
                "录音生命周期拒绝新的唤醒候选 embedded_session_id="@ + decimal_digits(
                    embedded_session_id as nat,
                ),
            StreamError::TakeoverMismatch { current, incoming } => mismatch_text(
                "物理录音接管 session 不一致: "@,
                current,
                incoming,
            ),
            StreamError::StopMismatch { current, incoming } => mismatch_text(
                "嵌入式音频停止包 session 不一致: "@,
                current,
                incoming,
            ),
            StreamError::NoAudio => "嵌入式音频会话没有可识别的 PCM 数据"@,
            StreamError::NoSession => "嵌入式音频流式听写 session 尚未创建"@,
            StreamError::CandidateTooLarge => "声纹候选录音超过安全缓冲上限"@,
            StreamError::Cancelled => "嵌入式音频会话已取消"@,
            StreamError::TakeoverRefused { embedded_session_id, session_id } => refusal_text(
                "录音生命周期拒绝物理接管"@,
                embedded_session_id,
                session_id,
            ),
            StreamError::TakeoverCancelled => "物理录音接管会话已被取消"@,
            StreamError::WakeRefused { embedded_session_id, session_id } => refusal_text(
                "录音生命周期拒绝自动唤醒主人会话"@,
                embedded_session_id,
                session_id,
            ),
            StreamError::LateWakeRefused { embedded_session_id, session_id } => refusal_text(
                "录音生命周期拒绝终端自动唤醒主人会话"@,
                embedded_session_id,
                session_id,
            ),
            StreamError::WakeCancelled => "嵌入式音频听写会话已被取消"@,
        }
    }

    /// Whether the recording is aborted before this error is reported.
    pub fn aborts_recording(self) -> (r: bool)
        ensures
            r == (self == StreamError::NoAudio || self == StreamError::Cancelled),
    {
        match self {
            StreamError::NoAudio => true,
            StreamError::Cancelled => true,
            _ => false,
        }
    }

    /// The words of a report.
    pub fn message(&self) -> (r: String)
        ensures
            r@ == self.words(),
    {
        match *self {
            StreamError::SegmentMismatch { current, incoming } => mismatch(
                "嵌入式音频流式 session 不一致: ",
                current,
                incoming,
            ),
            StreamError::CandidateRefused { embedded_session_id } =>
                "录音生命周期拒绝新的唤醒候选 embedded_session_id=".to_owned().concat(
                decimal(embedded_session_id as u64).as_str(),
            ),
            StreamError::TakeoverMismatch { current, incoming } => mismatch(
                "物理录音接管 session 不一致: ",
                current,
                incoming,
            ),
            StreamError::StopMismatch { current, incoming } => mismatch(
                "嵌入式音频停止包 session 不一致: ",
                current,
                incoming,
            ),
            StreamError::NoAudio => "嵌入式音频会话没有可识别的 PCM 数据".to_owned(),
            StreamError::NoSession => "嵌入式音频流式听写 session 尚未创建".to_owned(),
            StreamError::CandidateTooLarge => "声纹候选录音超过安全缓冲上限".to_owned(),
            StreamError::Cancelled => "嵌入式音频会话已取消".to_owned(),
            StreamError::TakeoverRefused { embedded_session_id, session_id } => refusal(
                "录音生命周期拒绝物理接管",
                embedded_session_id,
                session_id,
            ),
            StreamError::TakeoverCancelled => "物理录音接管会话已被取消".to_owned(),
            StreamError::WakeRefused { embedded_session_id, session_id } => refusal(
                "录音生命周期拒绝自动唤醒主人会话",
                embedded_session_id,
                session_id,
            ),
            StreamError::LateWakeRefused { embedded_session_id, session_id } => refusal(
                "录音生命周期拒绝终端自动唤醒主人会话",
                embedded_session_id,
                session_id,
            ),
            StreamError::WakeCancelled => "嵌入式音频听写会话已被取消".to_owned(),
        }
    }
}

/// What the surroundings say when a recording begins.
#[derive(Clone, Copy, Debug, PartialEq, Eq, Structural)]
pub struct BeginFacts {
    /// New recordings are admitted.
    pub admitted: bool,
    /// A session waits for the body behind a wake that ended its segment.
    pub continuation_waiting: Option<SessionId>,
    /// What the recording would be buffered for; nothing for a person's own recording.
    pub candidate_kind: Option<BufferedSpeakerCandidateKind>,
    /// The recording lifecycle admits a wake candidate.
    pub lifecycle_admits: bool,
}

/// What the surroundings said when a recording begins, as far as they were asked.  Asking for the
/// kind of a candidate uses up an enrollment, and asking the lifecycle takes a place in it, so
/// nothing is asked that does not matter.
#[derive(Clone, Copy, Debug, PartialEq, Eq, Structural)]
pub struct BeginAnswers {
    pub admitted: Option<bool>,
    pub continuation_waiting: Option<Option<SessionId>>,
    pub candidate_kind: Option<Option<BufferedSpeakerCandidateKind>>,
    pub lifecycle_admits: Option<bool>,
}

/// What the surroundings are asked when a recording begins.
#[derive(Clone, Copy, Debug, PartialEq, Eq, Structural)]
pub enum BeginQuestion {
    Admission,
    Continuation,
    CandidateKind,
    Lifecycle,
}

impl BeginAnswers {
    /// Nothing was asked yet.
    pub fn new() -> (r: BeginAnswers)
        ensures
            r.admitted is None && r.continuation_waiting is None && r.candidate_kind is None
                && r.lifecycle_admits is None,
    {
        BeginAnswers {
            admitted: None,
            continuation_waiting: None,
            candidate_kind: None,
            lifecycle_admits: None,
        }
    }

    /// Whether the surroundings are as they were said to be.
    pub open spec fn agree(self, facts: BeginFacts) -> bool {
        &&& self.admitted matches Some(admitted) ==> facts.admitted == admitted
        &&& self.continuation_waiting matches Some(waiting) ==> facts.continuation_waiting
            == waiting
        &&& self.candidate_kind matches Some(kind) ==> facts.candidate_kind == kind
        &&& self.lifecycle_admits matches Some(admits) ==> facts.lifecycle_admits == admits
    }

    /// The surroundings as far as they were asked; the rest is taken as refused or not there.
    pub fn facts(self) -> (r: BeginFacts)
        ensures
            self.agree(r),
            self.admitted is None ==> !r.admitted,
            self.continuation_waiting is None ==> r.continuation_waiting is None,
            self.candidate_kind is None ==> r.candidate_kind is None,
            self.lifecycle_admits is None ==> !r.lifecycle_admits,
    {
        BeginFacts {
            admitted: match self.admitted {
                Some(admitted) => admitted,
                None => false,
            },
            continuation_waiting: match self.continuation_waiting {
                Some(waiting) => waiting,
                None => None,
            },
            candidate_kind: match self.candidate_kind {
                Some(kind) => kind,
                None => None,
            },
            lifecycle_admits: match self.lifecycle_admits {
                Some(admits) => admits,
                None => false,
            },
        }
    }
}

/// What is asked next when a recording begins; nothing once the answers settle it.
pub open spec fn asked_next(s: EmbeddedStreamingDictation, answers: BeginAnswers) -> Option<
    BeginQuestion,
> {
    match answers.admitted {
        None => Some(BeginQuestion::Admission),
        Some(false) => None,
        Some(true) => if s.active() {
            None
        } else {
            match answers.continuation_waiting {
                None => Some(BeginQuestion::Continuation),
                Some(Some(_)) => None,
                Some(None) => match answers.candidate_kind {
                    None => Some(BeginQuestion::CandidateKind),
                    Some(Some(BufferedSpeakerCandidateKind::Verification)) =>
                        if answers.lifecycle_admits is None {
                            Some(BeginQuestion::Lifecycle)
                        } else {
                            None
                        },
                    Some(_) => None,
                },
            }
        },
    }
}

/// How a recording begins.
#[derive(Clone, Copy, Debug, PartialEq, Eq, Structural)]
pub enum BeginDecision {
    /// Nothing is recorded.
    Denied,
    /// The recording is being worked on already.
    AlreadyBound,
    /// The session follows the device to this segment and no longer waits for it.
    Rebound { session_id: SessionId },
    /// The segment is the body of the session that waits for it.
    AttachContinuation { session_id: SessionId },
    /// The audio is buffered; the keyword detector is loaded where `load_detector` says so.
    Buffering { load_detector: bool },
    /// A session is opened at once.
    OpenSession,
}

/// A recording that begins while another one is worked on.
pub open spec fn rebound(
    s: EmbeddedStreamingDictation,
    embedded_session_id: u32,
    origin: SessionStartOrigin,
) -> (EmbeddedStreamingDictation, Result<BeginDecision, StreamError>) {
    if s.session is Some && s.activation_segment_race_guard is Some
        && s.activation_segment_race_guard->0.segment_id != embedded_session_id && origin
        == SessionStartOrigin::VoiceActivation {
        (
            EmbeddedStreamingDictation {
                embedded_session_id: Some(embedded_session_id),
                activation_segment_race_guard: None,
                ..s
            },
            Ok(BeginDecision::Rebound { session_id: s.session->0.session_id }),
        )
    } else if s.embedded_session_id != Some(embedded_session_id) {
        (
            s,
            Err(
                StreamError::SegmentMismatch {
                    current: s.embedded_session_id,
                    incoming: embedded_session_id,
                },
            ),
        )
    } else {
        (s, Ok(BeginDecision::AlreadyBound))
    }
}

/// The stream and the decision when a recording begins.
pub open spec fn begun(
    s: EmbeddedStreamingDictation,
    embedded_session_id: u32,
    origin: SessionStartOrigin,
    facts: BeginFacts,
    now: u64,
) -> (EmbeddedStreamingDictation, Result<BeginDecision, StreamError>) {
    let bound = EmbeddedStreamingDictation {
        embedded_session_id: Some(embedded_session_id),
        ..s
    };
    if !facts.admitted {
        (s, Ok(BeginDecision::Denied))
    } else if s.active() {
        rebound(s, embedded_session_id, origin)
    } else if facts.continuation_waiting is Some {
        (
            s,
            Ok(BeginDecision::AttachContinuation { session_id: facts.continuation_waiting->0 }),
        )
    } else {
        match facts.candidate_kind {
            None => (bound, Ok(BeginDecision::OpenSession)),
            Some(kind) => if kind == BufferedSpeakerCandidateKind::Verification
                && !facts.lifecycle_admits {
                (bound, Err(StreamError::CandidateRefused { embedded_session_id }))
            } else {
                (
                    EmbeddedStreamingDictation {
                        speaker_candidate: Some(fresh(kind, now)),
                        ..bound
                    },
                    Ok(
                        BeginDecision::Buffering {
                            load_detector: kind == BufferedSpeakerCandidateKind::Verification,
                        },
                    ),
                )
            },
        }
    }
}

impl EmbeddedStreamingDictation {
    /// What the surroundings are asked next before a recording is taken up.
    pub fn begin_question(&self, answers: &BeginAnswers) -> (r: Option<BeginQuestion>)
        ensures
            r == asked_next(*self, *answers),
    {
        let Some(admitted) = answers.admitted else {
            return Some(BeginQuestion::Admission);
        };
        if !admitted || self.session.is_some() || self.speaker_candidate.is_some() {
            return None;
        }
        let Some(waiting) = answers.continuation_waiting else {
            return Some(BeginQuestion::Continuation);
        };
        if waiting.is_some() {
            return None;
        }
        match answers.candidate_kind {
            None => Some(BeginQuestion::CandidateKind),
            Some(Some(BufferedSpeakerCandidateKind::Verification)) => {
                if answers.lifecycle_admits.is_none() {
                    Some(BeginQuestion::Lifecycle)
                } else {
                    None
                }
            },
            Some(_) => None,
        }
    }

    /// Takes up a recording: as the body of a session that waits for it, as a buffered
    /// candidate, or as a session of its own.
    pub fn begin_candidate_or_session(
        &mut self,
        embedded_session_id: u32,
        origin: SessionStartOrigin,
        facts: BeginFacts,
        now: u64,
    ) -> (r: Result<BeginDecision, StreamError>)
        requires
            old(self).wf(),
        ensures
            (*final(self), r) == begun(*old(self), embedded_session_id, origin, facts, now),
            final(self).wf(),
    {
        if !facts.admitted {
            return Ok(BeginDecision::Denied);
        }
        if self.session.is_some() || self.speaker_candidate.is_some() {
            if let Some(guard) = self.activation_segment_race_guard {
                if let Some(session) = self.session {
                    if guard.segment_id != embedded_session_id && origin
                        == SessionStartOrigin::VoiceActivation {
                        self.embedded_session_id = Some(embedded_session_id);
                        self.activation_segment_race_guard = None;
                        return Ok(BeginDecision::Rebound { session_id: session.session_id });
                    }
                }
            }
            let same: bool = match self.embedded_session_id {
                Some(current) => current == embedded_session_id,
                None => false,
            };
            if !same {
                return Err(
                    StreamError::SegmentMismatch {
                        current: self.embedded_session_id,
                        incoming: embedded_session_id,
                    },
                );
            }
            return Ok(BeginDecision::AlreadyBound);
        }
        if let Some(session_id) = facts.continuation_waiting {
            return Ok(BeginDecision::AttachContinuation { session_id });
        }
        self.embedded_session_id = Some(embedded_session_id);
        match facts.candidate_kind {
            None => Ok(BeginDecision::OpenSession),
            Some(kind) => {
                let wake: bool = kind == BufferedSpeakerCandidateKind::Verification;
                if wake && !facts.lifecycle_admits {
                    return Err(StreamError::CandidateRefused { embedded_session_id });
                }
                self.speaker_candidate = Some(BufferedSpeakerCandidate::new(kind, now));
                Ok(BeginDecision::Buffering { load_detector: wake })
            },
        }
    }

    /// Hands a hidden candidate over to a person who pressed the key.  The audio before the
    /// press is not kept.  Nothing is taken before a candidate is there to take.
    pub fn promote_hidden_candidate_if_requested(
        &mut self,
        embedded_session_id: u32,
        promotion_requested: bool,
    ) -> (r: Result<bool, StreamError>)
        requires
            old(self).wf(),
        ensures
            final(self).wf(),
            !takeover_ready(*old(self), promotion_requested) ==> r == Ok::<bool, StreamError>(false)
                && *final(self) == *old(self),
            takeover_ready(*old(self), promotion_requested) ==> {
                &&& *final(self) == (EmbeddedStreamingDictation {
                    speaker_candidate: None,
                    ..*old(self)
                })
                &&& r == (if old(self).embedded_session_id == Some(embedded_session_id) {
                    Ok(true)
                } else {
                    Err(
                        StreamError::TakeoverMismatch {
                            current: old(self).embedded_session_id,
                            incoming: embedded_session_id,
                        },
                    )
                })
            },
    {
        let wake: bool = match self.speaker_candidate {
            Some(c) => c.kind == BufferedSpeakerCandidateKind::Verification,
            None => false,
        };
        if !wake || !promotion_requested {
            return Ok(false);
        }
        self.speaker_candidate = None;
        let same: bool = match self.embedded_session_id {
            Some(current) => current == embedded_session_id,
            None => false,
        };
        if same {
            Ok(true)
        } else {
            Err(
                StreamError::TakeoverMismatch {
                    current: self.embedded_session_id,
                    incoming: embedded_session_id,
                },
            )
        }
    }

    /// Goes on with a takeover whose session was opened: the recording lifecycle must admit it,
    /// and it must not have been cancelled meanwhile.
    pub fn settle_takeover(
        &mut self,
        embedded_session_id: u32,
        session_id: SessionId,
        promoted: bool,
        activated: bool,
    ) -> (r: Result<(), StreamError>)
        requires
            old(self).wf(),
        ensures
            r == (if !promoted {
                Err(StreamError::TakeoverRefused { embedded_session_id, session_id })
            } else if !activated {
                Err(StreamError::TakeoverCancelled)
            } else {
                Ok(())
            }),
            r is Err ==> *final(self) == *old(self),
            r is Ok ==> *final(self) == (EmbeddedStreamingDictation {
                session: Some(
                    (StreamingSession {
                        session_id,
                        proactive_stop_body_started: false,
                        proactive_stop_silence_ms: 0,
                        proactive_stop_dispatched: false,
                    }),
                ),
                speaker_candidate: None,
                ..*old(self)
            }),
            final(self).wf(),
    {
        if !promoted {
            return Err(StreamError::TakeoverRefused { embedded_session_id, session_id });
        }
        if !activated {
            return Err(StreamError::TakeoverCancelled);
        }
        self.adopt_released_session(session_id, None, 0);
        Ok(())
    }

    /// Takes the candidate out of the stream, for the session that is being opened for it.
    pub fn take_candidate(&mut self) -> (r: Option<BufferedSpeakerCandidate>)
        requires
            old(self).wf(),
        ensures
            r == old(self).speaker_candidate,
            *final(self) == (EmbeddedStreamingDictation { speaker_candidate: None, ..*old(self) }),
            final(self).wf(),
    {
        self.speaker_candidate.take()
    }

    /// Binds the session that was opened for the audio of a candidate.  A session that a wake
    /// opened is guarded against the end of its wake segment.
    pub fn adopt_released_session(
        &mut self,
        session_id: SessionId,
        wake_segment: Option<u32>,
        now: u64,
    )
        requires
            old(self).wf(),
        ensures
            *final(self) == (EmbeddedStreamingDictation {
                session: Some(
                    (StreamingSession {
                        session_id,
                        proactive_stop_body_started: false,
                        proactive_stop_silence_ms: 0,
                        proactive_stop_dispatched: false,
                    }),
                ),
                speaker_candidate: None,
                activation_segment_race_guard: match wake_segment {
                    Some(segment_id) => Some(
                        (ActivationGuard { segment_id, activated_at: now }),
                    ),
                    None => old(self).activation_segment_race_guard,
                },
                ..*old(self)
            }),
            final(self).wf(),
    {
        self.session = Some(
            StreamingSession {
                session_id,
                proactive_stop_body_started: false,
                proactive_stop_silence_ms: 0,
                proactive_stop_dispatched: false,
            },
        );
        self.speaker_candidate = None;
        if let Some(segment_id) = wake_segment {
            self.activation_segment_race_guard = Some(
                ActivationGuard { segment_id, activated_at: now },
            );
        }
    }

    /// Begins to finish a recording: the device must speak of the segment that is recorded, and
    /// some audio must have come.  A recording without audio is aborted, as its error tells.
    pub fn finish_streaming_session(
        &self,
        embedded_session_id: u32,
        received_pcm_bytes: usize,
    ) -> (r: Result<(), StreamError>)
        ensures
            r == (if self.embedded_session_id != Some(embedded_session_id) {
                Err(
                    StreamError::StopMismatch {
                        current: self.embedded_session_id,
                        incoming: embedded_session_id,
                    },
                )
            } else if received_pcm_bytes == 0 {
                Err(StreamError::NoAudio)
            } else {
                Ok(())
            }),
    {
        let same: bool = match self.embedded_session_id {
            Some(current) => current == embedded_session_id,
            None => false,
        };
        if !same {
            return Err(
                StreamError::StopMismatch {
                    current: self.embedded_session_id,
                    incoming: embedded_session_id,
                },
            );
        }
        if received_pcm_bytes == 0 {
            return Err(StreamError::NoAudio);
        }
        Ok(())
    }

    /// Goes on once a takeover was considered and a candidate, if there was one, was decided:
    /// a candidate that ended its recording closes it, unless its identity is still needed by a
    /// continuation; otherwise the session is handed over for completion.
    pub fn finish_after_candidate(
        &mut self,
        ended_by_candidate: bool,
        continuation_waiting: bool,
    ) -> (r: Result<StreamEnd, StreamError>)
        ensures
            ended_by_candidate ==> r == Ok::<StreamEnd, StreamError>(
                StreamEnd::CandidateEnded { close_candidate: !continuation_waiting },
            ) && *final(self) == *old(self),
            !ended_by_candidate ==> {
                &&& *final(self) == (EmbeddedStreamingDictation { session: None, ..*old(self) })
                &&& r == (match old(self).session {
                    Some(session) => Ok(StreamEnd::Complete { session_id: session.session_id }),
                    None => Err(StreamError::NoSession),
                })
            },
    {
        if ended_by_candidate {
            return Ok(StreamEnd::CandidateEnded { close_candidate: !continuation_waiting });
        }
        let taken: Option<StreamingSession> = self.session;
        self.session = None;
        match taken {
            Some(session) => Ok(StreamEnd::Complete { session_id: session.session_id }),
            None => Err(StreamError::NoSession),
        }
    }
}

/// How a recording ends.
#[derive(Clone, Copy, Debug, PartialEq, Eq, Structural)]
pub enum StreamEnd {
    CandidateEnded { close_candidate: bool },
    Complete { session_id: SessionId },
}

/// Closes a recording whose completion has ended.  Where it succeeded, the final text of its
/// session is kept with the recording, and the session that owned the recording is given for it
/// to be closed; a completion that failed changes nothing.
pub fn settle_completion(
    transcript: &mut Option<EmbeddedAudioTranscriptResult>,
    slot: &mut Option<EmbeddedAudioTranscriptResult>,
    session_id: SessionId,
    completed: &Result<(), String>,
) -> (r: Option<SessionId>)
    ensures
        r == (if *completed is Ok {
            Some(session_id)
        } else {
            None
        }),
        *completed is Err ==> *final(transcript) == *old(transcript) && *final(slot) == *old(slot),
        *completed is Ok ==> ({
            let own = *old(slot) is Some && old(slot)->0.session_id@ == hyphenated(
                session_id.bits,
            );
            &&& *final(transcript) == (if own {
                *old(slot)
            } else {
                None
            })
            &&& *final(slot) == (if own {
                None
            } else {
                *old(slot)
            })
        }),
{
    match completed {
        Ok(_) => {
            *transcript = take_embedded_audio_final_result(slot, session_id);
            Some(session_id)
        },
        Err(_) => None,
    }
}

/// What was not asked does not matter: once nothing more is asked, the recording begins in the same
/// way whatever else holds of the surroundings.
pub proof fn unasked_facts_do_not_matter(
    s: EmbeddedStreamingDictation,
    answers: BeginAnswers,
    one: BeginFacts,
    other: BeginFacts,
    embedded_session_id: u32,
    origin: SessionStartOrigin,
    now: u64,
)
    requires
        asked_next(s, answers) is None,
        answers.agree(one),
        answers.agree(other),
    ensures
        begun(s, embedded_session_id, origin, one, now) == begun(
            s,
            embedded_session_id,
            origin,
            other,
            now,
        ),
{
}

/// A recording that is refused at once, or belongs to one that is worked on already, asks for
/// nothing but admission; a waiting session is looked for before an enrollment is used up, and
/// only a wake candidate takes a place in the lifecycle.
pub proof fn nothing_is_asked_in_vain(s: EmbeddedStreamingDictation, answers: BeginAnswers)
    ensures
        answers.admitted == Some(false) || (answers.admitted is Some && s.active()) ==> asked_next(
            s,
            answers,
        ) is None,
        asked_next(s, answers) == Some(BeginQuestion::CandidateKind) ==> !s.active()
            && answers.admitted == Some(true) && answers.continuation_waiting == Some(
            None::<SessionId>,
        ),
        asked_next(s, answers) == Some(BeginQuestion::Lifecycle) ==> !s.active()
            && answers.candidate_kind == Some(Some(BufferedSpeakerCandidateKind::Verification)),
{
}

/// Whether a hidden candidate is there to be taken over, and somebody asked for it.
pub open spec fn takeover_ready(
    s: EmbeddedStreamingDictation,
    promotion_requested: bool,
) -> bool {
    promotion_requested && (s.speaker_candidate matches Some(c) && c.kind
        == BufferedSpeakerCandidateKind::Verification)
}

/// A segment in quarantine is not reopened: neither its start packet nor its audio begins a
/// recording, and both leave the stream as it was.
pub proof fn a_quarantined_segment_stays_closed(
    s: EmbeddedStreamingDictation,
    segment: u32,
    origin: SessionStartOrigin,
    sequence: u16,
    bytes: usize,
    limits: StreamLimits,
)
    requires
        s.orphan_recovery_quarantine_session_id == Some(segment),
        !s.active(),
    ensures
        after_packet(
            s,
            PacketEvent::Started { session_id: segment, origin, admitted: true },
            limits,
        ) == (s, PacketDecision::Ignore),
        after_packet(
            s,
            PacketEvent::PcmChunk {
                session_id: segment,
                packet_sequence: sequence,
                pcm_bytes: bytes,
                admitted: true,
            },
            limits,
        ) == (s, PacketDecision::Ignore),
{
}

/// The stream after packets in order.
pub open spec fn after_packets(
    s: EmbeddedStreamingDictation,
    events: Seq<PacketEvent>,
    limits: StreamLimits,
) -> EmbeddedStreamingDictation
    decreases events.len(),
{
    if events.len() == 0 {
        s
    } else {
        after_packet(after_packets(s, events.drop_last(), limits), events.last(), limits).0
    }
}

/// A session is stopped by the host at most once: after a stop that was sent, whatever packets
/// follow, the session is gone or no further stop is due, however long its silence grows.
pub proof fn one_proactive_stop_per_session(
    s: EmbeddedStreamingDictation,
    events: Seq<PacketEvent>,
    limits: StreamLimits,
    silence_ms: u64,
    silence_threshold_ms: u64,
)
    requires
        s.session is Some,
    ensures
        after_packets(stop_tried(s, true), events, limits).session matches Some(session) ==> {
            &&& session.session_id == s.session->0.session_id
            &&& !(StreamingSession {
                proactive_stop_body_started: true,
                proactive_stop_silence_ms: silence_ms,
                ..session
            }).stop_due(silence_threshold_ms)
        },
    decreases events.len(),
{
    if events.len() > 0 {
        one_proactive_stop_per_session(
            s,
            events.drop_last(),
            limits,
            silence_ms,
            silence_threshold_ms,
        );
    }
}

/// A stop that could not be sent stays due.
pub proof fn an_unsent_stop_stays_due(s: EmbeddedStreamingDictation, silence_threshold_ms: u64)
    requires
        s.session is Some,
        s.session->0.stop_due(silence_threshold_ms),
    ensures
        stop_tried(s, false) == s,
{
}

/// A chunk finishes a recording only where its candidate was neither handed over nor released,
/// the recording was stopped before, and no packet is missing; only a finish ends it.
pub proof fn a_candidate_is_finished_last(
    s: EmbeddedStreamingDictation,
    promoted: bool,
    released: bool,
    complete: bool,
)
    ensures
        ({
            let second = next_work(s, CandidateWork::Promote, promoted, complete);
            let third = next_work(s, second, released, complete);
            let last = next_work(s, third, true, complete);
            let finishes = !promoted && !released && complete
                && s.pending_stop_expected_packet_count is Some;
            &&& second is Release <==> !promoted
            &&& third is Finish <==> finishes
            &&& last == (CandidateWork::Done { recording_done: finishes })
        }),
{
}

/// Audio without a start never opens a visible session; at most it becomes a hidden candidate,
/// and only once per segment.
pub proof fn orphaned_audio_never_opens_a_session(
    s: EmbeddedStreamingDictation,
    event: PacketEvent,
    limits: StreamLimits,
)
    requires
        !s.active(),
        event is PcmChunk,
    ensures
        after_packet(s, event, limits).1 is Ignore || after_packet(s, event, limits).1
            is RecoverOrphan,
        after_packet(s, event, limits).0.session is None,
        after_packet(s, event, limits).1 matches PacketDecision::RecoverOrphan { session_id }
            ==> after_packet(s, event, limits).0.orphan_recovery_quarantine_session_id == Some(
            session_id,
        ),
{
}

/// A recovery that is refused leaves its segment in quarantine.
pub proof fn a_refused_recovery_stays_in_quarantine(s: EmbeddedStreamingDictation)
    ensures
        cleared(s).orphan_recovery_quarantine_session_id == s.orphan_recovery_quarantine_session_id,
        !cleared(s).active(),
{
}

/// While new audio is not admitted, no packet feeds a session or a candidate, and one that was
/// open is dropped.
pub proof fn closed_gate_drops_everything(
    s: EmbeddedStreamingDictation,
    session_id: u32,
    sequence: u16,
    bytes: usize,
    limits: StreamLimits,
)
    ensures
        !after_packet(
            s,
            PacketEvent::PcmChunk {
                session_id,
                packet_sequence: sequence,
                pcm_bytes: bytes,
                admitted: false,
            },
            limits,
        ).0.active(),
{
}

/// A session that was just activated survives the end of the segment that woke it, and is bound
/// to the next segment by whichever of its packets comes first.
pub proof fn a_fresh_session_survives_its_wake_segment(
    s: EmbeddedStreamingDictation,
    old_segment: u32,
    new_segment: u32,
    now: u64,
    limits: StreamLimits,
)
    requires
        s.wf(),
        s.session is Some,
        s.activation_segment_race_guard is Some,
        s.activation_segment_race_guard->0.segment_id == old_segment,
        new_segment != old_segment,
        crate::endpoint::past(now, s.activation_segment_race_guard->0.activated_at)
            <= limits.activation_race_window_ms,
    ensures
        ({
            let stop = PacketEvent::Stopped {
                session_id: old_segment,
                expected_packet_count: 0,
                body_started: false,
                complete: true,
                now,
            };
            let (kept, decision) = after_packet(s, stop, limits);
            let audio = PacketEvent::PcmChunk {
                session_id: new_segment,
                packet_sequence: 0,
                pcm_bytes: 0,
                admitted: true,
            };
            &&& decision == (PacketDecision::KeepForNextSegment {
                coordinator: s.session->0.session_id,
            })
            &&& kept.session == s.session
            &&& after_packet(kept, audio, limits).0.embedded_session_id == Some(new_segment)
            &&& after_packet(kept, audio, limits).0.session == s.session
        }),
{
}

/// A stop packet takes nothing away: what a recording feeds stays as it was.  Unless only the wake
/// segment of a fresh session ended, the recording is finished where no packet is missing, and
/// waits for the rest otherwise; either way it remembers how many packets it expects.
pub proof fn a_stop_packet_drops_nothing(
    s: EmbeddedStreamingDictation,
    segment: u32,
    expected: u16,
    body_started: bool,
    complete: bool,
    now: u64,
    limits: StreamLimits,
)
    requires
        s.session is Some || s.speaker_candidate is Some,
    ensures
        ({
            let (t, decision) = after_packet(
                s,
                PacketEvent::Stopped {
                    session_id: segment,
                    expected_packet_count: expected,
                    body_started,
                    complete,
                    now,
                },
                limits,
            );
            let fresh = s.session is Some && !body_started && s.activation_segment_race_guard is Some
                && s.activation_segment_race_guard->0.segment_id == segment && now
                <= s.activation_segment_race_guard->0.activated_at
                + limits.activation_race_window_ms;
            &&& t.session == s.session
            &&& t.speaker_candidate == s.speaker_candidate
            &&& t.orphan_recovery_quarantine_session_id == s.orphan_recovery_quarantine_session_id
            &&& fresh <==> decision is KeepForNextSegment
            &&& fresh ==> t.embedded_session_id is None && t.pending_stop_expected_packet_count
                is None && t.activation_segment_race_guard == s.activation_segment_race_guard
                && decision->coordinator == s.session->0.session_id
            &&& !fresh ==> t.pending_stop_expected_packet_count == Some(expected)
                && t.embedded_session_id == s.embedded_session_id
            &&& !fresh && complete ==> decision == (PacketDecision::FinishComplete {
                session_id: segment,
                expected_packet_count: expected,
            }) && t.pending_stop_force_after is None
            &&& !fresh && !complete ==> decision == PacketDecision::AwaitTail
            &&& !fresh && !complete && s.keep_listening_after_pipeline_errors && now
                <= u64::MAX - 1_200 ==> t.pending_stop_force_after == Some((now + 1_200) as u64)
            &&& !fresh && !complete && !s.keep_listening_after_pipeline_errors
                ==> t.pending_stop_force_after == s.pending_stop_force_after
        }),
{
}

/// A stop, a cancel or a failure without anything to feed only empties the stream.
pub proof fn an_idle_stream_has_nothing_to_stop(
    s: EmbeddedStreamingDictation,
    segment: u32,
    expected: u16,
    body_started: bool,
    complete: bool,
    now: u64,
    limits: StreamLimits,
)
    requires
        s.session is None,
        s.speaker_candidate is None,
    ensures
        ({
            let stop = after_packet(
                s,
                PacketEvent::Stopped {
                    session_id: segment,
                    expected_packet_count: expected,
                    body_started,
                    complete,
                    now,
                },
                limits,
            );
            let cancel = after_packet(s, PacketEvent::Cancelled { session_id: segment }, limits);
            &&& stop.1 == PacketDecision::ResetDone
            &&& cancel.1 == PacketDecision::NothingToCancel
            &&& stop.0 == cancel.0
            &&& stop.0.session is None && stop.0.speaker_candidate is None
                && stop.0.embedded_session_id is None && stop.0.pending_stop_expected_packet_count
                is None && stop.0.pending_stop_force_after is None
                && stop.0.activation_segment_race_guard is None
            &&& stop.0.orphan_recovery_quarantine_session_id
                == s.orphan_recovery_quarantine_session_id
            &&& stop.0.keep_listening_after_pipeline_errors
                == s.keep_listening_after_pipeline_errors
        }),
{
}

/// A cancel or a failure of the device empties the stream.  A candidate that was cancelled is
/// discarded under what it was for, and a session is dropped quietly while the listener keeps
/// listening and is aborted with a report otherwise.
pub proof fn a_cancel_or_failure_ends_the_recording(
    s: EmbeddedStreamingDictation,
    segment: u32,
    limits: StreamLimits,
)
    requires
        s.wf(),
    ensures
        ({
            let (cancelled_to, cancelled_as) = after_packet(
                s,
                PacketEvent::Cancelled { session_id: segment },
                limits,
            );
            let (failed_to, failed_as) = after_packet(
                s,
                PacketEvent::Failed { session_id: segment },
                limits,
            );
            let keeps = s.keep_listening_after_pipeline_errors;
            &&& cancelled_to.session is None && cancelled_to.speaker_candidate is None
            &&& cancelled_to.embedded_session_id is None
                && cancelled_to.pending_stop_expected_packet_count is None
            &&& failed_to == cancelled_to
            &&& failed_to.orphan_recovery_quarantine_session_id
                == s.orphan_recovery_quarantine_session_id
            &&& s.session is Some ==> cancelled_as == (if keeps {
                PacketDecision::DiscardCancelled
            } else {
                PacketDecision::AbortCancelled
            })
            &&& s.speaker_candidate is Some ==> cancelled_as == (PacketDecision::DiscardCandidate {
                enrollment: s.speaker_candidate->0.kind
                    == BufferedSpeakerCandidateKind::Enrollment,
            })
            &&& failed_as == (if keeps {
                PacketDecision::DiscardFailed
            } else {
                PacketDecision::AbortFailed
            })
        }),
{
}

/// A start that is admitted is taken up, unless its segment is in quarantine; a start of another
/// segment lifts the quarantine.  A start changes nothing of what is being recorded.
pub proof fn an_admitted_start_is_taken_up(
    s: EmbeddedStreamingDictation,
    segment: u32,
    origin: SessionStartOrigin,
    admitted: bool,
    limits: StreamLimits,
)
    ensures
        ({
            let (t, decision) = after_packet(
                s,
                PacketEvent::Started { session_id: segment, origin, admitted },
                limits,
            );
            let held = s.orphan_recovery_quarantine_session_id == Some(segment);
            &&& decision == (PacketDecision::Begin { session_id: segment, origin }) <==> admitted
                && !held
            &&& decision is Begin || decision == PacketDecision::Ignore
            &&& t.session == s.session && t.speaker_candidate == s.speaker_candidate
            &&& t.embedded_session_id == s.embedded_session_id
            &&& t.pending_stop_expected_packet_count == s.pending_stop_expected_packet_count
            &&& t.activation_segment_race_guard == s.activation_segment_race_guard
            &&& held ==> t == s
            &&& !held ==> t.orphan_recovery_quarantine_session_id is None
        }),
{
}

/// Admitted audio is never lost to a recording that feeds something: a session gets every chunk and
/// stays as it is, and a candidate grows by exactly the chunk, unless it was given up or would
/// outgrow its buffer.
pub proof fn admitted_audio_reaches_what_is_recorded(
    s: EmbeddedStreamingDictation,
    segment: u32,
    sequence: u16,
    bytes: usize,
    limits: StreamLimits,
)
    requires
        s.wf(),
        s.session is Some || s.speaker_candidate is Some,
    ensures
        ({
            let (t, decision) = after_packet(
                s,
                PacketEvent::PcmChunk {
                    session_id: segment,
                    packet_sequence: sequence,
                    pcm_bytes: bytes,
                    admitted: true,
                },
                limits,
            );
            &&& s.session is Some ==> {
                &&& decision is FeedSession
                &&& t.session == s.session
                &&& t.pending_stop_expected_packet_count == s.pending_stop_expected_packet_count
            }
            &&& s.speaker_candidate matches Some(c) ==> {
                let given_up = c.kind == BufferedSpeakerCandidateKind::Rejected;
                let too_large = c.pcm_bytes + bytes > limits.max_candidate_bytes;
                &&& given_up ==> decision == PacketDecision::Ignore && t == s
                &&& !given_up && too_large ==> decision == PacketDecision::CandidateTooLarge && t
                    == s
                &&& !given_up && !too_large ==> {
                    &&& decision == (PacketDecision::WorkOnCandidate {
                        enrollment: c.kind == BufferedSpeakerCandidateKind::Enrollment,
                    })
                    &&& t.speaker_candidate is Some
                    &&& t.speaker_candidate->0.pcm_bytes == c.pcm_bytes + bytes
                    &&& t.speaker_candidate->0.kind == c.kind
                    &&& t.session is None
                    &&& t.embedded_session_id == s.embedded_session_id
                }
            }
        }),
{
}

/// A session follows the device to another segment exactly while it is guarded against the end of
/// its wake segment; after that the guard is gone.
pub proof fn a_guarded_session_follows_the_device(
    s: EmbeddedStreamingDictation,
    segment: u32,
    sequence: u16,
    bytes: usize,
    limits: StreamLimits,
)
    requires
        s.wf(),
        s.session is Some,
    ensures
        ({
            let (t, decision) = after_packet(
                s,
                PacketEvent::PcmChunk {
                    session_id: segment,
                    packet_sequence: sequence,
                    pcm_bytes: bytes,
                    admitted: true,
                },
                limits,
            );
            let moves = s.activation_segment_race_guard is Some
                && s.activation_segment_race_guard->0.segment_id != segment;
            &&& moves ==> decision == (PacketDecision::FeedSession {
                rebound: Some(s.session->0.session_id),
            }) && t.embedded_session_id == Some(segment) && t.activation_segment_race_guard is None
            &&& !moves ==> decision == (PacketDecision::FeedSession { rebound: None }) && t == s
        }),
{
}

/// Audio without a recording is taken up as a hidden candidate from the fourth packet of its
/// segment on, unless that segment is in quarantine or another one is bound; taking it up puts the
/// segment in quarantine.
pub proof fn lost_starts_are_recovered(
    s: EmbeddedStreamingDictation,
    segment: u32,
    sequence: u16,
    bytes: usize,
    limits: StreamLimits,
)
    requires
        s.session is None,
        s.speaker_candidate is None,
    ensures
        ({
            let (t, decision) = after_packet(
                s,
                PacketEvent::PcmChunk {
                    session_id: segment,
                    packet_sequence: sequence,
                    pcm_bytes: bytes,
                    admitted: true,
                },
                limits,
            );
            let recovers = sequence >= 3 && s.embedded_session_id is None
                && s.orphan_recovery_quarantine_session_id != Some(segment);
            &&& decision == (PacketDecision::RecoverOrphan { session_id: segment }) <==> recovers
            &&& !recovers ==> decision == PacketDecision::Ignore && t == s
            &&& recovers ==> t.orphan_recovery_quarantine_session_id == Some(segment)
                && t.embedded_session_id is None && t.session is None && t.speaker_candidate is None
        }),
{
}

/// Audio that is not admitted drops what was recorded, and leaves a stream without a recording
/// alone.
pub proof fn refused_audio_drops_the_recording(
    s: EmbeddedStreamingDictation,
    segment: u32,
    sequence: u16,
    bytes: usize,
    limits: StreamLimits,
)
    ensures
        ({
            let (t, decision) = after_packet(
                s,
                PacketEvent::PcmChunk {
                    session_id: segment,
                    packet_sequence: sequence,
                    pcm_bytes: bytes,
                    admitted: false,
                },
                limits,
            );
            let active = s.session is Some || s.speaker_candidate is Some;
            &&& decision == PacketDecision::DropInFlight <==> active
            &&& !active ==> decision == PacketDecision::Ignore && t == s
            &&& active ==> t.session is None && t.speaker_candidate is None && t.embedded_session_id
                is None && t.pending_stop_expected_packet_count is None
        }),
{
}

/// A packet that means nothing changes nothing, and no packet changes whether the listener keeps
/// listening.
pub proof fn the_mode_of_the_listener_stays(
    s: EmbeddedStreamingDictation,
    event: PacketEvent,
    limits: StreamLimits,
)
    ensures
        after_packet(s, PacketEvent::Ignored, limits) == (s, PacketDecision::Ignore),
        after_packet(s, event, limits).0.keep_listening_after_pipeline_errors
            == s.keep_listening_after_pipeline_errors,
{
}

/// How a recording that is admitted begins while nothing is recorded: as the body of a session that
/// waits for it, else as a session of a person's own, and else as a buffered candidate, which a
/// wake needs the lifecycle for.
pub proof fn an_admitted_recording_begins(
    s: EmbeddedStreamingDictation,
    segment: u32,
    origin: SessionStartOrigin,
    facts: BeginFacts,
    now: u64,
)
    requires
        s.session is None,
        s.speaker_candidate is None,
        facts.admitted,
    ensures
        ({
            let (t, r) = begun(s, segment, origin, facts, now);
            let wake = facts.candidate_kind == Some(BufferedSpeakerCandidateKind::Verification);
            &&& facts.continuation_waiting is Some ==> t == s && r == Ok::<
                BeginDecision,
                StreamError,
            >(BeginDecision::AttachContinuation { session_id: facts.continuation_waiting->0 })
            &&& facts.continuation_waiting is None ==> {
                &&& t.embedded_session_id == Some(segment)
                &&& t.session is None
                &&& r == Ok::<BeginDecision, StreamError>(BeginDecision::OpenSession)
                    <==> facts.candidate_kind is None
                &&& r == Err::<BeginDecision, StreamError>(
                    StreamError::CandidateRefused { embedded_session_id: segment },
                ) <==> wake && !facts.lifecycle_admits
                &&& t.speaker_candidate is Some <==> facts.candidate_kind is Some && (!wake
                    || facts.lifecycle_admits)
                &&& t.speaker_candidate matches Some(c) ==> c.kind == facts.candidate_kind->0
                    && c.pcm_bytes == 0 && c.started_at == now && r == Ok::<
                    BeginDecision,
                    StreamError,
                >(BeginDecision::Buffering { load_detector: wake })
            }
        }),
{
}

/// A recording that begins while another one is worked on is the same one, the next segment of a
/// fresh session that a voice opened, or a mismatch that is reported; it replaces nothing.
pub proof fn a_running_recording_is_not_replaced(
    s: EmbeddedStreamingDictation,
    segment: u32,
    origin: SessionStartOrigin,
    facts: BeginFacts,
    now: u64,
)
    requires
        s.session is Some || s.speaker_candidate is Some || !facts.admitted,
    ensures
        ({
            let (t, r) = begun(s, segment, origin, facts, now);
            let moves = facts.admitted && s.session is Some && origin
                == SessionStartOrigin::VoiceActivation && s.activation_segment_race_guard is Some
                && s.activation_segment_race_guard->0.segment_id != segment;
            &&& t.session == s.session && t.speaker_candidate == s.speaker_candidate
            &&& !facts.admitted <==> r == Ok::<BeginDecision, StreamError>(BeginDecision::Denied)
            &&& moves ==> r == Ok::<BeginDecision, StreamError>(
                BeginDecision::Rebound { session_id: s.session->0.session_id },
            ) && t.embedded_session_id == Some(segment) && t.activation_segment_race_guard is None
            &&& !moves ==> t == s
            &&& facts.admitted && !moves ==> (r is Err <==> s.embedded_session_id != Some(segment))
            &&& facts.admitted && !moves && r is Ok ==> r == Ok::<BeginDecision, StreamError>(
                BeginDecision::AlreadyBound,
            )
            &&& r is Err ==> r == Err::<BeginDecision, StreamError>(
                StreamError::SegmentMismatch { current: s.embedded_session_id, incoming: segment },
            )
        }),
{
}

/// A person's wish to have the hidden candidate counts only where a wake candidate is there.
pub proof fn only_a_wake_candidate_is_taken_over(s: EmbeddedStreamingDictation, requested: bool)
    ensures
        takeover_ready(s, requested) <==> requested && s.speaker_candidate is Some
            && s.speaker_candidate->0.kind == BufferedSpeakerCandidateKind::Verification,
{
}

/// The host stops a session once its body was heard and has been silent long enough, and never
/// before.
pub proof fn a_silent_body_is_stopped(session: StreamingSession, threshold_ms: u64)
    ensures
        !session.proactive_stop_body_started ==> !session.stop_due(threshold_ms),
        session.proactive_stop_silence_ms < threshold_ms ==> !session.stop_due(threshold_ms),
        session.proactive_stop_body_started && session.proactive_stop_silence_ms >= threshold_ms
            && !session.proactive_stop_dispatched ==> session.stop_due(threshold_ms),
{
}

/// The words of each report: the mismatches name both segments, and the refusals name the segment
/// and the session.
pub proof fn reports_name_what_they_are_about(
    current: Option<u32>,
    incoming: u32,
    segment: u32,
    session_id: SessionId,
)
    ensures
        (StreamError::SegmentMismatch { current, incoming }).words()
            == "嵌入式音频流式 session 不一致: "@ + "current="@ + optional_number(current)
            + ", incoming="@ + decimal_digits(incoming as nat),
        (StreamError::StopMismatch { current, incoming }).words()
            == "嵌入式音频停止包 session 不一致: "@ + "current="@ + optional_number(current)
            + ", incoming="@ + decimal_digits(incoming as nat),
        (StreamError::TakeoverMismatch { current, incoming }).words()
            == "物理录音接管 session 不一致: "@ + "current="@ + optional_number(current)
            + ", incoming="@ + decimal_digits(incoming as nat),
        StreamError::NoAudio.words() == "嵌入式音频会话没有可识别的 PCM 数据"@,
        StreamError::Cancelled.words() == "嵌入式音频会话已取消"@,
{
}

/// A stop that ends a recording lifts the guard of its own segment and of no other, remembers how
/// many packets are due, and is forced after a while only where listening goes on and packets are
/// still missing.
pub proof fn a_stop_remembers_what_is_due(
    s: EmbeddedStreamingDictation,
    session_id: u32,
    expected_packet_count: u16,
    body_started: bool,
    complete: bool,
    now: u64,
    limits: StreamLimits,
)
    requires
        s.session is Some || s.speaker_candidate is Some,
    ensures
        ({
            let (after, decision) = after_packet(
                s,
                PacketEvent::Stopped {
                    session_id,
                    expected_packet_count,
                    body_started,
                    complete,
                    now,
                },
                limits,
            );
            let guard = s.activation_segment_race_guard;
            let own = s.session is Some && guard is Some && guard->0.segment_id == session_id;
            let goes_on = decision is KeepForNextSegment;
            &&& goes_on <==> own && !body_started && (now <= guard->0.activated_at || now
                - guard->0.activated_at <= limits.activation_race_window_ms)
            &&& goes_on ==> after.pending_stop_expected_packet_count is None
                && after.embedded_session_id is None && after.activation_segment_race_guard
                == guard && after.session == s.session
            &&& !goes_on ==> after.pending_stop_expected_packet_count == Some(
                expected_packet_count,
            ) && after.embedded_session_id == s.embedded_session_id && after.session == s.session
                && after.speaker_candidate == s.speaker_candidate
            &&& !goes_on && own ==> after.activation_segment_race_guard is None
            &&& !goes_on && !own ==> after.activation_segment_race_guard == guard
            &&& !goes_on && complete ==> after.pending_stop_force_after is None && decision == (
            PacketDecision::FinishComplete { session_id, expected_packet_count })
            &&& !goes_on && !complete ==> decision == PacketDecision::AwaitTail
            &&& !goes_on && !complete && !s.keep_listening_after_pipeline_errors
                ==> after.pending_stop_force_after == s.pending_stop_force_after
            &&& !goes_on && !complete && s.keep_listening_after_pipeline_errors && now <= u64::MAX
                - 1_200 ==> after.pending_stop_force_after == Some((now + 1_200) as u64)
        }),
{
}

/// What is asked before a recording begins, and when: admission first, then whether a wake waits for
/// its body, then what the recording is for, and the lifecycle only for a wake candidate.
pub proof fn each_question_has_its_turn(s: EmbeddedStreamingDictation, answers: BeginAnswers)
    ensures
        ({
            let question = asked_next(s, answers);
            let free = answers.admitted == Some(true) && s.session is None && s.speaker_candidate
                is None;
            &&& question == Some(BeginQuestion::Admission) <==> answers.admitted is None
            &&& question == Some(BeginQuestion::Continuation) <==> free
                && answers.continuation_waiting is None
            &&& question == Some(BeginQuestion::CandidateKind) <==> free
                && answers.continuation_waiting == Some(None::<SessionId>)
                && answers.candidate_kind is None
            &&& question == Some(BeginQuestion::Lifecycle) <==> free
                && answers.continuation_waiting == Some(None::<SessionId>)
                && answers.candidate_kind == Some(
                Some(BufferedSpeakerCandidateKind::Verification),
            ) && answers.lifecycle_admits is None
        }),
{
}

/// A recording that begins while another runs is taken for the body of a wake exactly where a guarded
/// session waits for a new segment that a voice opened; otherwise it is the running one or an error.
pub proof fn a_running_recording_moves_only_behind_a_wake(
    s: EmbeddedStreamingDictation,
    segment: u32,
    origin: SessionStartOrigin,
    facts: BeginFacts,
    now: u64,
)
    requires
        facts.admitted,
        s.session is Some || s.speaker_candidate is Some,
    ensures
        ({
            let (after, decision) = begun(s, segment, origin, facts, now);
            let moves = s.session is Some && s.activation_segment_race_guard is Some
                && s.activation_segment_race_guard->0.segment_id != segment && origin
                == SessionStartOrigin::VoiceActivation;
            &&& moves ==> decision == Ok::<BeginDecision, StreamError>(
                BeginDecision::Rebound { session_id: s.session->0.session_id },
            ) && after.embedded_session_id == Some(segment)
                && after.activation_segment_race_guard is None && after.session == s.session
            &&& !moves ==> after == s
            &&& !moves && s.embedded_session_id == Some(segment) ==> decision == Ok::<
                BeginDecision,
                StreamError,
            >(BeginDecision::AlreadyBound)
            &&& !moves && s.embedded_session_id != Some(segment) ==> decision == Err::<
                BeginDecision,
                StreamError,
            >(StreamError::SegmentMismatch { current: s.embedded_session_id, incoming: segment })
        }),
{
}

} // verus!
