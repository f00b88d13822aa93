//! Telling the device that the user is still speaking.

use vstd::prelude::*;
use crate::session::{SessionId, SessionPhase, SessionState};

verus! {

/// A refresh that waited this long is not sent any more.
pub const EMBEDDED_ASR_SPEECH_ACTIVITY_MAX_QUEUE_AGE_MS: u64 = 600;

/// Holds the newest refresh while one is being sent.
#[derive(Debug)]
pub struct LatestSpeechActivityQueue<T> {
    /// Somebody is draining the queue.
    pub in_flight: bool,
    pub pending: Option<T>,
}

impl<T> LatestSpeechActivityQueue<T> {
    /// What waits is being drained.
    pub open spec fn wf(self) -> bool {
        self.pending is Some ==> self.in_flight
    }

    /// The queue with a newer refresh.
    pub open spec fn with(self, job: T) -> LatestSpeechActivityQueue<T> {
        LatestSpeechActivityQueue { in_flight: true, pending: Some(job) }
    }

    /// The queue after its drainer took what waits, or found nothing and went away.
    pub open spec fn drained(self) -> LatestSpeechActivityQueue<T> {
        LatestSpeechActivityQueue {
            in_flight: self.in_flight && self.pending is Some,
            pending: None,
        }
    }

    /// Keeps the newest refresh.  `true` makes the caller the one who drains the queue.
    pub fn enqueue(&mut self, job: T) -> (r: bool)
        ensures
            *final(self) == old(self).with(job),
            final(self).wf(),
            r == !old(self).in_flight,
    {
        self.pending = Some(job);
        if self.in_flight {
            false
        } else {
            self.in_flight = true;
            true
        }
    }

    /// Takes what waits.  Finding nothing ends the draining.
    pub fn take_pending_or_finish(&mut self) -> (r: Option<T>)
        ensures
            r == old(self).pending,
            *final(self) == old(self).drained(),
            final(self).wf(),
    {
        match self.pending.take() {
            Some(job) => Some(job),
            None => {
                self.in_flight = false;
                None
            },
        }
    }
}

impl<T> Default for LatestSpeechActivityQueue<T> {
    fn default() -> (r: LatestSpeechActivityQueue<T>)
        ensures
            !r.in_flight,
            r.pending is None,
            r.wf(),
    {
        LatestSpeechActivityQueue { in_flight: false, pending: None }
    }
}

/// Of two refreshes that wait for the same drainer the newer one is sent, and only that; after
/// it the drainer finds nothing and leaves the queue to the next.
pub proof fn the_newest_refresh_is_sent<T>(
    queue: LatestSpeechActivityQueue<T>,
    older: T,
    newer: T,
)
    ensures
        ({
            let filled = queue.with(older).with(newer);
            &&& filled.pending == Some(newer)
            &&& filled.drained().pending is None
            &&& filled.drained().in_flight
            &&& !filled.drained().drained().in_flight
        }),
{
}

/// A session that hears the user.
pub open spec fn hears(state: SessionState, session_id: SessionId) -> bool {
    state.session_id == session_id && (state.phase == SessionPhase::Starting || state.phase
        == SessionPhase::Listening)
}

fn is_hearing(state: &SessionState, session_id: SessionId) -> (r: bool)
    ensures
        r == hears(*state, session_id),
{
    state.session_id == session_id && (state.phase == SessionPhase::Starting || state.phase
        == SessionPhase::Listening)
}

/// A refresh that waits.
#[derive(Clone, Copy, Debug, PartialEq, Eq, Structural)]
pub struct EmbeddedAsrSpeechActivityJob {
    pub session_id: SessionId,
    /// Another refresh was being sent when this one was asked for.
    pub coalesced: bool,
    pub queued_at: u64,
}

/// What the device link allows.
#[derive(Clone, Copy, Debug, PartialEq, Eq, Structural)]
pub struct RefreshContext {
    /// The device may be written to.
    pub io_allowed: bool,
    /// The device takes commands of this program.
    pub control_active: bool,
    /// The user was shown that the recording stopped.
    pub stop_latched: bool,
}

impl RefreshContext {
    /// Whether a recording is open as far as the link is concerned.
    pub open spec fn recording(self) -> bool {
        self.control_active && !self.stop_latched
    }
}

/// Asks for a refresh after recognised speech.  `true` makes the caller the one who drains the
/// queue.
pub fn note_embedded_asr_speech_activity(
    queue: &mut LatestSpeechActivityQueue<EmbeddedAsrSpeechActivityJob>,
    context: RefreshContext,
    state: &SessionState,
    session_id: SessionId,
    now: u64,
) -> (r: bool)
    ensures
        ({
            let wanted = context.io_allowed && context.recording() && hears(*state, session_id);
            &&& r == (wanted && !old(queue).in_flight)
            &&& *final(queue) == (if wanted {
                old(queue).with(
                    EmbeddedAsrSpeechActivityJob {
                        session_id,
                        coalesced: old(queue).in_flight,
                        queued_at: now,
                    },
                )
            } else {
                *old(queue)
            })
        }),
{
    if !context.io_allowed || !context.control_active || context.stop_latched || !is_hearing(
        state,
        session_id,
    ) {
        return false;
    }
    let coalesced: bool = queue.in_flight;
    queue.enqueue(EmbeddedAsrSpeechActivityJob { session_id, coalesced, queued_at: now })
}

/// What the drainer does with a refresh.
#[derive(Clone, Copy, Debug, PartialEq, Eq, Structural)]
pub enum RefreshDecision {
    /// It waited too long.
    DiscardStale,
    /// Its recording is over.
    Skip,
    Send,
}

/// Decides what the drainer does with a refresh.
pub fn refresh_decision(
    job: EmbeddedAsrSpeechActivityJob,
    context: RefreshContext,
    state: &SessionState,
    now: u64,
) -> (r: RefreshDecision)
    ensures
        r == (if crate::endpoint::past(now, job.queued_at) >= 600 {
            RefreshDecision::DiscardStale
        } else if hears(*state, job.session_id) && !state.cancelled && context.recording() {
            RefreshDecision::Send
        } else {
            RefreshDecision::Skip
        }),
{
    if now.saturating_sub(job.queued_at) >= EMBEDDED_ASR_SPEECH_ACTIVITY_MAX_QUEUE_AGE_MS {
        return RefreshDecision::DiscardStale;
    }
    if is_hearing(state, job.session_id) && !state.cancelled && context.control_active
        && !context.stop_latched {
        RefreshDecision::Send
    } else {
        RefreshDecision::Skip
    }
}

/// A refresh that is added is the one that is sent next, and one that is sent leaves the queue; the
/// writer works as long as something waits.
pub proof fn a_refresh_is_sent_and_gone<T>(queue: LatestSpeechActivityQueue<T>, job: T)
    ensures
        queue.with(job).pending == Some(job),
        queue.with(job).in_flight,
        queue.drained().pending is None,
        queue.drained().in_flight <==> queue.in_flight && queue.pending is Some,
        queue.with(job).drained().in_flight,
        queue.wf() <==> (queue.in_flight || queue.pending is None),
{
}

/// Speech is heard exactly of the session that is being started or listened to.
pub proof fn only_an_open_session_hears(state: SessionState, session_id: SessionId)
    ensures
        hears(state, session_id) ==> state.session_id == session_id,
        hears(state, session_id) ==> state.phase == SessionPhase::Starting || state.phase
            == SessionPhase::Listening,
        state.session_id == session_id && state.phase == SessionPhase::Starting ==> hears(
            state,
            session_id,
        ),
        state.session_id == session_id && state.phase == SessionPhase::Listening ==> hears(
            state,
            session_id,
        ),
{
}

/// A recording goes on exactly while commands reach the device and no stop is held.
pub proof fn a_held_stop_ends_the_refreshing(context: RefreshContext)
    ensures
        context.recording() ==> context.control_active && !context.stop_latched,
        context.control_active && !context.stop_latched ==> context.recording(),
{
}

} // verus!
