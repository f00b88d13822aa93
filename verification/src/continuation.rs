//! A wake phrase at the very end of a recording, and the recording that continues it.

use vstd::prelude::*;
use crate::endpoint::capped_sum;
use crate::session::{SessionId, SessionPhase, SessionState};

verus! {

/// How long an accepted wake phrase waits for the recording that continues it.
pub const EMBEDDED_TERMINAL_WAKE_CONTINUATION_TTL_MS: u64 = 6_000;

/// An accepted wake phrase that waits for the recording that continues it.  `payload` is what
/// was recorded so far.
#[derive(Debug)]
pub struct TerminalWakeContinuation<T> {
    /// The session that the continuation was promised to.
    pub session_id: Option<SessionId>,
    pub wake_phrase: String,
    pub expires_at: u64,
    pub payload: T,
}

impl<T> TerminalWakeContinuation<T> {
    /// Whether the continuation still waits at `now`.
    pub open spec fn live(self, now: u64) -> bool {
        self.expires_at > now
    }
}

/// Whether something waits at `now`.
pub open spec fn waits<T>(slot: Option<TerminalWakeContinuation<T>>, now: u64) -> bool {
    slot is Some && slot->0.live(now)
}

/// A slot after a phrase was let wait, and whether it was.
pub open spec fn staged<T>(
    slot: Option<TerminalWakeContinuation<T>>,
    wake_phrase: String,
    payload: T,
    now: u64,
) -> (Option<TerminalWakeContinuation<T>>, bool) {
    if waits(slot, now) {
        (slot, false)
    } else {
        (
            Some(
                TerminalWakeContinuation {
                    session_id: None,
                    wake_phrase,
                    expires_at: capped_sum(now, EMBEDDED_TERMINAL_WAKE_CONTINUATION_TTL_MS) as u64,
                    payload,
                },
            ),
            true,
        )
    }
}

/// A slot after its content was promised to a session, and the phrase that goes with it.
pub open spec fn bound<T>(
    slot: Option<TerminalWakeContinuation<T>>,
    session_id: SessionId,
    now: u64,
) -> (Option<TerminalWakeContinuation<T>>, Option<String>) {
    if waits(slot, now) && slot->0.session_id is None {
        (
            Some(TerminalWakeContinuation { session_id: Some(session_id), ..slot->0 }),
            Some(slot->0.wake_phrase),
        )
    } else {
        (None, None)
    }
}

/// What a session finds in a slot; the slot is empty afterwards.
pub open spec fn taken<T>(
    slot: Option<TerminalWakeContinuation<T>>,
    session_id: SessionId,
    now: u64,
) -> ContinuationTake<T> {
    match slot {
        None => ContinuationTake::Absent,
        Some(continuation) => if continuation.live(now) && continuation.session_id == Some(
            session_id,
        ) {
            ContinuationTake::Taken(continuation)
        } else {
            ContinuationTake::Dropped
        },
    }
}

/// Lets an accepted wake phrase wait for its continuation.  What already waits is not replaced.
pub fn stage_terminal_wake_continuation_with_body_at<T>(
    slot: &mut Option<TerminalWakeContinuation<T>>,
    wake_phrase: String,
    payload: T,
    now: u64,
) -> (r: bool)
    ensures
        (*final(slot), r) == staged(*old(slot), wake_phrase, payload, now),
{
    let waiting: bool = match slot {
        Some(continuation) => continuation.expires_at > now,
        None => false,
    };
    if waiting {
        return false;
    }
    *slot = Some(
        TerminalWakeContinuation {
            session_id: None,
            wake_phrase,
            expires_at: now.saturating_add(EMBEDDED_TERMINAL_WAKE_CONTINUATION_TTL_MS),
            payload,
        },
    );
    true
}

/// Promises the continuation to a session, and hands out the wake phrase that the session will
/// cut off.  What has expired or is promised already is dropped.
pub fn bind_terminal_wake_continuation_session_at<T>(
    slot: &mut Option<TerminalWakeContinuation<T>>,
    session_id: SessionId,
    now: u64,
) -> (r: Option<String>)
    ensures
        (*final(slot), r) == bound(*old(slot), session_id, now),
{
    match slot.take() {
        None => None,
        Some(continuation) => {
            if continuation.expires_at <= now || continuation.session_id.is_some() {
                return None;
            }
            let phrase: String = continuation.wake_phrase.clone();
            *slot = Some(
                TerminalWakeContinuation { session_id: Some(session_id), ..continuation },
            );
            Some(phrase)
        },
    }
}

/// What waits for audio, and whether the guard of the wake phrase is to be lifted.
#[derive(Clone, Copy, Debug, PartialEq, Eq, Structural)]
pub struct ContinuationWait {
    pub session_id: Option<SessionId>,
    pub lift_guard: bool,
}

/// Finds the session that waits for the audio of its continuation: it was promised one, and is
/// still starting.  What has expired is dropped, and its guard lifted.
pub fn terminal_wake_continuation_waiting_for_audio_at<T>(
    slot: &mut Option<TerminalWakeContinuation<T>>,
    state: &SessionState,
    now: u64,
) -> (r: ContinuationWait)
    ensures
        r.lift_guard == (*old(slot) is Some && !waits(*old(slot), now)),
        *final(slot) == (if waits(*old(slot), now) {
            *old(slot)
        } else {
            None
        }),
        r.session_id == (if waits(*old(slot), now) && state.phase == SessionPhase::Starting && old(
            slot,
        )->0.session_id == Some(state.session_id) {
            Some(state.session_id)
        } else {
            None
        }),
{
    let promised: Option<SessionId> = match slot {
        None => {
            return ContinuationWait { session_id: None, lift_guard: false };
        },
        Some(continuation) => if continuation.expires_at <= now {
            *slot = None;
            return ContinuationWait { session_id: None, lift_guard: true };
        } else {
            continuation.session_id
        },
    };
    let waiting: bool = match promised {
        Some(id) => state.phase == SessionPhase::Starting && state.session_id == id,
        None => false,
    };
    ContinuationWait {
        session_id: if waiting {
            Some(state.session_id)
        } else {
            None
        },
        lift_guard: false,
    }
}

/// What a session finds when its audio arrives.
#[derive(Debug)]
pub enum ContinuationTake<T> {
    Absent,
    Taken(TerminalWakeContinuation<T>),
    /// What was there has expired or belongs to another session; its guard is to be lifted.
    Dropped,
}

/// Takes the continuation that a session was promised.  Whatever was there is gone afterwards.
pub fn take_terminal_wake_continuation_at<T>(
    slot: &mut Option<TerminalWakeContinuation<T>>,
    session_id: SessionId,
    now: u64,
) -> (r: ContinuationTake<T>)
    ensures
        *final(slot) is None,
        r == taken(*old(slot), session_id, now),
{
    match slot.take() {
        None => ContinuationTake::Absent,
        Some(continuation) => {
            let own: bool = match continuation.session_id {
                Some(id) => id == session_id,
                None => false,
            };
            if continuation.expires_at > now && own {
                ContinuationTake::Taken(continuation)
            } else {
                ContinuationTake::Dropped
            }
        },
    }
}

/// Whether the continuation was promised to a session.
pub open spec fn promised_to<T>(
    slot: Option<TerminalWakeContinuation<T>>,
    session_id: SessionId,
) -> bool {
    slot is Some && slot->0.session_id == Some(session_id)
}

fn is_promised_to<T>(slot: &Option<TerminalWakeContinuation<T>>, session_id: SessionId) -> (r: bool)
    ensures
        r == promised_to(*slot, session_id),
{
    match slot {
        Some(continuation) => match continuation.session_id {
            Some(id) => id == session_id,
            None => false,
        },
        None => false,
    }
}

/// Drops the continuation of a session.  `true` asks for the guard to be lifted and the hidden
/// candidate to be closed.
pub fn clear_terminal_wake_continuation<T>(
    slot: &mut Option<TerminalWakeContinuation<T>>,
    session_id: SessionId,
) -> (r: bool)
    ensures
        r == promised_to(*old(slot), session_id),
        *final(slot) == (if r {
            None
        } else {
            *old(slot)
        }),
{
    if is_promised_to(slot, session_id) {
        *slot = None;
        true
    } else {
        false
    }
}

/// Drops whatever waits.  `true` asks for the guard to be lifted and the hidden candidate to be
/// closed.
pub fn discard_terminal_wake_continuation<T>(slot: &mut Option<TerminalWakeContinuation<T>>) -> (r:
    bool)
    ensures
        r == (*old(slot) is Some),
        *final(slot) is None,
{
    slot.take().is_some()
}

/// What follows when the time of a continuation is up.
#[derive(Clone, Copy, Debug, PartialEq, Eq, Structural)]
pub enum ContinuationExpiry {
    /// It was used, dropped or replaced meanwhile.
    NotExpired,
    /// The guard is lifted; somebody else closed the candidate.
    LiftGuard,
    /// The guard is lifted, the user is told, and the device is asked to stop.
    TellUserAndStop,
}

/// The words when no audio came after a wake phrase.
pub const NO_AUDIO_AFTER_WAKE: &'static str = "Listener 未收到唤醒后的录音数据";

/// Ends a continuation whose time is up.  `candidate_closed` tells whether closing the hidden
/// candidate now changed anything.
pub fn schedule_terminal_wake_continuation_expiry<T>(
    slot: &mut Option<TerminalWakeContinuation<T>>,
    session_id: SessionId,
    now: u64,
    candidate_closed: bool,
) -> (r: ContinuationExpiry)
    ensures
        ({
            let expired = promised_to(*old(slot), session_id) && !waits(*old(slot), now);
            &&& *final(slot) == (if expired {
                None
            } else {
                *old(slot)
            })
            &&& r == (if !expired {
                ContinuationExpiry::NotExpired
            } else if candidate_closed {
                ContinuationExpiry::TellUserAndStop
            } else {
                ContinuationExpiry::LiftGuard
            })
        }),
{
    let due: bool = match slot {
        Some(continuation) => continuation.expires_at <= now,
        None => false,
    };
    if !due || !is_promised_to(slot, session_id) {
        return ContinuationExpiry::NotExpired;
    }
    *slot = None;
    if candidate_closed {
        ContinuationExpiry::TellUserAndStop
    } else {
        ContinuationExpiry::LiftGuard
    }
}

/// Whether the device is asked to stop for a rejected candidate: no session owns the recording,
/// and no later candidate does.
pub fn dispatch_owned_candidate_transport_stop(
    state: &SessionState,
    rejected_candidate_still_owns_stop: bool,
) -> (r: bool)
    ensures
        r == (state.phase == SessionPhase::Idle && rejected_candidate_still_owns_stop),
{
    state.phase == SessionPhase::Idle && rejected_candidate_still_owns_stop
}

/// What was let wait comes back to the session it was promised to, whole, as long as its time is
/// not up.
pub proof fn a_continuation_comes_back_whole<T>(
    slot: Option<TerminalWakeContinuation<T>>,
    wake_phrase: String,
    payload: T,
    session_id: SessionId,
    staged_at: u64,
    bound_at: u64,
    taken_at: u64,
)
    requires
        !waits(slot, staged_at),
        staged_at <= bound_at <= taken_at,
        taken_at < staged_at + 6_000,
        taken_at < u64::MAX,
    ensures
        ({
            let first = staged(slot, wake_phrase, payload, staged_at);
            let second = bound(first.0, session_id, bound_at);
            &&& first.1
            &&& second.1 == Some(wake_phrase)
            &&& taken(second.0, session_id, taken_at) matches ContinuationTake::Taken(c)
                && c.payload == payload && c.wake_phrase == wake_phrase
        }),
{
}

/// A continuation reaches nobody but the session it was promised to, and is promised once: a
/// second promise takes it away.
pub proof fn a_continuation_reaches_only_its_session<T>(
    slot: Option<TerminalWakeContinuation<T>>,
    session_id: SessionId,
    other: SessionId,
    now: u64,
    later: u64,
)
    requires
        session_id != other,
    ensures
        !(taken(bound(slot, session_id, now).0, other, later) is Taken),
        bound(bound(slot, session_id, now).0, other, later).1 is None,
        bound(bound(slot, session_id, now).0, other, later).0 is None,
{
}

/// A phrase that was staged at `now` still waits any time before six seconds have passed, and
/// never afterwards.
pub proof fn a_continuation_waits_six_seconds<T>(
    staged: TerminalWakeContinuation<T>,
    staged_at: u64,
    now: u64,
)
    requires
        staged.expires_at == capped_sum(staged_at, EMBEDDED_TERMINAL_WAKE_CONTINUATION_TTL_MS),
        staged_at <= now,
        staged_at + EMBEDDED_TERMINAL_WAKE_CONTINUATION_TTL_MS <= u64::MAX,
    ensures
        waits(Some(staged), now) <==> now - staged_at < 6_000,
{
}

/// A wake that still waits is not displaced; any other gives way, and the new one waits without a
/// session for six seconds with what it was given.
pub proof fn a_waiting_wake_is_not_displaced<T>(
    slot: Option<TerminalWakeContinuation<T>>,
    wake_phrase: String,
    payload: T,
    now: u64,
)
    ensures
        ({
            let (after, accepted) = staged(slot, wake_phrase, payload, now);
            let waiting = slot is Some && slot->0.expires_at > now;
            &&& accepted <==> !waiting
            &&& waiting ==> after == slot
            &&& !waiting ==> after is Some && after->0.payload == payload && after->0.wake_phrase
                == wake_phrase && after->0.session_id is None
            &&& !waiting && now <= u64::MAX - 6_000 ==> after->0.expires_at == now + 6_000
            &&& !waiting && now > u64::MAX - 6_000 ==> after->0.expires_at == u64::MAX
        }),
{
}

/// A wake is promised to a session exactly where it still waits and was promised to nobody, and
/// then keeps everything else; otherwise it is gone.
pub proof fn a_wake_is_promised_once<T>(
    slot: Option<TerminalWakeContinuation<T>>,
    session_id: SessionId,
    now: u64,
)
    ensures
        ({
            let (after, phrase) = bound(slot, session_id, now);
            let free = slot is Some && slot->0.expires_at > now && slot->0.session_id is None;
            &&& phrase is Some <==> free
            &&& after is Some <==> free
            &&& free ==> phrase == Some(slot->0.wake_phrase) && after->0.session_id == Some(
                session_id,
            ) && after->0.payload == slot->0.payload && after->0.wake_phrase
                == slot->0.wake_phrase && after->0.expires_at == slot->0.expires_at
        }),
{
}

/// A session gets the wake that was promised to it as long as that waits; a wake that expired, or
/// that another session or none was promised, is dropped.
pub proof fn a_promised_wake_is_handed_over<T>(
    slot: Option<TerminalWakeContinuation<T>>,
    session_id: SessionId,
    now: u64,
)
    ensures
        ({
            let own = slot is Some && slot->0.session_id == Some(session_id);
            let waiting = slot is Some && slot->0.expires_at > now;
            &&& own && waiting ==> taken(slot, session_id, now) == ContinuationTake::Taken(slot->0)
            &&& slot is Some && !(own && waiting) ==> taken(slot, session_id, now)
                == ContinuationTake::<T>::Dropped
            &&& slot is None ==> taken(slot, session_id, now) == ContinuationTake::<T>::Absent
            &&& promised_to(slot, session_id) <==> own
            &&& waits(slot, now) <==> waiting
        }),
{
}

} // verus!
