//! Inserting through the Windows text service first, and through paste or keystrokes where that
//! is allowed and needed.

use vstd::prelude::*;
use crate::delivery::{DeliveryRoute, InsertStatus};
use crate::session::SessionId;

verus! {

/// A text-service session that was prepared when a recording began.
#[derive(Debug)]
pub struct PreparedWindowsImeSessionSlot<P> {
    pub session_id: SessionId,
    pub prepared: P,
}

/// The slots that belong to other sessions than `session_id`.
pub open spec fn other_slots<P>(
    slots: Seq<PreparedWindowsImeSessionSlot<P>>,
    session_id: SessionId,
) -> Seq<PreparedWindowsImeSessionSlot<P>> {
    slots.filter(|slot: PreparedWindowsImeSessionSlot<P>| slot.session_id != session_id)
}

/// At most one slot per session.
pub open spec fn one_slot_per_session<P>(slots: Seq<PreparedWindowsImeSessionSlot<P>>) -> bool {
    forall|i: int, j: int|
        0 <= i < j < slots.len() ==> (#[trigger] slots[i]).session_id != (
        #[trigger] slots[j]).session_id
}

/// The position of the first slot of a session; the number of slots where there is none.
pub open spec fn slot_position<P>(
    slots: Seq<PreparedWindowsImeSessionSlot<P>>,
    session_id: SessionId,
) -> int
    decreases slots.len(),
{
    if slots.len() == 0 || slots[0].session_id == session_id {
        0
    } else {
        1 + slot_position(slots.drop_first(), session_id)
    }
}

/// What is prepared for a session, if anything.
pub open spec fn prepared_for<P>(
    slots: Seq<PreparedWindowsImeSessionSlot<P>>,
    session_id: SessionId,
) -> Option<P> {
    let at = slot_position(slots, session_id);
    if at < slots.len() {
        Some(slots[at].prepared)
    } else {
        None
    }
}

proof fn lemma_slot_position<P>(
    slots: Seq<PreparedWindowsImeSessionSlot<P>>,
    session_id: SessionId,
    at: int,
)
    requires
        0 <= at <= slots.len(),
        forall|k: int| 0 <= k < at ==> (#[trigger] slots[k]).session_id != session_id,
        at < slots.len() ==> slots[at].session_id == session_id,
    ensures
        slot_position(slots, session_id) == at,
    decreases slots.len(),
{
    if slots.len() > 0 && at > 0 {
        assert(slots[0].session_id != session_id);
        let rest = slots.drop_first();
        assert forall|k: int| 0 <= k < at - 1 implies (#[trigger] rest[k]).session_id
            != session_id by {
            assert(rest[k] == slots[k + 1]);
        }
        lemma_slot_position(rest, session_id, at - 1);
    }
}

proof fn lemma_slot_position_bounds<P>(
    slots: Seq<PreparedWindowsImeSessionSlot<P>>,
    session_id: SessionId,
)
    ensures
        0 <= slot_position(slots, session_id) <= slots.len(),
        slot_position(slots, session_id) < slots.len() ==> slots[slot_position(
            slots,
            session_id,
        )].session_id == session_id,
        forall|k: int|
            0 <= k < slot_position(slots, session_id) ==> (#[trigger] slots[k]).session_id
                != session_id,
    decreases slots.len(),
{
    if slots.len() > 0 && slots[0].session_id != session_id {
        let rest = slots.drop_first();
        lemma_slot_position_bounds(rest, session_id);
        assert forall|k: int| 0 <= k < slot_position(slots, session_id) implies (
        #[trigger] slots[k]).session_id != session_id by {
            if k > 0 {
                assert(rest[k - 1] == slots[k]);
            }
        }
    }
}

proof fn lemma_all_kept<P>(
    slots: Seq<PreparedWindowsImeSessionSlot<P>>,
    session_id: SessionId,
)
    requires
        forall|k: int| 0 <= k < slots.len() ==> (#[trigger] slots[k]).session_id != session_id,
    ensures
        other_slots(slots, session_id) == slots,
    decreases slots.len(),
{
    reveal(Seq::filter);
    if slots.len() > 0 {
        lemma_all_kept(slots.drop_last(), session_id);
        assert(slots.drop_last().push(slots.last()) == slots);
    }
}

proof fn lemma_drop_foreign<P>(
    slots: Seq<PreparedWindowsImeSessionSlot<P>>,
    session_id: SessionId,
    at: int,
)
    requires
        0 <= at < slots.len(),
        slots[at].session_id == session_id,
    ensures
        other_slots(slots.remove(at), session_id) == other_slots(slots, session_id),
{
    let keep = |slot: PreparedWindowsImeSessionSlot<P>| slot.session_id != session_id;
    let head = slots.take(at);
    let tail = slots.skip(at + 1);
    let one = seq![slots[at]];
    assert(slots == head + one + tail);
    assert(slots.remove(at) == head + tail);
    Seq::filter_distributes_over_add(head, tail, keep);
    Seq::filter_distributes_over_add(head + one, tail, keep);
    Seq::filter_distributes_over_add(head, one, keep);
    reveal(Seq::filter);
    assert(one.drop_last().filter(keep) == Seq::<PreparedWindowsImeSessionSlot<P>>::empty());
    assert(one.filter(keep) == Seq::<PreparedWindowsImeSessionSlot<P>>::empty());
    assert(head.filter(keep) + Seq::<PreparedWindowsImeSessionSlot<P>>::empty() == head.filter(
        keep,
    ));
}

/// Keeps what was prepared for a session, in place of anything kept for it before.
pub fn store_prepared_windows_ime_session<P>(
    slots: &mut Vec<PreparedWindowsImeSessionSlot<P>>,
    session_id: SessionId,
    prepared: P,
)
    ensures
        final(slots)@ == other_slots(old(slots)@, session_id).push(
            (PreparedWindowsImeSessionSlot { session_id, prepared }),
        ),
{
    let mut i: usize = 0;
    while i < slots.len()
        invariant
            i <= slots@.len(),
            other_slots(slots@, session_id) == other_slots(old(slots)@, session_id),
            forall|k: int| 0 <= k < i ==> (#[trigger] slots@[k]).session_id != session_id,
        decreases slots@.len() - i,
    {
        if slots[i].session_id == session_id {
            proof {
                lemma_drop_foreign(slots@, session_id, i as int);
            }
            let _gone = slots.remove(i);
        } else {
            i = i + 1;
        }
    }
    proof {
        lemma_all_kept(slots@, session_id);
    }
    slots.push(PreparedWindowsImeSessionSlot { session_id, prepared });
}

/// Takes what was prepared for a session out of the slots.
pub fn take_matching_prepared_windows_ime_session<P>(
    slots: &mut Vec<PreparedWindowsImeSessionSlot<P>>,
    session_id: SessionId,
) -> (r: Option<P>)
    ensures
        r == prepared_for(old(slots)@, session_id),
        r is Some ==> final(slots)@ == old(slots)@.remove(slot_position(old(slots)@, session_id)),
        r is None ==> final(slots)@ == old(slots)@,
{
    let mut i: usize = 0;
    while i < slots.len()
        invariant
            i <= slots@.len(),
            slots@ == old(slots)@,
            forall|k: int| 0 <= k < i ==> (#[trigger] slots@[k]).session_id != session_id,
        decreases slots@.len() - i,
    {
        if slots[i].session_id == session_id {
            proof {
                lemma_slot_position(slots@, session_id, i as int);
            }
            let slot = slots.remove(i);
            return Some(slot.prepared);
        }
        i = i + 1;
    }
    proof {
        lemma_slot_position(slots@, session_id, slots@.len() as int);
    }
    None
}

/// Takes what was prepared for a session, and hands it out for restoring only while that
/// session is still the current one.
pub fn take_current_prepared_windows_ime_session_for_restore<P>(
    slots: &mut Vec<PreparedWindowsImeSessionSlot<P>>,
    session_id: SessionId,
    current_session_id: SessionId,
) -> (r: Option<P>)
    ensures
        r == (if current_session_id == session_id {
            prepared_for(old(slots)@, session_id)
        } else {
            None
        }),
        prepared_for(old(slots)@, session_id) is Some ==> final(slots)@ == old(slots)@.remove(
            slot_position(old(slots)@, session_id),
        ),
        prepared_for(old(slots)@, session_id) is None ==> final(slots)@ == old(slots)@,
{
    let prepared: Option<P> = take_matching_prepared_windows_ime_session(slots, session_id);
    if current_session_id == session_id {
        prepared
    } else {
        None
    }
}

/// What was stored is what a take gives back, whatever was kept before; the take leaves the slots
/// of the other sessions, and a second one finds nothing.  Storing keeps at most one slot per
/// session.
pub proof fn stored_slot_is_taken_back<P>(
    slots: Seq<PreparedWindowsImeSessionSlot<P>>,
    session_id: SessionId,
    prepared: P,
)
    ensures
        ({
            let after = other_slots(slots, session_id).push(
                (PreparedWindowsImeSessionSlot { session_id, prepared }),
            );
            &&& prepared_for(after, session_id) == Some(prepared)
            &&& after.remove(slot_position(after, session_id)) == other_slots(slots, session_id)
            &&& prepared_for(other_slots(slots, session_id), session_id) is None
            &&& one_slot_per_session(slots) ==> one_slot_per_session(after)
        }),
{
    let kept = other_slots(slots, session_id);
    let after = kept.push((PreparedWindowsImeSessionSlot { session_id, prepared }));
    lemma_other_slots(slots, session_id);
    assert forall|k: int| 0 <= k < kept.len() implies (#[trigger] after[k]).session_id
        != session_id by {
        assert(after[k] == kept[k]);
    }
    lemma_slot_position(after, session_id, kept.len() as int);
    lemma_slot_position(kept, session_id, kept.len() as int);
    assert(after.remove(kept.len() as int) =~= kept);
    if one_slot_per_session(slots) {
        assert forall|i: int, j: int| 0 <= i < j < after.len() implies (
        #[trigger] after[i]).session_id != (#[trigger] after[j]).session_id by {
            assert(after[i] == kept[i]);
            if j < kept.len() {
                assert(after[j] == kept[j]);
            }
        }
    }
}

proof fn lemma_other_slots<P>(
    slots: Seq<PreparedWindowsImeSessionSlot<P>>,
    session_id: SessionId,
)
    ensures
        one_slot_per_session(slots) ==> one_slot_per_session(other_slots(slots, session_id)),
        forall|k: int|
            0 <= k < other_slots(slots, session_id).len() ==> (#[trigger] other_slots(
                slots,
                session_id,
            )[k]).session_id != session_id,
        forall|k: int|
            0 <= k < other_slots(slots, session_id).len() ==> slots.contains(
                #[trigger] other_slots(slots, session_id)[k],
            ),
    decreases slots.len(),
{
    reveal(Seq::filter);
    if slots.len() > 0 {
        let front = slots.drop_last();
        lemma_other_slots(front, session_id);
        let kept = other_slots(front, session_id);
        let all = other_slots(slots, session_id);
        assert forall|k: int| 0 <= k < kept.len() implies slots.contains(#[trigger] kept[k]) by {
            let at = choose|at: int| 0 <= at < front.len() && front[at] == kept[k];
            assert(slots[at] == kept[k]);
        }
        if slots.last().session_id != session_id {
            assert(all == kept.push(slots.last()));
            assert(slots[slots.len() - 1] == slots.last());
            if one_slot_per_session(slots) {
                assert(one_slot_per_session(front));
                assert forall|i: int, j: int| 0 <= i < j < all.len() implies (
                #[trigger] all[i]).session_id != (#[trigger] all[j]).session_id by {
                    assert(all[i] == kept[i]);
                    if j < kept.len() {
                        assert(all[j] == kept[j]);
                    } else {
                        let at = choose|at: int| 0 <= at < front.len() && front[at] == kept[i];
                        assert(slots[at] == kept[i]);
                    }
                }
            }
        } else {
            assert(all == kept);
            assert(one_slot_per_session(slots) ==> one_slot_per_session(front));
        }
    }
}

/// A take leaves the slots of the other sessions as they were.  What was taken is gone: with one
/// slot per session a second take finds nothing.
pub proof fn a_slot_is_taken_once<P>(
    slots: Seq<PreparedWindowsImeSessionSlot<P>>,
    session_id: SessionId,
)
    requires
        prepared_for(slots, session_id) is Some,
    ensures
        ({
            let rest = slots.remove(slot_position(slots, session_id));
            &&& rest.len() == slots.len() - 1
            &&& other_slots(rest, session_id) == other_slots(slots, session_id)
            &&& one_slot_per_session(slots) ==> prepared_for(rest, session_id) is None
                && one_slot_per_session(rest)
        }),
{
    lemma_slot_position_bounds(slots, session_id);
    let at = slot_position(slots, session_id);
    lemma_drop_foreign(slots, session_id, at);
    if one_slot_per_session(slots) {
        lemma_taken_out(slots, session_id);
    }
}

proof fn lemma_taken_out<P>(
    slots: Seq<PreparedWindowsImeSessionSlot<P>>,
    session_id: SessionId,
)
    requires
        one_slot_per_session(slots),
        prepared_for(slots, session_id) is Some,
    ensures
        prepared_for(slots.remove(slot_position(slots, session_id)), session_id) is None,
        one_slot_per_session(slots.remove(slot_position(slots, session_id))),
{
    lemma_slot_position_bounds(slots, session_id);
    let at = slot_position(slots, session_id);
    let rest = slots.remove(at);
    assert forall|k: int| 0 <= k < rest.len() implies (#[trigger] rest[k]).session_id
        != session_id by {
        if k < at {
            assert(rest[k] == slots[k]);
        } else {
            assert(rest[k] == slots[k + 1]);
            assert(slots[at].session_id != slots[k + 1].session_id);
        }
    }
    lemma_slot_position(rest, session_id, rest.len() as int);
    assert forall|i: int, j: int| 0 <= i < j < rest.len() implies (#[trigger] rest[i]).session_id
        != (#[trigger] rest[j]).session_id by {
        let p = if i < at { i } else { i + 1 };
        let q = if j < at { j } else { j + 1 };
        assert(rest[i] == slots[p]);
        assert(rest[j] == slots[q]);
    }
}

/// What the user allows, and whether earlier parts of this text were pasted already.
#[derive(Clone, Copy, Debug, PartialEq, Eq, Structural)]
pub struct InsertionPolicy {
    pub allow_non_tsf_insertion_fallback: bool,
    pub continue_paste_route: bool,
}

/// Where an insertion stands: what it waits for.
#[derive(Clone, Copy, Debug, PartialEq, Eq, Structural)]
pub enum InsertionStage {
    /// The slot of the session is being looked up.
    LookUp,
    /// The text service is being prepared once more.
    Prepare,
    /// The text was handed to the text service.
    Submit,
    /// The text is being pasted.
    Paste,
    /// The text is being typed as Unicode keystrokes.
    Unicode,
    /// The outcome is known.
    Done,
}

/// What came back from the operation that an insertion waited for.
#[derive(Clone, Copy, Debug, PartialEq, Eq, Structural)]
pub enum InsertionEvent {
    /// No text-service session was prepared for this recording.
    NothingPrepared,
    /// A session was prepared, and is ready for a submission or not.
    Prepared { ready: bool },
    /// The second preparation finished.
    PreparedAgain { ready: bool },
    /// The text service reported a status.
    Submitted(InsertStatus),
    /// The text service is not the active input method.
    SubmitNotActive,
    /// The submission failed otherwise.
    SubmitFailed,
    /// The paste route reported a status.
    Pasted(InsertStatus),
    /// The clipboard holds what could not be put back, so nothing was pasted.
    ClipboardNotReversible,
    /// The keystroke route reported a status.
    Typed(InsertStatus),
}

/// The outcome of an insertion; `submitted` tells whether the text went to a mechanism.
#[derive(Clone, Copy, Debug, PartialEq, Eq, Structural)]
pub struct InsertionOutcome {
    pub status: InsertStatus,
    pub target_confirmed: bool,
    pub route: DeliveryRoute,
    pub submitted: bool,
}

/// What is to be done next.
#[derive(Clone, Copy, Debug, PartialEq, Eq, Structural)]
pub enum InsertionAction {
    PrepareAgain,
    SubmitToTextService,
    PasteThroughClipboard,
    TypeKeystrokes,
    Finish(InsertionOutcome),
}

/// One step: the held text-service session is given back first where `restore` says so.
#[derive(Clone, Copy, Debug, PartialEq, Eq, Structural)]
pub struct InsertionStep {
    pub stage: InsertionStage,
    pub restore: bool,
    pub action: InsertionAction,
}

/// The events that can arrive in a stage.
pub open spec fn expects(stage: InsertionStage, event: InsertionEvent) -> bool {
    match stage {
        InsertionStage::LookUp => event is NothingPrepared || event is Prepared,
        InsertionStage::Prepare => event is PreparedAgain,
        InsertionStage::Submit => event is Submitted || event is SubmitNotActive
            || event is SubmitFailed,
        InsertionStage::Paste => event is Pasted || event is ClipboardNotReversible,
        InsertionStage::Unicode => event is Typed,
        InsertionStage::Done => false,
    }
}

/// Whether an event can arrive in a stage.
pub fn event_is_expected(stage: InsertionStage, event: InsertionEvent) -> (r: bool)
    ensures
        r == expects(stage, event),
{
    match stage {
        InsertionStage::LookUp => matches!(
            event,
            InsertionEvent::NothingPrepared | InsertionEvent::Prepared { .. }
        ),
        InsertionStage::Prepare => matches!(event, InsertionEvent::PreparedAgain { .. }),
        InsertionStage::Submit => matches!(
            event,
            InsertionEvent::Submitted(_) | InsertionEvent::SubmitNotActive
                | InsertionEvent::SubmitFailed
        ),
        InsertionStage::Paste => matches!(
            event,
            InsertionEvent::Pasted(_) | InsertionEvent::ClipboardNotReversible
        ),
        InsertionStage::Unicode => matches!(event, InsertionEvent::Typed(_)),
        InsertionStage::Done => false,
    }
}

/// Nothing was delivered on `route`; `submitted` tells whether the text was handed over.
pub open spec fn refused(route: DeliveryRoute, submitted: bool) -> InsertionOutcome {
    InsertionOutcome { status: InsertStatus::Failed, target_confirmed: false, route, submitted }
}

/// The end of an insertion.
pub open spec fn finish(restore: bool, outcome: InsertionOutcome) -> InsertionStep {
    InsertionStep {
        stage: InsertionStage::Done,
        restore,
        action: InsertionAction::Finish(outcome),
    }
}

/// Paste where the user allows it; otherwise the insertion ends with `otherwise`.
pub open spec fn paste_or(
    policy: InsertionPolicy,
    restore: bool,
    otherwise: InsertionOutcome,
) -> InsertionStep {
    if policy.allow_non_tsf_insertion_fallback {
        InsertionStep {
            stage: InsertionStage::Paste,
            restore,
            action: InsertionAction::PasteThroughClipboard,
        }
    } else {
        finish(restore, otherwise)
    }
}

/// Hand the text to the text service.
pub open spec fn submit() -> InsertionStep {
    InsertionStep {
        stage: InsertionStage::Submit,
        restore: false,
        action: InsertionAction::SubmitToTextService,
    }
}

/// The step that follows an event.
pub open spec fn step_after(policy: InsertionPolicy, event: InsertionEvent) -> InsertionStep {
    match event {
        InsertionEvent::NothingPrepared => paste_or(
            policy,
            false,
            refused(DeliveryRoute::Failed, false),
        ),
        InsertionEvent::Prepared { ready } => if policy.continue_paste_route
            && policy.allow_non_tsf_insertion_fallback {
            paste_or(policy, true, refused(DeliveryRoute::Failed, false))
        } else if ready {
            submit()
        } else {
            InsertionStep {
                stage: InsertionStage::Prepare,
                restore: true,
                action: InsertionAction::PrepareAgain,
            }
        },
        InsertionEvent::PreparedAgain { ready } => if ready {
            submit()
        } else {
            paste_or(policy, true, refused(DeliveryRoute::Failed, false))
        },
        InsertionEvent::SubmitNotActive => paste_or(
            policy,
            true,
            refused(DeliveryRoute::Failed, false),
        ),
        InsertionEvent::SubmitFailed => paste_or(policy, true, refused(DeliveryRoute::Tsf, true)),
        InsertionEvent::Submitted(status) => if status == InsertStatus::Inserted {
            finish(
                true,
                InsertionOutcome {
                    status,
                    target_confirmed: true,
                    route: DeliveryRoute::Tsf,
                    submitted: true,
                },
            )
        } else {
            paste_or(policy, true, refused(DeliveryRoute::Tsf, true))
        },
        InsertionEvent::Pasted(status) => if status == InsertStatus::PasteSent || status
            == InsertStatus::Inserted {
            finish(
                false,
                InsertionOutcome {
                    status,
                    target_confirmed: false,
                    route: DeliveryRoute::Paste,
                    submitted: true,
                },
            )
        } else {
            typing()
        },
        InsertionEvent::ClipboardNotReversible => typing(),
        InsertionEvent::Typed(status) => finish(
            false,
            InsertionOutcome {
                status: if status == InsertStatus::Inserted {
                    InsertStatus::SubmittedUnconfirmed
                } else {
                    status
                },
                target_confirmed: false,
                route: DeliveryRoute::Unicode,
                submitted: status == InsertStatus::Inserted,
            },
        ),
    }
}

/// Type the text as keystrokes.
pub open spec fn typing() -> InsertionStep {
    InsertionStep {
        stage: InsertionStage::Unicode,
        restore: false,
        action: InsertionAction::TypeKeystrokes,
    }
}

/// Whether another route than the text service is to be tried.
pub fn should_try_non_tsf_insertion_fallback(
    allow_non_tsf_insertion_fallback: bool,
    ime_status: InsertStatus,
) -> (r: bool)
    ensures
        r == (allow_non_tsf_insertion_fallback && ime_status != InsertStatus::Inserted),
{
    allow_non_tsf_insertion_fallback && ime_status != InsertStatus::Inserted
}

fn fallback_or(
    policy: InsertionPolicy,
    ime_status: InsertStatus,
    restore: bool,
    route: DeliveryRoute,
    submitted: bool,
) -> (r: InsertionStep)
    requires
        ime_status != InsertStatus::Inserted,
    ensures
        r == paste_or(policy, restore, refused(route, submitted)),
{
    if should_try_non_tsf_insertion_fallback(policy.allow_non_tsf_insertion_fallback, ime_status) {
        InsertionStep {
            stage: InsertionStage::Paste,
            restore,
            action: InsertionAction::PasteThroughClipboard,
        }
    } else {
        InsertionStep {
            stage: InsertionStage::Done,
            restore,
            action: InsertionAction::Finish(
                InsertionOutcome {
                    status: InsertStatus::Failed,
                    target_confirmed: false,
                    route,
                    submitted,
                },
            ),
        }
    }
}

/// The step of an insertion that prefers the text service, up to the point where another route
/// takes over.
pub fn insert_with_windows_ime_first(
    policy: InsertionPolicy,
    stage: InsertionStage,
    event: InsertionEvent,
) -> (r: InsertionStep)
    requires
        expects(stage, event),
    ensures
        r == step_after(policy, event),
{
    match event {
        InsertionEvent::NothingPrepared => fallback_or(
            policy,
            InsertStatus::Failed,
            false,
            DeliveryRoute::Failed,
            false,
        ),
        InsertionEvent::Prepared { ready } => {
            if policy.continue_paste_route && policy.allow_non_tsf_insertion_fallback {
                return fallback_or(policy, InsertStatus::Failed, true, DeliveryRoute::Failed, false);
            }
            if ready {
                return submit_step();
            }
            InsertionStep {
                stage: InsertionStage::Prepare,
                restore: true,
                action: InsertionAction::PrepareAgain,
            }
        },
        InsertionEvent::PreparedAgain { ready } => {
            if ready {
                return submit_step();
            }
            fallback_or(policy, InsertStatus::Failed, true, DeliveryRoute::Failed, false)
        },
        InsertionEvent::SubmitNotActive => fallback_or(
            policy,
            InsertStatus::Failed,
            true,
            DeliveryRoute::Failed,
            false,
        ),
        InsertionEvent::SubmitFailed => fallback_or(
            policy,
            InsertStatus::Failed,
            true,
            DeliveryRoute::Tsf,
            true,
        ),
        InsertionEvent::Submitted(status) => {
            if status == InsertStatus::Inserted {
                return InsertionStep {
                    stage: InsertionStage::Done,
                    restore: true,
                    action: InsertionAction::Finish(
                        InsertionOutcome {
                            status,
                            target_confirmed: true,
                            route: DeliveryRoute::Tsf,
                            submitted: true,
                        },
                    ),
                };
            }
            fallback_or(policy, status, true, DeliveryRoute::Tsf, true)
        },
        _ => insert_via_non_tsf_fallback(event),
    }
}

fn submit_step() -> (r: InsertionStep)
    ensures
        r == submit(),
{
    InsertionStep {
        stage: InsertionStage::Submit,
        restore: false,
        action: InsertionAction::SubmitToTextService,
    }
}

/// The step of the route around the text service: paste first, keystrokes where the paste was
/// not clean or would cost clipboard content that cannot be put back.
pub fn insert_via_non_tsf_fallback(event: InsertionEvent) -> (r: InsertionStep)
    requires
        event is Pasted || event is ClipboardNotReversible || event is Typed,
    ensures
        forall|policy: InsertionPolicy| r == #[trigger] step_after(policy, event),
{
    let paste_status: InsertStatus = match event {
        InsertionEvent::Typed(status) => {
            return InsertionStep {
                stage: InsertionStage::Done,
                restore: false,
                action: InsertionAction::Finish(
                    InsertionOutcome {
                        status: if status == InsertStatus::Inserted {
                            InsertStatus::SubmittedUnconfirmed
                        } else {
                            status
                        },
                        target_confirmed: false,
                        route: DeliveryRoute::Unicode,
                        submitted: status == InsertStatus::Inserted,
                    },
                ),
            };
        },
        InsertionEvent::Pasted(status) => status,
        _ => InsertStatus::Failed,
    };
    if paste_status == InsertStatus::PasteSent || paste_status == InsertStatus::Inserted {
        return InsertionStep {
            stage: InsertionStage::Done,
            restore: false,
            action: InsertionAction::Finish(
                InsertionOutcome {
                    status: paste_status,
                    target_confirmed: false,
                    route: DeliveryRoute::Paste,
                    submitted: true,
                },
            ),
        };
    }
    InsertionStep {
        stage: InsertionStage::Unicode,
        restore: false,
        action: InsertionAction::TypeKeystrokes,
    }
}

/// How many steps an insertion can still take.
pub open spec fn steps_left(stage: InsertionStage) -> nat {
    match stage {
        InsertionStage::LookUp => 5,
        InsertionStage::Prepare => 4,
        InsertionStage::Submit => 3,
        InsertionStage::Paste => 2,
        InsertionStage::Unicode => 1,
        InsertionStage::Done => 0,
    }
}

/// The number of text-service sessions that an insertion holds while it waits in a stage.
pub open spec fn held(stage: InsertionStage) -> int {
    if stage == InsertionStage::Submit {
        1
    } else {
        0
    }
}

/// The number of text-service sessions that an event brings along.
pub open spec fn brought(event: InsertionEvent) -> int {
    if event is Prepared || event is PreparedAgain {
        1
    } else {
        0
    }
}

/// Every insertion ends: each step leaves fewer to come, and the last one reports an outcome.
pub proof fn insertion_always_ends(
    policy: InsertionPolicy,
    stage: InsertionStage,
    event: InsertionEvent,
)
    requires
        expects(stage, event),
    ensures
        steps_left(step_after(policy, event).stage) < steps_left(stage),
        step_after(policy, event).stage == InsertionStage::Done <==> step_after(
            policy,
            event,
        ).action is Finish,
{
}

/// No text-service session is lost or given back twice: what is held afterwards is what was
/// held, plus what the event brought, less what the step gives back.  At the end nothing is held.
pub proof fn text_service_session_is_given_back(
    policy: InsertionPolicy,
    stage: InsertionStage,
    event: InsertionEvent,
)
    requires
        expects(stage, event),
    ensures
        held(step_after(policy, event).stage) == held(stage) + brought(event) - (if step_after(
            policy,
            event,
        ).restore {
            1int
        } else {
            0
        }),
        held(InsertionStage::Done) == 0,
{
}

/// Unless the user allows it, nothing is pasted and nothing is typed.
pub proof fn other_routes_need_permission(
    policy: InsertionPolicy,
    stage: InsertionStage,
    event: InsertionEvent,
)
    requires
        expects(stage, event),
        !policy.allow_non_tsf_insertion_fallback,
        stage != InsertionStage::Paste,
        stage != InsertionStage::Unicode,
    ensures
        !(step_after(policy, event).action is PasteThroughClipboard),
        !(step_after(policy, event).action is TypeKeystrokes),
        step_after(policy, event).stage != InsertionStage::Paste,
        step_after(policy, event).stage != InsertionStage::Unicode,
{
}

/// A target is confirmed exactly when the text service said that it inserted.
pub proof fn confirmation_comes_from_the_text_service(
    policy: InsertionPolicy,
    stage: InsertionStage,
    event: InsertionEvent,
)
    requires
        expects(stage, event),
    ensures
        step_after(policy, event).action matches InsertionAction::Finish(outcome) ==> (
        outcome.target_confirmed <==> event == InsertionEvent::Submitted(InsertStatus::Inserted)),
{
}

/// Where the user allows other routes, no insertion gives up before one was tried: whatever keeps
/// the text service from inserting, and is not tried again, leads to a paste.
pub proof fn an_allowed_route_is_always_tried(
    policy: InsertionPolicy,
    stage: InsertionStage,
    event: InsertionEvent,
)
    requires
        expects(stage, event),
        policy.allow_non_tsf_insertion_fallback,
        stage == InsertionStage::LookUp || stage == InsertionStage::Prepare || stage
            == InsertionStage::Submit,
    ensures
        ({
            let step = step_after(policy, event);
            &&& event is NothingPrepared || event == (InsertionEvent::PreparedAgain {
                ready: false,
            }) || event is SubmitNotActive || event is SubmitFailed || (
            event matches InsertionEvent::Submitted(status) && status != InsertStatus::Inserted)
                || (event is Prepared && policy.continue_paste_route) ==> step.stage
                == InsertionStage::Paste && step.action == InsertionAction::PasteThroughClipboard
            &&& step.action is Finish ==> event == InsertionEvent::Submitted(
                InsertStatus::Inserted,
            )
        }),
{
}

/// The text service is asked whenever a session for it is ready and the text is not being pasted in
/// parts already; one that is not ready is prepared once more before anything else happens.
pub proof fn the_text_service_comes_first(policy: InsertionPolicy, event: InsertionEvent)
    ensures
        ({
            let pasting = policy.continue_paste_route && policy.allow_non_tsf_insertion_fallback;
            &&& step_after(policy, event).action == InsertionAction::SubmitToTextService <==> (event
                == (InsertionEvent::Prepared { ready: true }) && !pasting) || event == (
            InsertionEvent::PreparedAgain { ready: true })
            &&& step_after(policy, event).action == InsertionAction::PrepareAgain <==> event == (
            InsertionEvent::Prepared { ready: false }) && !pasting
            &&& step_after(policy, event).stage == InsertionStage::Submit <==> step_after(
                policy,
                event,
            ).action == InsertionAction::SubmitToTextService
            &&& step_after(policy, event).stage == InsertionStage::Prepare <==> step_after(
                policy,
                event,
            ).action == InsertionAction::PrepareAgain
        }),
{
}

/// Where the text service is the only route that is allowed, its failure is the outcome: nothing
/// was inserted, and the text counts as submitted exactly where the service took it.
pub proof fn a_failed_text_service_is_reported(
    policy: InsertionPolicy,
    stage: InsertionStage,
    event: InsertionEvent,
)
    requires
        expects(stage, event),
        !policy.allow_non_tsf_insertion_fallback,
    ensures
        event is NothingPrepared || event == (InsertionEvent::PreparedAgain { ready: false })
            || event is SubmitNotActive ==> step_after(policy, event).action
            == InsertionAction::Finish(
            InsertionOutcome {
                status: InsertStatus::Failed,
                target_confirmed: false,
                route: DeliveryRoute::Failed,
                submitted: false,
            },
        ),
        event is SubmitFailed || (event matches InsertionEvent::Submitted(status) && status
            != InsertStatus::Inserted) ==> step_after(policy, event).action
            == InsertionAction::Finish(
            InsertionOutcome {
                status: InsertStatus::Failed,
                target_confirmed: false,
                route: DeliveryRoute::Tsf,
                submitted: true,
            },
        ),
{
}

/// A text that the service inserted is done, confirmed and on its route, and is neither pasted nor
/// typed, whatever else is allowed.
pub proof fn an_inserted_text_is_done(policy: InsertionPolicy)
    ensures
        step_after(policy, InsertionEvent::Submitted(InsertStatus::Inserted)) == (InsertionStep {
            stage: InsertionStage::Done,
            restore: true,
            action: InsertionAction::Finish(
                InsertionOutcome {
                    status: InsertStatus::Inserted,
                    target_confirmed: true,
                    route: DeliveryRoute::Tsf,
                    submitted: true,
                },
            ),
        }),
{
}

/// A paste that went out is the outcome, unconfirmed; after any other, and where the clipboard
/// could not be put back, the text is typed.
pub proof fn an_unclean_paste_is_typed(policy: InsertionPolicy, status: InsertStatus)
    ensures
        ({
            let step = step_after(policy, InsertionEvent::Pasted(status));
            let sent = status == InsertStatus::PasteSent || status == InsertStatus::Inserted;
            &&& sent ==> step.action == InsertionAction::Finish(
                InsertionOutcome {
                    status,
                    target_confirmed: false,
                    route: DeliveryRoute::Paste,
                    submitted: true,
                },
            )
            &&& !sent ==> step.action == InsertionAction::TypeKeystrokes && step.stage
                == InsertionStage::Unicode
            &&& step_after(policy, InsertionEvent::ClipboardNotReversible).action
                == InsertionAction::TypeKeystrokes
            &&& step_after(policy, InsertionEvent::ClipboardNotReversible).stage
                == InsertionStage::Unicode
        }),
{
}

/// Typing ends an insertion, never confirmed: keystrokes that went out count as submitted, and any
/// other status is handed on as it is.
pub proof fn typing_ends_unconfirmed(policy: InsertionPolicy, status: InsertStatus)
    ensures
        step_after(policy, InsertionEvent::Typed(status)).action matches InsertionAction::Finish(
            outcome,
        ) && {
            &&& outcome.route == DeliveryRoute::Unicode
            &&& !outcome.target_confirmed
            &&& outcome.submitted <==> status == InsertStatus::Inserted
            &&& status == InsertStatus::Inserted ==> outcome.status
                == InsertStatus::SubmittedUnconfirmed
            &&& status != InsertStatus::Inserted ==> outcome.status == status
        },
{
}

/// The slots of other sessions are exactly the slots that are not this session's, in their order.
pub proof fn other_slots_are_all_the_others<P>(
    slots: Seq<PreparedWindowsImeSessionSlot<P>>,
    session_id: SessionId,
    slot: PreparedWindowsImeSessionSlot<P>,
)
    ensures
        other_slots(slots, session_id).contains(slot) <==> slots.contains(slot) && slot.session_id
            != session_id,
        other_slots(slots, session_id).len() <= slots.len(),
        (forall|k: int| 0 <= k < slots.len() ==> (#[trigger] slots[k]).session_id != session_id)
            ==> other_slots(slots, session_id) == slots,
    decreases slots.len(),
{
    reveal(Seq::filter);
    if forall|k: int| 0 <= k < slots.len() ==> (#[trigger] slots[k]).session_id != session_id {
        lemma_all_kept(slots, session_id);
    }
    if slots.len() > 0 {
        let front = slots.drop_last();
        other_slots_are_all_the_others(front, session_id, slot);
        let kept = other_slots(front, session_id);
        let all = other_slots(slots, session_id);
        assert(slots[slots.len() - 1] == slots.last());
        if front.contains(slot) {
            let at = choose|at: int| 0 <= at < front.len() && front[at] == slot;
            assert(slots[at] == slot);
        }
        if slots.contains(slot) && slot != slots.last() {
            let at = choose|at: int| 0 <= at < slots.len() && slots[at] == slot;
            assert(front[at] == slot);
        }
        if slots.last().session_id != session_id {
            assert(all == kept.push(slots.last()));
            assert(all[kept.len() as int] == slots.last());
            if kept.contains(slot) {
                let at = choose|at: int| 0 <= at < kept.len() && kept[at] == slot;
                assert(all[at] == slot);
            }
            if all.contains(slot) && slot != slots.last() {
                let at = choose|at: int| 0 <= at < all.len() && all[at] == slot;
                assert(kept[at] == slot);
            }
        } else {
            assert(all == kept);
        }
    }
}

/// What is found for a session is what one of its slots holds, and something is found exactly where
/// it has a slot.
pub proof fn only_its_own_slot_is_found<P>(
    slots: Seq<PreparedWindowsImeSessionSlot<P>>,
    session_id: SessionId,
)
    ensures
        prepared_for(slots, session_id) is Some <==> exists|k: int|
            0 <= k < slots.len() && (#[trigger] slots[k]).session_id == session_id,
        prepared_for(slots, session_id) matches Some(prepared) ==> exists|k: int|
            0 <= k < slots.len() && (#[trigger] slots[k]).session_id == session_id
                && slots[k].prepared == prepared,
{
    lemma_slot_position_bounds(slots, session_id);
    let at = slot_position(slots, session_id);
    if at < slots.len() {
        assert(slots[at].session_id == session_id);
    }
}

} // verus!
