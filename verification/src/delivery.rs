//! Handing the final text to an input mechanism, and the evidence that is kept of it.

use vstd::prelude::*;
use vstd::utf8::encode_utf8;
use crate::preferences::Platform;
use crate::session::SessionId;
use crate::text::{hex16, hex_digit, hex_digits};

verus! {

/// What became of an attempt to put text at the cursor.
#[derive(Clone, Copy, Debug, PartialEq, Eq, Structural)]
pub enum InsertStatus {
    /// The receiving control accepted the text.
    Inserted,
    /// A paste shortcut was sent.
    PasteSent,
    /// The text is on the clipboard only.
    CopiedFallback,
    /// Input events went out and nobody acknowledged them.
    SubmittedUnconfirmed,
    /// Nothing was delivered.
    Failed,
}

/// The mechanism that carried a delivery.
#[derive(Clone, Copy, Debug, PartialEq, Eq, Structural)]
pub enum DeliveryRoute {
    Tsf,
    Unicode,
    Paste,
    CopyOnly,
    Streaming,
    Direct,
    Failed,
}

impl DeliveryRoute {
    /// The label under which a route is reported.
    pub open spec fn name(self) -> Seq<char> {
        match self {
            DeliveryRoute::Tsf => "tsf"@,
            DeliveryRoute::Unicode => "unicode"@,
            DeliveryRoute::Paste => "paste"@,
            DeliveryRoute::CopyOnly => "copy_only"@,
            DeliveryRoute::Streaming => "streaming"@,
            DeliveryRoute::Direct => "direct"@,
            DeliveryRoute::Failed => "failed"@,
        }
    }

    /// The label under which a route is reported.
    pub fn label(self) -> (r: &'static str)
        ensures
            r@ == self.name(),
    {
        match self {
            DeliveryRoute::Tsf => "tsf",
            DeliveryRoute::Unicode => "unicode",
            DeliveryRoute::Paste => "paste",
            DeliveryRoute::CopyOnly => "copy_only",
            DeliveryRoute::Streaming => "streaming",
            DeliveryRoute::Direct => "direct",
            DeliveryRoute::Failed => "failed",
        }
    }
}

/// Whether the history entry of a delivery could be written.
#[derive(Clone, Copy, Debug, PartialEq, Eq, Structural)]
pub enum DeliveryPersistenceOutcome {
    Saved,
    Failed,
}

impl DeliveryPersistenceOutcome {
    /// The label under which an outcome is reported.
    pub open spec fn name(self) -> Seq<char> {
        match self {
            DeliveryPersistenceOutcome::Saved => "saved"@,
            DeliveryPersistenceOutcome::Failed => "failed"@,
        }
    }

    /// The label under which an outcome is reported.
    pub fn label(self) -> (r: &'static str)
        ensures
            r@ == self.name(),
    {
        match self {
            DeliveryPersistenceOutcome::Saved => "saved",
            DeliveryPersistenceOutcome::Failed => "failed",
        }
    }
}

/// What is handed to one submission attempt.
#[derive(Clone, Debug)]
pub struct DeliveryRequest {
    pub session_id: SessionId,
    pub delivery_id: String,
    pub text: String,
}

/// The outcome of one submission attempt.
#[derive(Debug)]
pub struct DeliverySubmission {
    pub status: InsertStatus,
    pub target_confirmed: bool,
    pub route: DeliveryRoute,
    pub submitted_text: Option<String>,
}

/// The system operation that a submission attempt performs.
#[derive(Clone, Copy, Debug, PartialEq, Eq, Structural)]
pub enum DeliveryExternalOperation {
    OriginalTarget,
    ForegroundFallback,
    CopyOnly,
}

/// What the system operation reported.
#[derive(Debug)]
pub struct DeliveryExternalResult {
    pub status: InsertStatus,
    pub target_confirmed: bool,
    pub route: DeliveryRoute,
    pub submitted_text: Option<String>,
}

/// The circumstances under which a route is chosen.
#[derive(Clone, Copy, Debug, PartialEq, Eq, Structural)]
pub struct DeliveryDispatchPolicy {
    pub already_streamed: bool,
    pub wayland_session: bool,
    pub allow_clipboard_fallback: bool,
    pub focus_ready_for_paste: bool,
    pub allow_foreground_insert_fallback: bool,
}

/// Either a system operation to perform, or an outcome that is already certain.
#[derive(Debug)]
pub enum DeliveryDispatchChoice {
    External(DeliveryExternalOperation),
    Immediate(DeliverySubmission),
}

impl DeliveryDispatchPolicy {
    /// The system operation that the circumstances call for, if any.
    pub open spec fn operation(self) -> Option<DeliveryExternalOperation> {
        if self.already_streamed {
            None
        } else if !self.wayland_session && self.focus_ready_for_paste {
            Some(DeliveryExternalOperation::OriginalTarget)
        } else if !self.wayland_session && self.allow_foreground_insert_fallback {
            Some(DeliveryExternalOperation::ForegroundFallback)
        } else if self.allow_clipboard_fallback {
            Some(DeliveryExternalOperation::CopyOnly)
        } else {
            None
        }
    }
}

/// Chooses how a final text is delivered.  Text that was streamed already is not sent again, and
/// is reported as unconfirmed because nobody acknowledged it.
pub fn choose_delivery_dispatch(
    policy: DeliveryDispatchPolicy,
    streamed_submitted_text: Option<String>,
) -> (r: DeliveryDispatchChoice)
    ensures
        policy.operation() matches Some(op) ==> r == DeliveryDispatchChoice::External(op),
        policy.operation() is None ==> r == DeliveryDispatchChoice::Immediate(
            certain_outcome(policy, streamed_submitted_text),
        ),
{
    if policy.already_streamed {
        return DeliveryDispatchChoice::Immediate(
            DeliverySubmission {
                status: InsertStatus::SubmittedUnconfirmed,
                target_confirmed: false,
                route: DeliveryRoute::Streaming,
                submitted_text: streamed_submitted_text,
            },
        );
    }
    if !policy.wayland_session {
        if policy.focus_ready_for_paste {
            return DeliveryDispatchChoice::External(DeliveryExternalOperation::OriginalTarget);
        }
        if policy.allow_foreground_insert_fallback {
            return DeliveryDispatchChoice::External(DeliveryExternalOperation::ForegroundFallback);
        }
    }
    if policy.allow_clipboard_fallback {
        return DeliveryDispatchChoice::External(DeliveryExternalOperation::CopyOnly);
    }
    DeliveryDispatchChoice::Immediate(
        DeliverySubmission {
            status: InsertStatus::Failed,
            target_confirmed: false,
            route: DeliveryRoute::Failed,
            submitted_text: None,
        },
    )
}

/// The normalised outcome of a system operation.  Only the text service acknowledges receipt,
/// and only for the original target; every other "inserted" means that events went out.
pub open spec fn normalised(
    operation: DeliveryExternalOperation,
    result: DeliveryExternalResult,
) -> DeliverySubmission {
    let acknowledged = result.route == DeliveryRoute::Tsf && operation
        == DeliveryExternalOperation::OriginalTarget;
    DeliverySubmission {
        status: if result.status == InsertStatus::Inserted && !acknowledged {
            InsertStatus::SubmittedUnconfirmed
        } else {
            result.status
        },
        target_confirmed: acknowledged && result.status == InsertStatus::Inserted
            && result.target_confirmed,
        route: if operation == DeliveryExternalOperation::CopyOnly {
            DeliveryRoute::CopyOnly
        } else {
            result.route
        },
        submitted_text: if operation == DeliveryExternalOperation::CopyOnly {
            None
        } else {
            result.submitted_text
        },
    }
}

/// Normalises what a system operation reported.
pub fn map_delivery_external_result(
    operation: DeliveryExternalOperation,
    result: DeliveryExternalResult,
) -> (r: DeliverySubmission)
    ensures
        r == normalised(operation, result),
{
    let acknowledged: bool = result.route == DeliveryRoute::Tsf && operation
        == DeliveryExternalOperation::OriginalTarget;
    let status: InsertStatus = if result.status == InsertStatus::Inserted && !acknowledged {
        InsertStatus::SubmittedUnconfirmed
    } else {
        result.status
    };
    let target_confirmed: bool = acknowledged && status == InsertStatus::Inserted
        && result.target_confirmed;
    if operation == DeliveryExternalOperation::CopyOnly {
        DeliverySubmission {
            status,
            target_confirmed,
            route: DeliveryRoute::CopyOnly,
            submitted_text: None,
        }
    } else {
        DeliverySubmission {
            status,
            target_confirmed,
            route: result.route,
            submitted_text: result.submitted_text,
        }
    }
}

/// The outcome that is certain where the circumstances call for no system operation.
pub open spec fn certain_outcome(
    policy: DeliveryDispatchPolicy,
    streamed_submitted_text: Option<String>,
) -> DeliverySubmission {
    if policy.already_streamed {
        DeliverySubmission {
            status: InsertStatus::SubmittedUnconfirmed,
            target_confirmed: false,
            route: DeliveryRoute::Streaming,
            submitted_text: streamed_submitted_text,
        }
    } else {
        DeliverySubmission {
            status: InsertStatus::Failed,
            target_confirmed: false,
            route: DeliveryRoute::Failed,
            submitted_text: None,
        }
    }
}

/// Makes one submission attempt and hands out its outcome.
pub fn execute_delivery_submission<F>(request: DeliveryRequest, submit: F) -> (r:
    DeliverySubmission) where F: FnOnce(DeliveryRequest) -> DeliverySubmission
    requires
        submit.requires((request,)),
    ensures
        submit.ensures((request,), r),
{
    submit(request)
}

/// Delivers a text: chooses the system operation, performs only that one, once and with exactly
/// this request, and normalises what it reports.  Where no operation is called for, none is
/// performed.
pub fn dispatch_delivery_request<F>(
    request: DeliveryRequest,
    policy: DeliveryDispatchPolicy,
    streamed_submitted_text: Option<String>,
    submit: F,
) -> (r: DeliverySubmission) where
    F: FnOnce(DeliveryExternalOperation, DeliveryRequest) -> DeliveryExternalResult,

    requires
        policy.operation() matches Some(operation) ==> submit.requires((operation, request)),
    ensures
        policy.operation() matches Some(operation) ==> exists|report: DeliveryExternalResult|
            #[trigger]
            submit.ensures((operation, request), report) && r == normalised(operation, report),
        policy.operation() is None ==> r == certain_outcome(policy, streamed_submitted_text),
{
    match choose_delivery_dispatch(policy, streamed_submitted_text) {
        DeliveryDispatchChoice::External(operation) => {
            let report: DeliveryExternalResult = submit(operation, request);
            map_delivery_external_result(operation, report)
        },
        DeliveryDispatchChoice::Immediate(submission) => submission,
    }
}

/// Whether a delivery that was meant for the original target is refused at the last moment:
/// the target could not be brought back, and no other window may take its place.
pub fn refused_at_send_time(operation: DeliveryExternalOperation, target_restored: bool) -> (r:
    Option<DeliveryExternalResult>)
    ensures
        r is Some <==> operation == DeliveryExternalOperation::OriginalTarget && !target_restored,
        r matches Some(report) ==> report == (DeliveryExternalResult {
            status: InsertStatus::Failed,
            target_confirmed: false,
            route: DeliveryRoute::Failed,
            submitted_text: None,
        }),
{
    if operation == DeliveryExternalOperation::OriginalTarget && !target_restored {
        return Some(
            DeliveryExternalResult {
                status: InsertStatus::Failed,
                target_confirmed: false,
                route: DeliveryRoute::Failed,
                submitted_text: None,
            },
        );
    }
    None
}

/// What a desktop without a text service reports of an insertion: `attempt` is what its inserter
/// said, and it is only asked where the clipboard may carry the text.
pub fn plain_insertion_report<F>(
    platform: Platform,
    allow_clipboard_fallback: bool,
    text: String,
    attempt: F,
) -> (r: DeliveryExternalResult) where F: FnOnce() -> InsertStatus
    requires
        allow_clipboard_fallback ==> attempt.requires(()),
    ensures
        !r.target_confirmed,
        r.route == (if platform == Platform::MacOs {
            DeliveryRoute::Direct
        } else {
            DeliveryRoute::Paste
        }),
        r.submitted_text == Some(text),
        !allow_clipboard_fallback ==> r.status == InsertStatus::Failed,
        allow_clipboard_fallback ==> attempt.ensures((), r.status),
{
    let status: InsertStatus = if allow_clipboard_fallback {
        attempt()
    } else {
        InsertStatus::Failed
    };
    let route: DeliveryRoute = match platform {
        Platform::MacOs => DeliveryRoute::Direct,
        _ => DeliveryRoute::Paste,
    };
    DeliveryExternalResult { status, target_confirmed: false, route, submitted_text: Some(text) }
}

/// One step of the 64-bit FNV-1a hash.
pub open spec fn fnv_step(hash: u64, byte: u8) -> u64 {
    (hash ^ (byte as u64)).wrapping_mul(0x100000001b3)
}

/// The 64-bit FNV-1a hash of `bytes`, started from `hash`.
pub open spec fn fnv(hash: u64, bytes: Seq<u8>) -> u64
    decreases bytes.len(),
{
    if bytes.len() == 0 {
        hash
    } else {
        fnv_step(fnv(hash, bytes.drop_last()), bytes.last())
    }
}

/// The bytes that a payload is identified by: a presence byte, then its UTF-8 form.
pub open spec fn payload_stream(text: Option<Seq<char>>) -> Seq<u8> {
    match text {
        Some(t) => seq![0x01u8] + encode_utf8(t),
        None => seq![0x00u8],
    }
}

/// The digest under which a payload is reported: sixteen hexadecimal digits.
pub open spec fn payload_digest(text: Option<Seq<char>>) -> Seq<char> {
    hex_digits(fnv(0xcbf29ce484222325, payload_stream(text)) as nat, 16)
}

/// The characters behind an optional text.
pub open spec fn text_of(text: Option<&str>) -> Option<Seq<char>> {
    match text {
        Some(t) => Some(t@),
        None => None,
    }
}

/// The characters behind an optional owned text.
pub open spec fn string_of(text: Option<String>) -> Option<Seq<char>> {
    match text {
        Some(t) => Some(t@),
        None => None,
    }
}

fn fnv_byte(hash: u64, byte: u8) -> (r: u64)
    ensures
        r == fnv_step(hash, byte),
{
    (hash ^ (byte as u64)).wrapping_mul(0x100000001b3)
}

/// A stable digest of a payload that does not reveal it.
pub fn delivery_payload_digest(text: Option<&str>) -> (r: String)
    ensures
        r@ == payload_digest(text_of(text)),
{
    let presence: u8 = if text.is_some() {
        0x01
    } else {
        0x00
    };
    let mut hash: u64 = fnv_byte(0xcbf29ce484222325, presence);
    let ghost head = seq![presence];
    proof {
        assert(head.drop_last() == Seq::<u8>::empty());
        reveal_with_fuel(fnv, 2);
        assert(hash == fnv(0xcbf29ce484222325, head));
    }
    if let Some(t) = text {
        let bytes = t.as_bytes();
        let mut i: usize = 0;
        proof {
            assert(head + bytes@.take(0) == head);
        }
        while i < bytes.len()
            invariant
                i <= bytes@.len(),
                hash == fnv(0xcbf29ce484222325, head + bytes@.take(i as int)),
            decreases bytes@.len() - i,
        {
            hash = fnv_byte(hash, bytes[i]);
            proof {
                let next = head + bytes@.take(i + 1);
                assert(next.drop_last() == head + bytes@.take(i as int));
                assert(next.last() == bytes@[i as int]);
            }
            i = i + 1;
        }
        proof {
            assert(bytes@.take(bytes@.len() as int) == bytes@);
        }
    }
    hex16(hash)
}

/// The size of a payload in bytes.
pub fn delivery_payload_bytes(text: Option<&str>) -> (r: Option<usize>)
    ensures
        r == (match text {
            Some(t) => Some(encode_utf8(t@).len() as usize),
            None => None,
        }),
{
    match text {
        Some(t) => Some(t.len()),
        None => None,
    }
}

/// The evidence of one final delivery.
#[derive(Debug)]
pub struct DeliveryFact {
    pub session_id: SessionId,
    pub delivery_id: String,
    pub intended_text: String,
    pub submitted_text: Option<String>,
    pub route: DeliveryRoute,
    pub status: InsertStatus,
    pub target_confirmed: bool,
    pub persistence: DeliveryPersistenceOutcome,
    pub intended_bytes: usize,
    pub intended_digest: String,
    pub submitted_bytes: Option<usize>,
    pub submitted_digest: String,
}

impl DeliveryFact {
    /// The sizes and digests belong to the texts of the same fact.
    pub open spec fn consistent(self) -> bool {
        &&& self.intended_bytes == encode_utf8(self.intended_text@).len() as usize
        &&& self.intended_digest@ == payload_digest(Some(self.intended_text@))
        &&& self.submitted_bytes == (match self.submitted_text {
            Some(t) => Some(encode_utf8(t@).len() as usize),
            None => None,
        })
        &&& self.submitted_digest@ == payload_digest(string_of(self.submitted_text))
    }
}

/// How the outcome of the history sink is recorded.
pub open spec fn persistence_of(outcome: Result<(), String>) -> DeliveryPersistenceOutcome {
    if outcome is Ok {
        DeliveryPersistenceOutcome::Saved
    } else {
        DeliveryPersistenceOutcome::Failed
    }
}

/// Records one delivery.  The history sink is called once and its failure is recorded, never
/// retried.
pub fn record_delivery_fact<F: FnOnce() -> Result<(), String>>(
    session_id: SessionId,
    delivery_id: String,
    intended_text: String,
    submitted_text: Option<String>,
    route: DeliveryRoute,
    status: InsertStatus,
    target_confirmed: bool,
    persist_history: F,
) -> (fact: DeliveryFact)
    requires
        persist_history.requires(()),
    ensures
        fact.session_id == session_id,
        fact.delivery_id == delivery_id,
        fact.intended_text == intended_text,
        fact.submitted_text == submitted_text,
        fact.route == route,
        fact.status == status,
        fact.target_confirmed == target_confirmed,
        fact.consistent(),
        exists|outcome: Result<(), String>|
            persist_history.ensures((), outcome) && fact.persistence == #[trigger] persistence_of(
                outcome,
            ),
{
    let intended_bytes: usize = intended_text.as_str().len();
    let intended_digest: String = delivery_payload_digest(Some(intended_text.as_str()));
    let submitted: Option<&str> = match &submitted_text {
        Some(t) => Some(t.as_str()),
        None => None,
    };
    let submitted_bytes: Option<usize> = delivery_payload_bytes(submitted);
    let submitted_digest: String = delivery_payload_digest(submitted);
    let outcome: Result<(), String> = persist_history();
    let persistence: DeliveryPersistenceOutcome = match outcome {
        Ok(_) => DeliveryPersistenceOutcome::Saved,
        Err(_) => DeliveryPersistenceOutcome::Failed,
    };
    proof {
        assert(persistence == persistence_of(outcome));
    }
    DeliveryFact {
        session_id,
        delivery_id,
        intended_text,
        submitted_text,
        route,
        status,
        target_confirmed,
        persistence,
        intended_bytes,
        intended_digest,
        submitted_bytes,
        submitted_digest,
    }
}

/// Closes one delivery with the request that was used and the outcome it had.
pub fn finalize_delivery_fact<F: FnOnce() -> Result<(), String>>(
    request: DeliveryRequest,
    intended_text: String,
    submission: DeliverySubmission,
    persist_history: F,
) -> (fact: DeliveryFact)
    requires
        persist_history.requires(()),
    ensures
        fact.session_id == request.session_id,
        fact.delivery_id == request.delivery_id,
        fact.intended_text == intended_text,
        fact.submitted_text == submission.submitted_text,
        fact.route == submission.route,
        fact.status == submission.status,
        fact.target_confirmed == submission.target_confirmed,
        fact.consistent(),
        exists|outcome: Result<(), String>|
            persist_history.ensures((), outcome) && fact.persistence == #[trigger] persistence_of(
                outcome,
            ),
{
    record_delivery_fact(
        request.session_id,
        request.delivery_id,
        intended_text,
        submission.submitted_text,
        submission.route,
        submission.status,
        submission.target_confirmed,
        persist_history,
    )
}

/// A confirmed target means that the text service inserted into the original target; streamed
/// and copied texts are never confirmed.
pub proof fn only_the_text_service_confirms(
    operation: DeliveryExternalOperation,
    result: DeliveryExternalResult,
)
    ensures
        normalised(operation, result).target_confirmed ==> operation
            == DeliveryExternalOperation::OriginalTarget && result.route == DeliveryRoute::Tsf
            && normalised(operation, result).status == InsertStatus::Inserted,
        normalised(operation, result).status == InsertStatus::Inserted ==> operation
            == DeliveryExternalOperation::OriginalTarget && result.route == DeliveryRoute::Tsf,
{
}

/// A copy-only delivery submits nothing to any input mechanism.
pub proof fn copying_submits_nothing(result: DeliveryExternalResult)
    ensures
        normalised(DeliveryExternalOperation::CopyOnly, result).submitted_text is None,
        normalised(DeliveryExternalOperation::CopyOnly, result).route == DeliveryRoute::CopyOnly,
{
}

/// As long as the clipboard may be used and the text was not streamed, some operation always
/// carries it: a text that cannot be inserted is at least copied.
pub proof fn a_text_is_never_dropped_while_copying_is_allowed(policy: DeliveryDispatchPolicy)
    requires
        policy.allow_clipboard_fallback,
        !policy.already_streamed,
    ensures
        policy.operation() is Some,
{
}

/// Text that was streamed to the cursor is never sent a second time.
pub proof fn streamed_text_is_not_sent_again(policy: DeliveryDispatchPolicy)
    requires
        policy.already_streamed,
    ensures
        policy.operation() is None,
{
}

/// An absent payload and an empty one have different digests.
pub proof fn absent_and_empty_payloads_differ()
    ensures
        payload_digest(None) != payload_digest(Some(Seq::<char>::empty())),
{
    let basis: u64 = 0xcbf29ce484222325;
    let absent = payload_stream(None);
    let empty = payload_stream(Some(Seq::<char>::empty()));
    assert(encode_utf8(Seq::<char>::empty()).len() == 0);
    assert(absent == seq![0x00u8]);
    assert(empty == seq![0x01u8]);
    assert(absent.drop_last() == Seq::<u8>::empty());
    assert(empty.drop_last() == Seq::<u8>::empty());
    reveal_with_fuel(fnv, 2);
    assert(basis ^ 0u64 == 0xcbf29ce484222325u64) by (bit_vector)
        requires
            basis == 0xcbf29ce484222325u64,
    ;
    assert(basis ^ 1u64 == 0xcbf29ce484222324u64) by (bit_vector)
        requires
            basis == 0xcbf29ce484222325u64,
    ;
    let a = fnv(basis, absent);
    let b = fnv(basis, empty);
    assert(a == fnv_step(basis, 0x00));
    assert(b == fnv_step(basis, 0x01));
    lemma_first_steps_differ(basis);
    lemma_hex_range();
    if payload_digest(None) == payload_digest(Some(Seq::<char>::empty())) {
        lemma_hex_digits_injective(a as nat, b as nat, 16);
    }
}

proof fn lemma_first_steps_differ(basis: u64)
    requires
        basis ^ 0u64 == 0xcbf29ce484222325u64,
        basis ^ 1u64 == 0xcbf29ce484222324u64,
    ensures
        fnv_step(basis, 0x00) != fnv_step(basis, 0x01),
{
}

proof fn lemma_hex_range()
    ensures
        hex_range(16) == 0x1_0000_0000_0000_0000,
{
    reveal_with_fuel(hex_range, 17);
}

/// Sixteen to the power of `count`.
spec fn hex_range(count: nat) -> nat
    decreases count,
{
    if count == 0 {
        1
    } else {
        16 * hex_range((count - 1) as nat)
    }
}

proof fn lemma_hex_digits_injective(a: nat, b: nat, count: nat)
    requires
        hex_digits(a, count) == hex_digits(b, count),
        a < hex_range(count),
        b < hex_range(count),
    ensures
        a == b,
    decreases count,
{
    if count > 0 {
        let less = (count - 1) as nat;
        let x = hex_digits(a / 16, less);
        let y = hex_digits(b / 16, less);
        let s = x.push(hex_digit((a % 16) as int));
        let t = y.push(hex_digit((b % 16) as int));
        assert(s == t);
        assert(s.drop_last() == x);
        assert(t.drop_last() == y);
        assert(s.last() == t.last());
        lemma_hex_digits_injective(a / 16, b / 16, less);
    }
}

/// A text goes to the original target where that can take it, to whatever is in front where it may,
/// and to the clipboard where nothing else is left.  A Wayland desktop takes no insertion.
pub proof fn each_operation_has_its_reason(policy: DeliveryDispatchPolicy)
    ensures
        ({
            let operation = policy.operation();
            &&& operation == Some(DeliveryExternalOperation::OriginalTarget)
                <==> !policy.already_streamed && !policy.wayland_session
                && policy.focus_ready_for_paste
            &&& operation == Some(DeliveryExternalOperation::ForegroundFallback)
                <==> !policy.already_streamed && !policy.wayland_session
                && !policy.focus_ready_for_paste && policy.allow_foreground_insert_fallback
            &&& operation == Some(DeliveryExternalOperation::CopyOnly) <==> !policy.already_streamed
                && policy.allow_clipboard_fallback && (policy.wayland_session || (
            !policy.focus_ready_for_paste && !policy.allow_foreground_insert_fallback))
            &&& policy.wayland_session && operation is Some ==> operation
                == Some(DeliveryExternalOperation::CopyOnly)
        }),
{
}

/// A report is passed on as it is, but for what nobody can know: an insertion that the text service
/// did not acknowledge is unconfirmed.  A failure stays a failure, and a text that was copied stays
/// copied.
pub proof fn a_report_is_passed_on(
    operation: DeliveryExternalOperation,
    result: DeliveryExternalResult,
)
    ensures
        ({
            let submission = normalised(operation, result);
            let acknowledged = operation == DeliveryExternalOperation::OriginalTarget
                && result.route == DeliveryRoute::Tsf;
            &&& result.status != InsertStatus::Inserted ==> submission.status == result.status
                && !submission.target_confirmed
            &&& result.status == InsertStatus::Inserted && acknowledged ==> submission.status
                == InsertStatus::Inserted && submission.target_confirmed == result.target_confirmed
            &&& result.status == InsertStatus::Inserted && !acknowledged ==> submission.status
                == InsertStatus::SubmittedUnconfirmed && !submission.target_confirmed
            &&& operation != DeliveryExternalOperation::CopyOnly ==> submission.route
                == result.route && submission.submitted_text == result.submitted_text
        }),
{
}

/// A text that no operation carries was streamed before, and is reported with what was streamed, or
/// was not delivered at all, and is reported as a failure.
pub proof fn an_uncarried_text_is_reported(
    policy: DeliveryDispatchPolicy,
    streamed: Option<String>,
)
    requires
        policy.operation() is None,
    ensures
        ({
            let outcome = certain_outcome(policy, streamed);
            &&& !outcome.target_confirmed
            &&& outcome.status == InsertStatus::SubmittedUnconfirmed <==> policy.already_streamed
            &&& outcome.status == InsertStatus::Failed <==> !policy.already_streamed
            &&& policy.already_streamed ==> outcome.submitted_text == streamed && outcome.route
                == DeliveryRoute::Streaming
            &&& !policy.already_streamed ==> outcome.submitted_text is None && outcome.route
                == DeliveryRoute::Failed && !policy.allow_clipboard_fallback
        }),
{
}

/// A history entry is recorded as saved exactly where the sink said so.
pub proof fn a_failed_sink_is_recorded(outcome: Result<(), String>)
    ensures
        outcome is Ok ==> persistence_of(outcome) == DeliveryPersistenceOutcome::Saved,
        outcome is Err ==> persistence_of(outcome) == DeliveryPersistenceOutcome::Failed,
{
}

/// Every byte of a payload is hashed, the first one telling whether there is a payload at all.
pub proof fn the_whole_payload_is_hashed(text: Seq<char>)
    ensures
        payload_stream(Some(text)).len() == encode_utf8(text).len() + 1,
        payload_stream(Some(text)).skip(1) == encode_utf8(text),
        payload_stream(Some(text))[0] != payload_stream(None)[0],
        payload_stream(None).len() == 1,
{
    assert(payload_stream(Some(text)).skip(1) == encode_utf8(text));
}

/// Hashing two pieces one after the other is hashing them together.
pub proof fn hashing_goes_on_where_it_stopped(hash: u64, first: Seq<u8>, second: Seq<u8>)
    ensures
        fnv(hash, first + second) == fnv(fnv(hash, first), second),
        fnv(hash, Seq::<u8>::empty()) == hash,
    decreases second.len(),
{
    if second.len() == 0 {
        assert(first + second == first);
    } else {
        hashing_goes_on_where_it_stopped(hash, first, second.drop_last());
        assert((first + second).drop_last() == first + second.drop_last());
        assert((first + second).last() == second.last());
    }
}

/// A byte changes the hash it is added to, and two states never meet over the same byte: payloads
/// that differ in one byte have different hashes.
pub proof fn a_different_byte_gives_a_different_hash(
    hash: u64,
    before: Seq<u8>,
    a: u8,
    b: u8,
    after: Seq<u8>,
)
    requires
        a != b,
    ensures
        fnv(hash, before + seq![a] + after) != fnv(hash, before + seq![b] + after),
{
    hashing_goes_on_where_it_stopped(hash, before + seq![a], after);
    hashing_goes_on_where_it_stopped(hash, before + seq![b], after);
    hashing_goes_on_where_it_stopped(hash, before, seq![a]);
    hashing_goes_on_where_it_stopped(hash, before, seq![b]);
    let state = fnv(hash, before);
    assert(seq![a].drop_last() == Seq::<u8>::empty());
    assert(seq![b].drop_last() == Seq::<u8>::empty());
    reveal_with_fuel(fnv, 2);
    assert((state ^ (a as u64)) != (state ^ (b as u64))) by (bit_vector)
        requires
            a != b,
    ;
    if fnv_step(state, a) == fnv_step(state, b) {
        lemma_step_keeps_states_apart(state ^ (a as u64), state ^ (b as u64));
    }
    lemma_states_stay_apart(fnv_step(state, a), fnv_step(state, b), after);
}

proof fn lemma_states_stay_apart(x: u64, y: u64, bytes: Seq<u8>)
    requires
        x != y,
    ensures
        fnv(x, bytes) != fnv(y, bytes),
    decreases bytes.len(),
{
    if bytes.len() > 0 {
        lemma_states_stay_apart(x, y, bytes.drop_last());
        let a = fnv(x, bytes.drop_last());
        let b = fnv(y, bytes.drop_last());
        let byte = bytes.last() as u64;
        assert(a ^ byte != b ^ byte) by (bit_vector)
            requires
                a != b,
        ;
        if fnv_step(a, bytes.last()) == fnv_step(b, bytes.last()) {
            lemma_step_keeps_states_apart(a ^ byte, b ^ byte);
        }
    }
}

/// The multiplier is odd: multiplying by it loses nothing.
proof fn lemma_step_keeps_states_apart(x: u64, y: u64)
    requires
        x.wrapping_mul(0x100000001b3) == y.wrapping_mul(0x100000001b3),
    ensures
        x == y,
{
    let range: int = 0x1_0000_0000_0000_0000;
    let factor: int = 0x100000001b3;
    let inverse: int = 14886173955864302971;
    let over: int = 887285111055;
    let a: int = x as int;
    let b: int = y as int;
    assert((a * factor) % range == (b * factor) % range);
    let m: int = (a * factor) / range - (b * factor) / range;
    vstd::arithmetic::div_mod::lemma_fundamental_div_mod(a * factor, range);
    vstd::arithmetic::div_mod::lemma_fundamental_div_mod(b * factor, range);
    let d: int = a - b;
    assert(d * factor == m * range) by (nonlinear_arith)
        requires
            a * factor == range * ((a * factor) / range) + (a * factor) % range,
            b * factor == range * ((b * factor) / range) + (b * factor) % range,
            (a * factor) % range == (b * factor) % range,
            m == (a * factor) / range - (b * factor) / range,
            d == a - b,
    ;
    assert(factor * inverse == 1 + over * range);
    assert(d == (m * inverse - d * over) * range) by (nonlinear_arith)
        requires
            d * factor == m * range,
            factor * inverse == 1 + over * range,
    ;
    let n: int = m * inverse - d * over;
    assert(n == 0) by (nonlinear_arith)
        requires
            d == n * range,
            -range < d < range,
            range > 0,
    ;
}

} // verus!
