//! What happens between the moment a recording stops and the moment its text is delivered.
//!
//! The completion of a session alternates outside work (a recogniser, a language model, a text
//! field) with decisions.  Each decision is one step here: a stage and the event it waited for
//! give the next stage and the next piece of outside work.

use vstd::prelude::*;
use vstd::string::*;
use crate::session::SessionId;

verus! {

/// The recogniser that listens to a session.
#[derive(Clone, Copy, Debug, PartialEq, Eq, Structural)]
pub enum ActiveAsr {
    Volcengine,
    Whisper,
    Bailian,
    FoundryLocalWhisper,
    Local,
}

/// Whether a transcription is bounded by the coordinator's own timeout.  The Windows local
/// recogniser brings its own.
pub fn asr_transcribe_uses_global_timeout(asr: &ActiveAsr) -> (r: bool)
    ensures
        r == (*asr != ActiveAsr::FoundryLocalWhisper),
{
    match asr {
        ActiveAsr::FoundryLocalWhisper => false,
        _ => true,
    }
}

/// The points at which the origin of the audio is checked before the session goes on.
#[derive(Clone, Copy, Debug, PartialEq, Eq, Structural)]
pub enum IntegrityBoundary {
    BeforeAsrFinalization,
    BeforeReplay,
    BeforeErrorClose,
    AfterProviderFinal,
}

impl IntegrityBoundary {
    /// The label under which a boundary is reported.
    pub open spec fn name(self) -> Seq<char> {
        match self {
            IntegrityBoundary::BeforeAsrFinalization => "before_asr_finalization"@,
            IntegrityBoundary::BeforeReplay => "provider_error_before_replay"@,
            IntegrityBoundary::BeforeErrorClose => "provider_error_before_error_close"@,
            IntegrityBoundary::AfterProviderFinal =>
                "after_provider_final_before_product_arbitration"@,
        }
    }

    /// The label under which a boundary is reported.
    pub fn label(self) -> (r: &'static str)
        ensures
            r@ == self.name(),
    {
        match self {
            IntegrityBoundary::BeforeAsrFinalization => "before_asr_finalization",
            IntegrityBoundary::BeforeReplay => "provider_error_before_replay",
            IntegrityBoundary::BeforeErrorClose => "provider_error_before_error_close",
            IntegrityBoundary::AfterProviderFinal =>
                "after_provider_final_before_product_arbitration",
        }
    }

    /// Whether the user is told about a recovery before this check runs.
    pub fn announces_recovery(self) -> (r: bool)
        ensures
            r == (self == IntegrityBoundary::BeforeReplay),
    {
        match self {
            IntegrityBoundary::BeforeReplay => true,
            _ => false,
        }
    }
}

/// What the ledger of audio sources says about a session.
#[derive(Clone, Copy, Debug, PartialEq, Eq, Structural)]
pub enum SourceIntegrityQualification {
    Allowed,
    SourceIntegrityBlocked,
    OwnerMismatch,
}

/// What a check of the audio source leads to.
#[derive(Clone, Copy, Debug, PartialEq, Eq, Structural)]
pub enum IntegrityCheck {
    /// The session goes on.
    Proceed,
    /// The session ends with a recorded failure.
    CloseBlocked,
    /// The session was replaced meanwhile; nothing is recorded.
    DropStale,
}

impl IntegrityCheck {
    /// Whether the session must not go on.
    pub open spec fn stops(self) -> bool {
        self != IntegrityCheck::Proceed
    }
}

/// Decides a check of the audio source; a session without a ledger is never held up.
pub fn source_integrity_must_stop(verdict: Option<SourceIntegrityQualification>) -> (r:
    IntegrityCheck)
    ensures
        r == (match verdict {
            Some(SourceIntegrityQualification::SourceIntegrityBlocked) =>
                IntegrityCheck::CloseBlocked,
            Some(SourceIntegrityQualification::OwnerMismatch) => IntegrityCheck::DropStale,
            Some(SourceIntegrityQualification::Allowed) => IntegrityCheck::Proceed,
            None => IntegrityCheck::Proceed,
        }),
{
    match verdict {
        Some(SourceIntegrityQualification::SourceIntegrityBlocked) => IntegrityCheck::CloseBlocked,
        Some(SourceIntegrityQualification::OwnerMismatch) => IntegrityCheck::DropStale,
        _ => IntegrityCheck::Proceed,
    }
}

/// Shortest audio that a local shadow decode is worth.
pub const LOCAL_SHADOW_ASR_MIN_AUDIO_MS: usize = 2_000;
/// Longest audio that a local shadow decode is tried on.
pub const LOCAL_SHADOW_ASR_MAX_AUDIO_MS: usize = 20_000;
/// What a local shadow decode may take in all.
pub const LOCAL_SHADOW_ASR_TOTAL_BUDGET_MS: u64 = 850;
/// Bytes of 16 kHz mono 16-bit audio in one millisecond.
pub const PCM_BYTES_PER_MS: usize = 32;

/// Whether retained audio is long enough, and short enough, for a local shadow decode.
pub fn local_shadow_decode_fits(pcm_bytes: usize) -> (r: bool)
    ensures
        r == (2_000 <= pcm_bytes as int / 32 <= 20_000),
{
    let audio_ms: usize = pcm_bytes / PCM_BYTES_PER_MS;
    LOCAL_SHADOW_ASR_MIN_AUDIO_MS <= audio_ms && audio_ms <= LOCAL_SHADOW_ASR_MAX_AUDIO_MS
}

/// What is known about the candidate transcripts once the provider has settled.
#[derive(Clone, Copy, Debug, PartialEq, Eq, Structural)]
pub struct CandidateFacts {
    /// The provider's final holds nothing but white space.
    pub primary_blank: bool,
    /// The separated owner track holds text.
    pub separated_has_text: bool,
    /// Only the owner's words may be delivered.
    pub filter_required: bool,
    /// The session was opened by a wake phrase.
    pub automatic_wake: bool,
    /// Speech went on through most of the recording.
    pub sustained_speech: bool,
    /// Some speech was heard.
    pub some_speech: bool,
    /// How long a local shadow decode has been running, where one is.
    pub shadow_elapsed_ms: Option<u64>,
}

impl CandidateFacts {
    /// An empty final is retried with the retained audio where speech was certainly there: all
    /// the time, or at all in a session that a person started.
    pub open spec fn retries_empty_final(self, asr: ActiveAsr) -> bool {
        &&& asr == ActiveAsr::Volcengine
        &&& self.primary_blank
        &&& !self.separated_has_text
        &&& !self.filter_required
        &&& (self.sustained_speech || (!self.automatic_wake && self.some_speech))
    }
}

/// How long a local shadow decode is still waited for.
pub open spec fn shadow_wait(
    has_base_text: bool,
    filter_required: bool,
    elapsed_ms: Option<u64>,
) -> Option<u64> {
    match elapsed_ms {
        Some(elapsed) if has_base_text && !filter_required && elapsed
            < LOCAL_SHADOW_ASR_TOTAL_BUDGET_MS => Some(
            (LOCAL_SHADOW_ASR_TOTAL_BUDGET_MS - elapsed) as u64,
        ),
        _ => None,
    }
}

fn shadow_wait_ms(has_base_text: bool, filter_required: bool, elapsed_ms: Option<u64>) -> (r:
    Option<u64>)
    ensures
        r == shadow_wait(has_base_text, filter_required, elapsed_ms),
{
    match elapsed_ms {
        Some(elapsed) => if has_base_text && !filter_required && elapsed
            < LOCAL_SHADOW_ASR_TOTAL_BUDGET_MS {
            Some(LOCAL_SHADOW_ASR_TOTAL_BUDGET_MS - elapsed)
        } else {
            None
        },
        None => None,
    }
}

/// What decides how a transcript becomes a text.
#[derive(Clone, Copy, Debug, PartialEq, Eq, Structural)]
pub struct TextFacts {
    pub translation_active: bool,
    pub llm_auth_blocked: bool,
    pub llm_stall_blocked: bool,
    pub needs_llm_polish: bool,
    /// The preferences and the desktop allow typing while the model still writes.
    pub streaming_insert_eligible: bool,
}

/// The ways in which a transcript becomes a text.
#[derive(Clone, Copy, Debug, PartialEq, Eq, Structural)]
pub enum TextRoute {
    Translate,
    /// The transcript itself, without waiting for a model that is known to be unavailable.
    RawWithoutPolish,
    StreamingPolish,
    OneShotPolish,
}

impl TextFacts {
    /// The way in which the transcript becomes a text.
    pub open spec fn route(self) -> TextRoute {
        if self.translation_active {
            TextRoute::Translate
        } else if self.needs_llm_polish && (self.llm_auth_blocked || self.llm_stall_blocked) {
            TextRoute::RawWithoutPolish
        } else if self.streaming_insert_eligible && !self.llm_auth_blocked
            && !self.llm_stall_blocked {
            TextRoute::StreamingPolish
        } else {
            TextRoute::OneShotPolish
        }
    }
}

/// Chooses the way in which a transcript becomes a text.
pub fn choose_text_route(facts: TextFacts) -> (r: TextRoute)
    ensures
        r == facts.route(),
{
    let blocked: bool = facts.llm_auth_blocked || facts.llm_stall_blocked;
    if facts.translation_active {
        TextRoute::Translate
    } else if blocked && facts.needs_llm_polish {
        TextRoute::RawWithoutPolish
    } else if facts.streaming_insert_eligible && !blocked {
        TextRoute::StreamingPolish
    } else {
        TextRoute::OneShotPolish
    }
}

/// How the final text relates to what was put on screen during a pause.
#[derive(Clone, Copy, Debug, PartialEq, Eq, Structural)]
pub enum EarlyText {
    /// Nothing was put on screen, or nothing that can still be accounted for.
    Nothing,
    /// The early text covers the final text.
    Covered,
    /// The early text is a prefix, and a remainder is left.
    Remainder,
    /// The provider rewrote the prefix, and a tail can be recovered.
    Recovered,
    /// The provider rewrote the prefix, and nothing can be recovered.
    Rewritten,
}

/// What is known about a delivery right before it is made.
#[derive(Clone, Copy, Debug, PartialEq, Eq, Structural)]
pub struct EarlyFacts {
    pub early: EarlyText,
    /// Early text went on screen in this session, accounted for or not.
    pub ever_delivered: bool,
    /// An input composition of this session is open.
    pub composition_active: bool,
    /// A composition was left behind that may still show text.
    pub composition_contaminated: bool,
}

impl EarlyFacts {
    /// Whether sending the final text would put words on screen twice or rewrite them.
    pub open spec fn must_not_send(self) -> bool {
        match self.early {
            EarlyText::Covered => true,
            EarlyText::Rewritten => true,
            EarlyText::Nothing => self.ever_delivered,
            EarlyText::Remainder => false,
            EarlyText::Recovered => false,
        }
    }

    /// Whether an open composition is abandoned rather than committed.
    pub open spec fn cancels_composition(self) -> bool {
        self.early == EarlyText::Rewritten || (self.early == EarlyText::Nothing
            && self.ever_delivered)
    }
}

/// What a completing session waits for.
#[derive(Clone, Copy, Debug, PartialEq, Eq, Structural)]
pub enum FinishStage {
    GateBeforeAsr,
    Recogniser,
    Transcript { asr: ActiveAsr },
    GateBeforeReplay,
    Replay,
    Probe,
    LocalCancelCheck,
    GateBeforeErrorClose { asr: ActiveAsr, timed_out: bool },
    GateAfterFinal { asr: ActiveAsr },
    CancelCheck { asr: ActiveAsr },
    Candidates { asr: ActiveAsr },
    EmptyRetry,
    Shadow,
    Arbitration,
    TextChoice,
    Polish,
    Insertion,
    EarlyDelivery,
    Composition { must_not_send: bool },
    Dispatch,
    Clipboard,
    PostKey,
    Done,
}

/// What came back from the outside work that a completing session waited for.
#[derive(Clone, Copy, Debug, PartialEq, Eq, Structural)]
pub enum FinishEvent {
    IntegrityChecked(IntegrityCheck),
    RecogniserTaken(Option<ActiveAsr>),
    TranscriptReady,
    TranscriptFailed { permits_replay: bool, global_timeout: bool },
    ReplayReady,
    ReplayFailed,
    ReplayTimedOut,
    NetworkProbed { reachable_or_unknown: bool },
    CancelChecked { cancelled: bool },
    CandidatesCollected(CandidateFacts),
    /// `recovered` tells whether words are left once the wake phrase is cut off.
    EmptyFinalRetried { recovered: bool, shadow_elapsed_ms: Option<u64> },
    ShadowSettled,
    Arbitrated { blank: bool, automatic_wake: bool, body_started: bool },
    TextChosen(TextFacts),
    TextPrepared,
    InsertionDecided { applied: bool },
    EarlyDeliveryRead(EarlyFacts),
    CompositionSettled { finalized: bool, contaminated: bool },
    Delivered { retain_on_clipboard: bool },
    ClipboardSettled { post_key: bool },
    PostKeySettled,
}

/// How a completed session is closed.
#[derive(Clone, Copy, Debug, PartialEq, Eq, Structural)]
pub enum Closing {
    /// The audio source was refused: a failure is recorded, or the session is stale.
    SourceRefused(IntegrityCheck),
    /// There was no recogniser to ask.
    NoRecogniser,
    /// The provider failed, and so did the replay.
    ReplayFailed { network_blamed: bool },
    /// The provider failed, and the replay took too long.
    ReplayTimedOut,
    /// The recogniser failed.
    RecogniserFailed { asr: ActiveAsr },
    /// The recogniser took too long.
    RecogniserTimedOut { asr: ActiveAsr },
    /// The user cancelled while the local recogniser worked.
    LocalCancelled,
    /// The user cancelled before the text was made.
    Cancelled,
    /// A wake phrase was followed by nothing.
    WakeOnlyExpired,
    /// Nothing was recognised.
    EmptyTranscript,
    /// The user cancelled before the text was inserted.
    OutputDiscarded,
    /// The text was delivered and recorded.
    Completed,
}

/// The outside work that is to be done next.
#[derive(Clone, Copy, Debug, PartialEq, Eq, Structural)]
pub enum FinishAction {
    CheckSourceIntegrity(IntegrityBoundary),
    StopRecorderAndTakeRecogniser,
    AwaitTranscript { global_timeout: bool },
    /// The primary stream is cancelled first.
    ReplayRetainedAudio,
    ProbeNetwork,
    CheckCancelled,
    CollectCandidates,
    /// The primary stream is cancelled first.
    RetryEmptyFinal,
    AwaitShadow { budget_ms: u64 },
    /// The preview that was made before only the owner counted is dropped first where
    /// `invalidate_preview` says so.
    Arbitrate { invalidate_preview: bool },
    ChooseText,
    PrepareText(TextRoute),
    BeginInsertion,
    ReadEarlyDelivery,
    CommitComposition,
    CancelComposition,
    /// Hand the text to an input mechanism.
    Dispatch,
    /// Record that an open composition took the text.
    RecordComposition,
    /// Record that the early text stands and nothing more was sent.
    RecordEarlyTextOnly,
    RetainClipboard,
    DecidePostKey,
    SendPostKey,
    Close(Closing),
}

/// One step of the completion.
#[derive(Clone, Copy, Debug, PartialEq, Eq, Structural)]
pub struct FinishStep {
    pub stage: FinishStage,
    pub action: FinishAction,
}

/// The events that can arrive in a stage.
pub open spec fn awaits(stage: FinishStage, event: FinishEvent) -> bool {
    match stage {
        FinishStage::GateBeforeAsr => event is IntegrityChecked,
        FinishStage::Recogniser => event is RecogniserTaken,
        FinishStage::Transcript { asr } => event is TranscriptReady || event is TranscriptFailed,
        FinishStage::GateBeforeReplay => event is IntegrityChecked,
        FinishStage::Replay => event is ReplayReady || event is ReplayFailed
            || event is ReplayTimedOut,
        FinishStage::Probe => event is NetworkProbed,
        FinishStage::LocalCancelCheck => event is CancelChecked,
        FinishStage::GateBeforeErrorClose { asr, timed_out } => event is IntegrityChecked,
        FinishStage::GateAfterFinal { asr } => event is IntegrityChecked,
        FinishStage::CancelCheck { asr } => event is CancelChecked,
        FinishStage::Candidates { asr } => event is CandidatesCollected,
        FinishStage::EmptyRetry => event is EmptyFinalRetried,
        FinishStage::Shadow => event is ShadowSettled,
        FinishStage::Arbitration => event is Arbitrated,
        FinishStage::TextChoice => event is TextChosen,
        FinishStage::Polish => event is TextPrepared,
        FinishStage::Insertion => event is InsertionDecided,
        FinishStage::EarlyDelivery => event is EarlyDeliveryRead,
        FinishStage::Composition { must_not_send } => event is CompositionSettled,
        FinishStage::Dispatch => event is Delivered,
        FinishStage::Clipboard => event is ClipboardSettled,
        FinishStage::PostKey => event is PostKeySettled,
        FinishStage::Done => false,
    }
}

/// Whether an event can arrive in a stage.
pub fn event_is_awaited(stage: FinishStage, event: FinishEvent) -> (r: bool)
    ensures
        r == awaits(stage, event),
{
    match stage {
        FinishStage::GateBeforeAsr | FinishStage::GateBeforeReplay
        | FinishStage::GateBeforeErrorClose { .. } | FinishStage::GateAfterFinal { .. } => matches!(
            event,
            FinishEvent::IntegrityChecked(_)
        ),
        FinishStage::Recogniser => matches!(event, FinishEvent::RecogniserTaken(_)),
        FinishStage::Transcript { .. } => matches!(
            event,
            FinishEvent::TranscriptReady | FinishEvent::TranscriptFailed { .. }
        ),
        FinishStage::Replay => matches!(
            event,
            FinishEvent::ReplayReady | FinishEvent::ReplayFailed | FinishEvent::ReplayTimedOut
        ),
        FinishStage::Probe => matches!(event, FinishEvent::NetworkProbed { .. }),
        FinishStage::LocalCancelCheck | FinishStage::CancelCheck { .. } => matches!(
            event,
            FinishEvent::CancelChecked { .. }
        ),
        FinishStage::Candidates { .. } => matches!(event, FinishEvent::CandidatesCollected(_)),
        FinishStage::EmptyRetry => matches!(event, FinishEvent::EmptyFinalRetried { .. }),
        FinishStage::Shadow => matches!(event, FinishEvent::ShadowSettled),
        FinishStage::Arbitration => matches!(event, FinishEvent::Arbitrated { .. }),
        FinishStage::TextChoice => matches!(event, FinishEvent::TextChosen(_)),
        FinishStage::Polish => matches!(event, FinishEvent::TextPrepared),
        FinishStage::Insertion => matches!(event, FinishEvent::InsertionDecided { .. }),
        FinishStage::EarlyDelivery => matches!(event, FinishEvent::EarlyDeliveryRead(_)),
        FinishStage::Composition { .. } => matches!(event, FinishEvent::CompositionSettled { .. }),
        FinishStage::Dispatch => matches!(event, FinishEvent::Delivered { .. }),
        FinishStage::Clipboard => matches!(event, FinishEvent::ClipboardSettled { .. }),
        FinishStage::PostKey => matches!(event, FinishEvent::PostKeySettled),
        FinishStage::Done => false,
    }
}

/// The end of a completion.
pub open spec fn closed_with(closing: Closing) -> FinishStep {
    FinishStep { stage: FinishStage::Done, action: FinishAction::Close(closing) }
}

/// Go on to `stage` with `action`.
pub open spec fn go(stage: FinishStage, action: FinishAction) -> FinishStep {
    FinishStep { stage, action }
}

/// After a check of the audio source: stop, or go on as `onward` says.
pub open spec fn unless_refused(check: IntegrityCheck, onward: FinishStep) -> FinishStep {
    if check.stops() {
        closed_with(Closing::SourceRefused(check))
    } else {
        onward
    }
}

/// Wait for a shadow decode that may still help, or arbitrate at once.
pub open spec fn shadow_or_arbitrate(
    has_base_text: bool,
    filter_required: bool,
    elapsed_ms: Option<u64>,
) -> FinishStep {
    match shadow_wait(has_base_text, filter_required, elapsed_ms) {
        Some(budget_ms) => go(
            FinishStage::Shadow,
            FinishAction::AwaitShadow { budget_ms },
        ),
        None => go(
            FinishStage::Arbitration,
            FinishAction::Arbitrate { invalidate_preview: filter_required },
        ),
    }
}

/// The delivery itself, once no composition took the text.
pub open spec fn send_or_keep_early(contaminated: bool, must_not_send: bool) -> FinishStep {
    go(
        FinishStage::Dispatch,
        if contaminated || must_not_send {
            FinishAction::RecordEarlyTextOnly
        } else {
            FinishAction::Dispatch
        },
    )
}

/// The step that follows an event.
pub open spec fn next(stage: FinishStage, event: FinishEvent) -> FinishStep {
    match (stage, event) {
        (FinishStage::GateBeforeAsr, FinishEvent::IntegrityChecked(check)) => unless_refused(
            check,
            go(FinishStage::Recogniser, FinishAction::StopRecorderAndTakeRecogniser),
        ),
        (FinishStage::Recogniser, FinishEvent::RecogniserTaken(Some(asr))) => go(
            FinishStage::Transcript { asr },
            FinishAction::AwaitTranscript {
                global_timeout: asr != ActiveAsr::FoundryLocalWhisper,
            },
        ),
        (FinishStage::Recogniser, _) => closed_with(Closing::NoRecogniser),
        (FinishStage::Transcript { asr }, FinishEvent::TranscriptReady) => go(
            FinishStage::GateAfterFinal { asr },
            FinishAction::CheckSourceIntegrity(IntegrityBoundary::AfterProviderFinal),
        ),
        (
            FinishStage::Transcript { asr },
            FinishEvent::TranscriptFailed { permits_replay, global_timeout },
        ) => if asr == ActiveAsr::Volcengine && permits_replay {
            go(
                FinishStage::GateBeforeReplay,
                FinishAction::CheckSourceIntegrity(IntegrityBoundary::BeforeReplay),
            )
        } else if asr == ActiveAsr::FoundryLocalWhisper {
            go(FinishStage::LocalCancelCheck, FinishAction::CheckCancelled)
        } else {
            go(
                FinishStage::GateBeforeErrorClose { asr, timed_out: global_timeout },
                FinishAction::CheckSourceIntegrity(IntegrityBoundary::BeforeErrorClose),
            )
        },
        (FinishStage::GateBeforeReplay, FinishEvent::IntegrityChecked(check)) => unless_refused(
            check,
            go(FinishStage::Replay, FinishAction::ReplayRetainedAudio),
        ),
        (FinishStage::Replay, FinishEvent::ReplayReady) => go(
            FinishStage::GateAfterFinal { asr: ActiveAsr::Volcengine },
            FinishAction::CheckSourceIntegrity(IntegrityBoundary::AfterProviderFinal),
        ),
        (FinishStage::Replay, FinishEvent::ReplayTimedOut) => closed_with(Closing::ReplayTimedOut),
        (FinishStage::Replay, _) => go(FinishStage::Probe, FinishAction::ProbeNetwork),
        (FinishStage::Probe, FinishEvent::NetworkProbed { reachable_or_unknown }) => closed_with(
            Closing::ReplayFailed { network_blamed: !reachable_or_unknown },
        ),
        (FinishStage::LocalCancelCheck, FinishEvent::CancelChecked { cancelled }) =>
            if cancelled {
                closed_with(Closing::LocalCancelled)
            } else {
                go(
                    FinishStage::GateBeforeErrorClose {
                        asr: ActiveAsr::FoundryLocalWhisper,
                        timed_out: false,
                    },
                    FinishAction::CheckSourceIntegrity(IntegrityBoundary::BeforeErrorClose),
                )
            },
        (
            FinishStage::GateBeforeErrorClose { asr, timed_out },
            FinishEvent::IntegrityChecked(check),
        ) => unless_refused(
            check,
            closed_with(
                if timed_out {
                    Closing::RecogniserTimedOut { asr }
                } else {
                    Closing::RecogniserFailed { asr }
                },
            ),
        ),
        (FinishStage::GateAfterFinal { asr }, FinishEvent::IntegrityChecked(check)) =>
            unless_refused(
                check,
                go(FinishStage::CancelCheck { asr }, FinishAction::CheckCancelled),
            ),
        (FinishStage::CancelCheck { asr }, FinishEvent::CancelChecked { cancelled }) =>
            if cancelled {
                closed_with(Closing::Cancelled)
            } else {
                go(FinishStage::Candidates { asr }, FinishAction::CollectCandidates)
            },
        (FinishStage::Candidates { asr }, FinishEvent::CandidatesCollected(facts)) =>
            if facts.retries_empty_final(asr) {
                go(FinishStage::EmptyRetry, FinishAction::RetryEmptyFinal)
            } else {
                shadow_or_arbitrate(
                    !facts.primary_blank || facts.separated_has_text,
                    facts.filter_required,
                    facts.shadow_elapsed_ms,
                )
            },
        (
            FinishStage::EmptyRetry,
            FinishEvent::EmptyFinalRetried { recovered, shadow_elapsed_ms },
        ) => shadow_or_arbitrate(recovered, false, shadow_elapsed_ms),
        (FinishStage::Shadow, _) => go(
            FinishStage::Arbitration,
            FinishAction::Arbitrate { invalidate_preview: false },
        ),
        (
            FinishStage::Arbitration,
            FinishEvent::Arbitrated { blank, automatic_wake, body_started },
        ) => if !blank {
            go(FinishStage::TextChoice, FinishAction::ChooseText)
        } else if automatic_wake && !body_started {
            closed_with(Closing::WakeOnlyExpired)
        } else {
            closed_with(Closing::EmptyTranscript)
        },
        (FinishStage::TextChoice, FinishEvent::TextChosen(facts)) => go(
            FinishStage::Polish,
            FinishAction::PrepareText(facts.route()),
        ),
        (FinishStage::Polish, _) => go(FinishStage::Insertion, FinishAction::BeginInsertion),
        (FinishStage::Insertion, FinishEvent::InsertionDecided { applied }) => if applied {
            go(FinishStage::EarlyDelivery, FinishAction::ReadEarlyDelivery)
        } else {
            closed_with(Closing::OutputDiscarded)
        },
        (FinishStage::EarlyDelivery, FinishEvent::EarlyDeliveryRead(facts)) =>
            if facts.composition_active {
                go(
                    FinishStage::Composition { must_not_send: facts.must_not_send() },
                    if facts.cancels_composition() {
                        FinishAction::CancelComposition
                    } else {
                        FinishAction::CommitComposition
                    },
                )
            } else {
                send_or_keep_early(facts.composition_contaminated, facts.must_not_send())
            },
        (
            FinishStage::Composition { must_not_send },
            FinishEvent::CompositionSettled { finalized, contaminated },
        ) => if finalized {
            go(FinishStage::Dispatch, FinishAction::RecordComposition)
        } else {
            send_or_keep_early(contaminated, must_not_send)
        },
        (FinishStage::Dispatch, FinishEvent::Delivered { retain_on_clipboard }) => go(
            FinishStage::Clipboard,
            if retain_on_clipboard {
                FinishAction::RetainClipboard
            } else {
                FinishAction::DecidePostKey
            },
        ),
        (FinishStage::Clipboard, FinishEvent::ClipboardSettled { post_key }) => if post_key {
            go(FinishStage::PostKey, FinishAction::SendPostKey)
        } else {
            closed_with(Closing::Completed)
        },
        _ => closed_with(Closing::Completed),
    }
}

fn close(closing: Closing) -> (r: FinishStep)
    ensures
        r == closed_with(closing),
{
    FinishStep { stage: FinishStage::Done, action: FinishAction::Close(closing) }
}

fn on(stage: FinishStage, action: FinishAction) -> (r: FinishStep)
    ensures
        r == go(stage, action),
{
    FinishStep { stage, action }
}

fn gated(check: IntegrityCheck, onward: FinishStep) -> (r: FinishStep)
    ensures
        r == unless_refused(check, onward),
{
    if check == IntegrityCheck::Proceed {
        onward
    } else {
        close(Closing::SourceRefused(check))
    }
}

fn after_candidates(has_base_text: bool, filter_required: bool, elapsed_ms: Option<u64>) -> (r:
    FinishStep)
    ensures
        r == shadow_or_arbitrate(has_base_text, filter_required, elapsed_ms),
{
    match shadow_wait_ms(has_base_text, filter_required, elapsed_ms) {
        Some(budget_ms) => on(
            FinishStage::Shadow,
            FinishAction::AwaitShadow { budget_ms },
        ),
        None => on(
            FinishStage::Arbitration,
            FinishAction::Arbitrate { invalidate_preview: filter_required },
        ),
    }
}

fn dispatch_or_keep(contaminated: bool, must_not_send: bool) -> (r: FinishStep)
    ensures
        r == send_or_keep_early(contaminated, must_not_send),
{
    if contaminated || must_not_send {
        on(FinishStage::Dispatch, FinishAction::RecordEarlyTextOnly)
    } else {
        on(FinishStage::Dispatch, FinishAction::Dispatch)
    }
}

fn must_not_send(facts: EarlyFacts) -> (r: bool)
    ensures
        r == facts.must_not_send(),
{
    match facts.early {
        EarlyText::Covered => true,
        EarlyText::Rewritten => true,
        EarlyText::Nothing => facts.ever_delivered,
        EarlyText::Remainder => false,
        EarlyText::Recovered => false,
    }
}

fn retries_empty_final(facts: CandidateFacts, asr: ActiveAsr) -> (r: bool)
    ensures
        r == facts.retries_empty_final(asr),
{
    let speech: bool = facts.sustained_speech || (!facts.automatic_wake && facts.some_speech);
    asr == ActiveAsr::Volcengine && facts.primary_blank && !facts.separated_has_text
        && !facts.filter_required && speech
}

/// Begins the completion of the session that accepted a stop: its first step.  A stop that was
/// ignored, or that applied to no session, completes nothing.
pub fn finish_end_session_after_stop_transition(transition: DictationTransition) -> (r: Option<
    (SessionId, FinishStep),
>)
    ensures
        r == (match transition {
            DictationTransition::Applied { session_id: Some(session_id) } => Some(
                (session_id, first_step()),
            ),
            _ => None,
        }),
{
    match transition {
        DictationTransition::Applied { session_id: Some(session_id) } => Some(
            (
                session_id,
                on(
                    FinishStage::GateBeforeAsr,
                    FinishAction::CheckSourceIntegrity(IntegrityBoundary::BeforeAsrFinalization),
                ),
            ),
        ),
        _ => None,
    }
}

/// What became of an event that was put to a session.
#[derive(Clone, Copy, Debug, PartialEq, Eq, Structural)]
pub enum DictationTransition {
    /// The event did not fit the session.
    Ignored,
    /// The event changed a session, where `session_id` names one.
    Applied { session_id: Option<SessionId> },
}

/// The first step of a completion.
pub open spec fn first_step() -> FinishStep {
    go(
        FinishStage::GateBeforeAsr,
        FinishAction::CheckSourceIntegrity(IntegrityBoundary::BeforeAsrFinalization),
    )
}

/// The step of a completion that follows an event.
pub fn finish_end_session_after_stop_transition_with_source_integrity(
    stage: FinishStage,
    event: FinishEvent,
) -> (r: FinishStep)
    requires
        awaits(stage, event),
    ensures
        r == next(stage, event),
{
    match (stage, event) {
        (FinishStage::GateBeforeAsr, FinishEvent::IntegrityChecked(check)) => gated(
            check,
            on(FinishStage::Recogniser, FinishAction::StopRecorderAndTakeRecogniser),
        ),
        (FinishStage::Recogniser, FinishEvent::RecogniserTaken(taken)) => match taken {
            Some(asr) => on(
                FinishStage::Transcript { asr },
                FinishAction::AwaitTranscript {
                    global_timeout: asr_transcribe_uses_global_timeout(&asr),
                },
            ),
            None => close(Closing::NoRecogniser),
        },
        (FinishStage::Transcript { asr }, FinishEvent::TranscriptReady) => on(
            FinishStage::GateAfterFinal { asr },
            FinishAction::CheckSourceIntegrity(IntegrityBoundary::AfterProviderFinal),
        ),
        (
            FinishStage::Transcript { asr },
            FinishEvent::TranscriptFailed { permits_replay, global_timeout },
        ) => {
            if asr == ActiveAsr::Volcengine && permits_replay {
                on(
                    FinishStage::GateBeforeReplay,
                    FinishAction::CheckSourceIntegrity(IntegrityBoundary::BeforeReplay),
                )
            } else if asr == ActiveAsr::FoundryLocalWhisper {
                on(FinishStage::LocalCancelCheck, FinishAction::CheckCancelled)
            } else {
                on(
                    FinishStage::GateBeforeErrorClose { asr, timed_out: global_timeout },
                    FinishAction::CheckSourceIntegrity(IntegrityBoundary::BeforeErrorClose),
                )
            }
        },
        (FinishStage::GateBeforeReplay, FinishEvent::IntegrityChecked(check)) => gated(
            check,
            on(FinishStage::Replay, FinishAction::ReplayRetainedAudio),
        ),
        (FinishStage::Replay, FinishEvent::ReplayReady) => on(
            FinishStage::GateAfterFinal { asr: ActiveAsr::Volcengine },
            FinishAction::CheckSourceIntegrity(IntegrityBoundary::AfterProviderFinal),
        ),
        (FinishStage::Replay, FinishEvent::ReplayTimedOut) => close(Closing::ReplayTimedOut),
        (FinishStage::Replay, _) => on(FinishStage::Probe, FinishAction::ProbeNetwork),
        (FinishStage::Probe, FinishEvent::NetworkProbed { reachable_or_unknown }) => close(
            Closing::ReplayFailed { network_blamed: !reachable_or_unknown },
        ),
        (FinishStage::LocalCancelCheck, FinishEvent::CancelChecked { cancelled }) => {
            if cancelled {
                close(Closing::LocalCancelled)
            } else {
                on(
                    FinishStage::GateBeforeErrorClose {
                        asr: ActiveAsr::FoundryLocalWhisper,
                        timed_out: false,
                    },
                    FinishAction::CheckSourceIntegrity(IntegrityBoundary::BeforeErrorClose),
                )
            }
        },
        (
            FinishStage::GateBeforeErrorClose { asr, timed_out },
            FinishEvent::IntegrityChecked(check),
        ) => {
            let onward: FinishStep = if timed_out {
                close(Closing::RecogniserTimedOut { asr })
            } else {
                close(Closing::RecogniserFailed { asr })
            };
            gated(check, onward)
        },
        (FinishStage::GateAfterFinal { asr }, FinishEvent::IntegrityChecked(check)) => gated(
            check,
            on(FinishStage::CancelCheck { asr }, FinishAction::CheckCancelled),
        ),
        (FinishStage::CancelCheck { asr }, FinishEvent::CancelChecked { cancelled }) => {
            if cancelled {
                close(Closing::Cancelled)
            } else {
                on(FinishStage::Candidates { asr }, FinishAction::CollectCandidates)
            }
        },
        (FinishStage::Candidates { asr }, FinishEvent::CandidatesCollected(facts)) => {
            if retries_empty_final(facts, asr) {
                on(FinishStage::EmptyRetry, FinishAction::RetryEmptyFinal)
            } else {
                after_candidates(
                    !facts.primary_blank || facts.separated_has_text,
                    facts.filter_required,
                    facts.shadow_elapsed_ms,
                )
            }
        },
        (
            FinishStage::EmptyRetry,
            FinishEvent::EmptyFinalRetried { recovered, shadow_elapsed_ms },
        ) => after_candidates(recovered, false, shadow_elapsed_ms),
        (FinishStage::Shadow, _) => on(
            FinishStage::Arbitration,
            FinishAction::Arbitrate { invalidate_preview: false },
        ),
        (
            FinishStage::Arbitration,
            FinishEvent::Arbitrated { blank, automatic_wake, body_started },
        ) => {
            if !blank {
                on(FinishStage::TextChoice, FinishAction::ChooseText)
            } else if automatic_wake && !body_started {
                close(Closing::WakeOnlyExpired)
            } else {
                close(Closing::EmptyTranscript)
            }
        },
        (FinishStage::TextChoice, FinishEvent::TextChosen(facts)) => on(
            FinishStage::Polish,
            FinishAction::PrepareText(choose_text_route(facts)),
        ),
        (FinishStage::Polish, _) => on(FinishStage::Insertion, FinishAction::BeginInsertion),
        (FinishStage::Insertion, FinishEvent::InsertionDecided { applied }) => {
            if applied {
                on(FinishStage::EarlyDelivery, FinishAction::ReadEarlyDelivery)
            } else {
                close(Closing::OutputDiscarded)
            }
        },
        (FinishStage::EarlyDelivery, FinishEvent::EarlyDeliveryRead(facts)) => {
            let hold: bool = must_not_send(facts);
            if !facts.composition_active {
                return dispatch_or_keep(facts.composition_contaminated, hold);
            }
            let abandon: bool = facts.early == EarlyText::Rewritten || (facts.early
                == EarlyText::Nothing && facts.ever_delivered);
            on(
                FinishStage::Composition { must_not_send: hold },
                if abandon {
                    FinishAction::CancelComposition
                } else {
                    FinishAction::CommitComposition
                },
            )
        },
        (
            FinishStage::Composition { must_not_send },
            FinishEvent::CompositionSettled { finalized, contaminated },
        ) => {
            if finalized {
                on(FinishStage::Dispatch, FinishAction::RecordComposition)
            } else {
                dispatch_or_keep(contaminated, must_not_send)
            }
        },
        (FinishStage::Dispatch, FinishEvent::Delivered { retain_on_clipboard }) => on(
            FinishStage::Clipboard,
            if retain_on_clipboard {
                FinishAction::RetainClipboard
            } else {
                FinishAction::DecidePostKey
            },
        ),
        (FinishStage::Clipboard, FinishEvent::ClipboardSettled { post_key }) => {
            if post_key {
                on(FinishStage::PostKey, FinishAction::SendPostKey)
            } else {
                close(Closing::Completed)
            }
        },
        _ => close(Closing::Completed),
    }
}

impl Closing {
    /// Whether the caller learns of an error.
    pub open spec fn is_error(self) -> bool {
        match self {
            Closing::ReplayFailed { network_blamed } => true,
            Closing::ReplayTimedOut => true,
            Closing::RecogniserFailed { asr } => true,
            Closing::RecogniserTimedOut { asr } => true,
            Closing::EmptyTranscript => true,
            _ => false,
        }
    }

    /// What the user is told, given the provider's own words in `detail` and the words for the
    /// state of the network in `network`.
    pub open spec fn notice(self, detail: Seq<char>, network: Seq<char>) -> Option<Seq<char>> {
        match self {
            Closing::ReplayFailed { network_blamed } => if network_blamed {
                Some(network + "，本次识别未能恢复"@)
            } else {
                Some("识别恢复失败: "@ + detail)
            },
            Closing::ReplayTimedOut => Some("识别恢复超时"@),
            Closing::RecogniserFailed { asr } => if asr == ActiveAsr::FoundryLocalWhisper || asr
                == ActiveAsr::Local {
                Some("本地识别失败: "@ + detail)
            } else {
                Some("识别失败: "@ + detail)
            },
            Closing::RecogniserTimedOut { asr } => Some("识别超时"@),
            Closing::EmptyTranscript => Some("没有识别到语音"@),
            _ => None,
        }
    }

    /// What the caller is told, given the provider's own words in `detail`.
    pub open spec fn error(self, detail: Seq<char>) -> Option<Seq<char>> {
        match self {
            Closing::ReplayFailed { network_blamed } => Some(detail),
            Closing::ReplayTimedOut => Some("recovery replay timeout"@),
            Closing::RecogniserFailed { asr } => Some(detail),
            Closing::RecogniserTimedOut { asr } => match asr {
                ActiveAsr::Whisper => Some("whisper global timeout"@),
                ActiveAsr::Bailian => Some("bailian global timeout"@),
                ActiveAsr::Local => Some("local global timeout"@),
                _ => Some(detail),
            },
            Closing::EmptyTranscript => Some("ASR returned empty transcript"@),
            _ => None,
        }
    }

    /// What the user is told when the session is closed this way.
    pub fn user_notice(self, detail: &str, network: &str) -> (r: Option<String>)
        ensures
            r is Some <==> self.notice(detail@, network@) is Some,
            r matches Some(s) ==> s@ == self.notice(detail@, network@)->0,
    {
        match self {
            Closing::ReplayFailed { network_blamed } => if network_blamed {
                Some(network.to_owned().concat("，本次识别未能恢复"))
            } else {
                Some("识别恢复失败: ".to_owned().concat(detail))
            },
            Closing::ReplayTimedOut => Some("识别恢复超时".to_owned()),
            Closing::RecogniserFailed { asr } => if asr == ActiveAsr::FoundryLocalWhisper || asr
                == ActiveAsr::Local {
                Some("本地识别失败: ".to_owned().concat(detail))
            } else {
                Some("识别失败: ".to_owned().concat(detail))
            },
            Closing::RecogniserTimedOut { asr: _ } => Some("识别超时".to_owned()),
            Closing::EmptyTranscript => Some("没有识别到语音".to_owned()),
            _ => None,
        }
    }

    /// The outcome of the completion for its caller.
    pub fn outcome(self, detail: &str) -> (r: Result<(), String>)
        ensures
            r is Err <==> self.is_error(),
            r matches Err(s) ==> s@ == self.error(detail@)->0,
    {
        match self {
            Closing::ReplayFailed { network_blamed: _ } => Err(detail.to_owned()),
            Closing::ReplayTimedOut => Err("recovery replay timeout".to_owned()),
            Closing::RecogniserFailed { asr: _ } => Err(detail.to_owned()),
            Closing::RecogniserTimedOut { asr } => match asr {
                ActiveAsr::Whisper => Err("whisper global timeout".to_owned()),
                ActiveAsr::Bailian => Err("bailian global timeout".to_owned()),
                ActiveAsr::Local => Err("local global timeout".to_owned()),
                _ => Err(detail.to_owned()),
            },
            Closing::EmptyTranscript => Err("ASR returned empty transcript".to_owned()),
            _ => Ok(()),
        }
    }

    /// Whether the provider's stream is cancelled when the session is closed this way.
    pub fn cancels_stream(self) -> (r: bool)
        ensures
            r == (self == (Closing::RecogniserFailed { asr: ActiveAsr::Volcengine }) || self == (
            Closing::RecogniserTimedOut { asr: ActiveAsr::Volcengine }) || self == (
            Closing::RecogniserTimedOut { asr: ActiveAsr::Bailian })),
    {
        match self {
            Closing::RecogniserFailed { asr: ActiveAsr::Volcengine } => true,
            Closing::RecogniserTimedOut { asr: ActiveAsr::Volcengine } => true,
            Closing::RecogniserTimedOut { asr: ActiveAsr::Bailian } => true,
            _ => false,
        }
    }

    /// Whether the Windows local recogniser is scheduled for release by this closing.
    pub fn releases_foundry(self) -> (r: bool)
        ensures
            r == (self == Closing::LocalCancelled || self == (Closing::RecogniserFailed {
                asr: ActiveAsr::FoundryLocalWhisper,
            })),
    {
        match self {
            Closing::LocalCancelled => true,
            Closing::RecogniserFailed { asr: ActiveAsr::FoundryLocalWhisper } => true,
            _ => false,
        }
    }

    /// Whether the prepared text-service session is given back by this closing, rather than by
    /// the delivery before it or by the error path.
    pub fn restores_text_service(self) -> (r: bool)
        ensures
            r == (self == Closing::NoRecogniser || self == Closing::LocalCancelled || self
                == Closing::Cancelled || self == Closing::WakeOnlyExpired || self
                == Closing::EmptyTranscript || self == Closing::OutputDiscarded),
    {
        match self {
            Closing::NoRecogniser | Closing::LocalCancelled | Closing::Cancelled
            | Closing::WakeOnlyExpired | Closing::EmptyTranscript | Closing::OutputDiscarded => true,
            _ => false,
        }
    }
}

/// The local recogniser that is scheduled for release because of an event.  The macOS recogniser is
/// released however its transcription ended.  The Windows one is released with its transcript,
/// when the user cancelled, and when its failure is reported, but not when the audio source was
/// refused.
pub open spec fn released_by(stage: FinishStage, event: FinishEvent) -> Option<ActiveAsr> {
    match (stage, event) {
        (FinishStage::Transcript { asr: ActiveAsr::Local }, FinishEvent::TranscriptReady) => Some(
            ActiveAsr::Local,
        ),
        (FinishStage::Transcript { asr: ActiveAsr::Local }, FinishEvent::TranscriptFailed { .. }) =>
            Some(ActiveAsr::Local),
        (
            FinishStage::Transcript { asr: ActiveAsr::FoundryLocalWhisper },
            FinishEvent::TranscriptReady,
        ) => Some(ActiveAsr::FoundryLocalWhisper),
        (FinishStage::LocalCancelCheck, FinishEvent::CancelChecked { cancelled: true }) => Some(
            ActiveAsr::FoundryLocalWhisper,
        ),
        (
            FinishStage::GateBeforeErrorClose {
                asr: ActiveAsr::FoundryLocalWhisper,
                timed_out: false,
            },
            FinishEvent::IntegrityChecked(IntegrityCheck::Proceed),
        ) => Some(ActiveAsr::FoundryLocalWhisper),
        _ => None,
    }
}

/// The local recogniser that is to be scheduled for release because of an event.
pub fn schedule_local_recogniser_release(stage: FinishStage, event: FinishEvent) -> (r: Option<
    ActiveAsr,
>)
    ensures
        r == released_by(stage, event),
{
    match (stage, event) {
        (FinishStage::Transcript { asr: ActiveAsr::Local }, FinishEvent::TranscriptReady) => Some(
            ActiveAsr::Local,
        ),
        (FinishStage::Transcript { asr: ActiveAsr::Local }, FinishEvent::TranscriptFailed { .. }) =>
            Some(ActiveAsr::Local),
        (
            FinishStage::Transcript { asr: ActiveAsr::FoundryLocalWhisper },
            FinishEvent::TranscriptReady,
        ) => Some(ActiveAsr::FoundryLocalWhisper),
        (FinishStage::LocalCancelCheck, FinishEvent::CancelChecked { cancelled: true }) => Some(
            ActiveAsr::FoundryLocalWhisper,
        ),
        (
            FinishStage::GateBeforeErrorClose {
                asr: ActiveAsr::FoundryLocalWhisper,
                timed_out: false,
            },
            FinishEvent::IntegrityChecked(IntegrityCheck::Proceed),
        ) => Some(ActiveAsr::FoundryLocalWhisper),
        _ => None,
    }
}

/// A local recogniser that was asked is released: the macOS one as soon as its transcription has
/// ended, the Windows one with its transcript or with the closing that ends its session.
pub proof fn a_local_recogniser_is_released(stage: FinishStage, event: FinishEvent)
    requires
        awaits(stage, event),
    ensures
        stage == (FinishStage::Transcript { asr: ActiveAsr::Local }) <==> released_by(stage, event)
            == Some(ActiveAsr::Local),
        released_by(stage, event) == Some(ActiveAsr::FoundryLocalWhisper) <==> (stage == (
        FinishStage::Transcript { asr: ActiveAsr::FoundryLocalWhisper }) && event
            is TranscriptReady) || (next(stage, event).action matches FinishAction::Close(closing)
            && (closing == Closing::LocalCancelled || closing == (Closing::RecogniserFailed {
            asr: ActiveAsr::FoundryLocalWhisper,
        }))),
{
}

/// How many steps a completion can still take.
pub open spec fn steps_left(stage: FinishStage) -> nat {
    match stage {
        FinishStage::GateBeforeAsr => 21,
        FinishStage::Recogniser => 20,
        FinishStage::Transcript { asr } => 19,
        FinishStage::GateBeforeReplay => 18,
        FinishStage::Replay => 17,
        FinishStage::Probe => 1,
        FinishStage::LocalCancelCheck => 2,
        FinishStage::GateBeforeErrorClose { asr, timed_out } => 1,
        FinishStage::GateAfterFinal { asr } => 16,
        FinishStage::CancelCheck { asr } => 15,
        FinishStage::Candidates { asr } => 14,
        FinishStage::EmptyRetry => 13,
        FinishStage::Shadow => 12,
        FinishStage::Arbitration => 11,
        FinishStage::TextChoice => 10,
        FinishStage::Polish => 9,
        FinishStage::Insertion => 8,
        FinishStage::EarlyDelivery => 7,
        FinishStage::Composition { must_not_send } => 6,
        FinishStage::Dispatch => 5,
        FinishStage::Clipboard => 4,
        FinishStage::PostKey => 3,
        FinishStage::Done => 0,
    }
}

/// Every completion ends: each step leaves fewer to come, and only the last one closes.
pub proof fn completion_always_ends(stage: FinishStage, event: FinishEvent)
    requires
        awaits(stage, event),
    ensures
        steps_left(next(stage, event).stage) < steps_left(stage),
        next(stage, event).stage == FinishStage::Done <==> next(stage, event).action is Close,
{
}

/// Whether every event of a history was awaited when it came.
pub open spec fn orderly(events: Seq<FinishEvent>) -> bool
    decreases events.len(),
{
    events.len() == 0 || (orderly(events.drop_last()) && awaits(
        reached(events.drop_last()).stage,
        events.last(),
    ))
}

/// The step that a completion has reached after a history of events.
pub open spec fn reached(events: Seq<FinishEvent>) -> FinishStep
    decreases events.len(),
{
    if events.len() == 0 {
        first_step()
    } else {
        next(reached(events.drop_last()).stage, events.last())
    }
}

/// Whether a step puts the text, or the record that the early text stands, into a delivery.
pub open spec fn delivers(action: FinishAction) -> bool {
    action is Dispatch || action is RecordComposition || action is RecordEarlyTextOnly
        || action is CommitComposition
}

/// The stages in which a text is being delivered or was delivered already.
pub open spec fn in_delivery(stage: FinishStage) -> bool {
    match stage {
        FinishStage::EarlyDelivery => true,
        FinishStage::Composition { must_not_send } => true,
        FinishStage::Dispatch => true,
        FinishStage::Clipboard => true,
        FinishStage::PostKey => true,
        _ => false,
    }
}

spec fn past_final_gate(stage: FinishStage) -> bool {
    match stage {
        FinishStage::CancelCheck { asr } => true,
        _ => past_cancel_check(stage),
    }
}

spec fn past_cancel_check(stage: FinishStage) -> bool {
    match stage {
        FinishStage::Candidates { asr } => true,
        FinishStage::EmptyRetry => true,
        FinishStage::Shadow => true,
        FinishStage::Arbitration => true,
        _ => past_arbitration(stage),
    }
}

spec fn past_arbitration(stage: FinishStage) -> bool {
    match stage {
        FinishStage::TextChoice => true,
        FinishStage::Polish => true,
        FinishStage::Insertion => true,
        _ => in_delivery(stage),
    }
}

/// What a history must hold before a text may be delivered: the audio source was cleared, the
/// session was not cancelled, the transcript was not blank, and the insertion was admitted.
pub open spec fn cleared_for_delivery(events: Seq<FinishEvent>) -> bool {
    &&& events.contains(FinishEvent::IntegrityChecked(IntegrityCheck::Proceed))
    &&& events.contains(FinishEvent::CancelChecked { cancelled: false })
    &&& events.contains(FinishEvent::InsertionDecided { applied: true })
    &&& exists|at: int| 0 <= at < events.len() && found_words(#[trigger] events[at])
}

/// Whether an event reports a transcript that holds words.
pub open spec fn found_words(event: FinishEvent) -> bool {
    event matches FinishEvent::Arbitrated { blank, .. } && !blank
}

proof fn lemma_contains_extends(events: Seq<FinishEvent>, event: FinishEvent)
    requires
        events.len() > 0,
        events.drop_last().contains(event),
    ensures
        events.contains(event),
{
    let at = choose|at: int| 0 <= at < events.drop_last().len() && events.drop_last()[at] == event;
    assert(events[at] == event);
}

proof fn lemma_history(events: Seq<FinishEvent>)
    requires
        orderly(events),
    ensures
        past_final_gate(reached(events).stage) ==> events.contains(
            FinishEvent::IntegrityChecked(IntegrityCheck::Proceed),
        ),
        past_cancel_check(reached(events).stage) ==> events.contains(
            FinishEvent::CancelChecked { cancelled: false },
        ),
        past_arbitration(reached(events).stage) ==> exists|at: int|
            0 <= at < events.len() && found_words(#[trigger] events[at]),
        in_delivery(reached(events).stage) ==> events.contains(
            FinishEvent::InsertionDecided { applied: true },
        ),
    decreases events.len(),
{
    if events.len() > 0 {
        let before = events.drop_last();
        let stage = reached(before).stage;
        let event = events.last();
        lemma_history(before);
        assert(events[events.len() - 1] == event);
        let clear = FinishEvent::IntegrityChecked(IntegrityCheck::Proceed);
        let kept = FinishEvent::CancelChecked { cancelled: false };
        let admitted = FinishEvent::InsertionDecided { applied: true };
        if before.contains(clear) {
            lemma_contains_extends(events, clear);
        }
        if before.contains(kept) {
            lemma_contains_extends(events, kept);
        }
        if before.contains(admitted) {
            lemma_contains_extends(events, admitted);
        }
        if past_arbitration(stage) {
            let at = choose|at: int| 0 <= at < before.len() && found_words(#[trigger] before[at]);
            assert(events[at] == before[at]);
        }
    }
}

/// Nothing is delivered unless the audio source was cleared, the session was not cancelled, the
/// transcript held words, and the insertion was admitted.
pub proof fn delivery_needs_clearance(events: Seq<FinishEvent>)
    requires
        orderly(events),
        delivers(reached(events).action),
    ensures
        cleared_for_delivery(events),
{
    lemma_history(events);
    if events.len() > 0 {
        lemma_history(events.drop_last());
        assert(in_delivery(reached(events).stage));
    }
}

/// Once the audio source is refused, the completion is over and nothing can follow.
pub proof fn a_refused_source_ends_the_session(events: Seq<FinishEvent>, check: IntegrityCheck)
    requires
        orderly(events),
        events.len() > 0,
        events.last() == FinishEvent::IntegrityChecked(check),
        check.stops(),
    ensures
        reached(events) == closed_with(Closing::SourceRefused(check)),
        forall|event: FinishEvent| !awaits(reached(events).stage, event),
{
}

/// A user who cancels before the text is made, or before it is inserted, sees nothing inserted.
pub proof fn a_cancelled_session_inserts_nothing(events: Seq<FinishEvent>)
    requires
        orderly(events),
        events.len() > 0,
        events.last() == (FinishEvent::CancelChecked { cancelled: true }) || events.last() == (
        FinishEvent::InsertionDecided { applied: false }),
    ensures
        reached(events).stage == FinishStage::Done,
        !delivers(reached(events).action),
{
}

/// A text is handed to an input mechanism at most once in a session.
pub proof fn a_text_is_dispatched_at_most_once(events: Seq<FinishEvent>, i: int, j: int)
    requires
        orderly(events),
        0 <= i <= events.len(),
        0 <= j <= events.len(),
        reached(events.take(i)).stage == FinishStage::Dispatch,
        reached(events.take(j)).stage == FinishStage::Dispatch,
    ensures
        i == j,
{
    if i < j {
        lemma_steps_shrink(events, i, j);
    } else if j < i {
        lemma_steps_shrink(events, j, i);
    }
}

proof fn lemma_orderly_prefix(events: Seq<FinishEvent>, n: int)
    requires
        orderly(events),
        0 <= n <= events.len(),
    ensures
        orderly(events.take(n)),
    decreases events.len(),
{
    if n == events.len() {
        assert(events.take(n) == events);
    } else {
        lemma_orderly_prefix(events.drop_last(), n);
        assert(events.drop_last().take(n) == events.take(n));
    }
}

proof fn lemma_steps_shrink(events: Seq<FinishEvent>, i: int, j: int)
    requires
        orderly(events),
        0 <= i < j <= events.len(),
    ensures
        steps_left(reached(events.take(j)).stage) < steps_left(reached(events.take(i)).stage),
    decreases j,
{
    lemma_orderly_prefix(events, j);
    let upto = events.take(j);
    assert(upto.drop_last() == events.take(j - 1));
    completion_always_ends(reached(upto.drop_last()).stage, upto.last());
    if i < j - 1 {
        lemma_steps_shrink(events, i, j - 1);
    }
}

/// Early text that covers the final text, was rewritten, or cannot be accounted for is never
/// followed by a second full insertion.
pub proof fn early_text_is_never_repeated(facts: EarlyFacts, finalized: bool, contaminated: bool)
    requires
        facts.early == EarlyText::Covered || facts.early == EarlyText::Rewritten || (facts.early
            == EarlyText::Nothing && facts.ever_delivered),
    ensures
        !(next(FinishStage::EarlyDelivery, FinishEvent::EarlyDeliveryRead(facts)).action
            is Dispatch),
        !(next(
            FinishStage::Composition { must_not_send: facts.must_not_send() },
            FinishEvent::CompositionSettled { finalized, contaminated },
        ).action is Dispatch),
{
}

/// A transcript that holds words goes on to become a text, whatever opened the session; only a
/// blank one ends it.  A blank one behind a wake phrase that no body followed expires quietly, and
/// any other is reported as empty.
pub proof fn words_are_never_thrown_away(
    stage: FinishStage,
    event: FinishEvent,
)
    requires
        awaits(stage, event),
    ensures
        event matches FinishEvent::Arbitrated { blank: false, .. } ==> next(stage, event).stage
            == FinishStage::TextChoice && next(stage, event).action == FinishAction::ChooseText,
        next(stage, event).action == FinishAction::Close(Closing::EmptyTranscript)
            || next(stage, event).action == FinishAction::Close(Closing::WakeOnlyExpired) ==> (
        event matches FinishEvent::Arbitrated { blank, .. } && blank),
        next(stage, event).action == FinishAction::Close(Closing::WakeOnlyExpired) <==> event == (
        FinishEvent::Arbitrated { blank: true, automatic_wake: true, body_started: false }),
        next(stage, event).action == FinishAction::ChooseText ==> event is Arbitrated,
{
}

/// Every way in which a completion can close, and what alone leads there.
pub proof fn each_closing_has_its_cause(stage: FinishStage, event: FinishEvent)
    requires
        awaits(stage, event),
    ensures
        ({
            let action = next(stage, event).action;
            &&& forall|check: IntegrityCheck| #[trigger]
                closed_by(action, Closing::SourceRefused(check)) <==> event
                    == FinishEvent::IntegrityChecked(check) && check != IntegrityCheck::Proceed
            &&& closed_by(action, Closing::NoRecogniser) <==> event
                == FinishEvent::RecogniserTaken(None)
            &&& forall|blamed: bool| #[trigger]
                closed_by(action, Closing::ReplayFailed { network_blamed: blamed }) <==> event == (
                FinishEvent::NetworkProbed { reachable_or_unknown: !blamed })
            &&& closed_by(action, Closing::ReplayTimedOut) <==> event
                == FinishEvent::ReplayTimedOut
            &&& forall|asr: ActiveAsr| #[trigger]
                closed_by(action, Closing::RecogniserFailed { asr }) <==> stage == (
                FinishStage::GateBeforeErrorClose { asr, timed_out: false }) && event
                    == FinishEvent::IntegrityChecked(IntegrityCheck::Proceed)
            &&& forall|asr: ActiveAsr| #[trigger]
                closed_by(action, Closing::RecogniserTimedOut { asr }) <==> stage == (
                FinishStage::GateBeforeErrorClose { asr, timed_out: true }) && event
                    == FinishEvent::IntegrityChecked(IntegrityCheck::Proceed)
            &&& closed_by(action, Closing::LocalCancelled) <==> stage
                == FinishStage::LocalCancelCheck && event == (FinishEvent::CancelChecked {
                cancelled: true,
            })
            &&& closed_by(action, Closing::Cancelled) <==> stage is CancelCheck && event == (
            FinishEvent::CancelChecked { cancelled: true })
            &&& closed_by(action, Closing::OutputDiscarded) <==> event == (
            FinishEvent::InsertionDecided { applied: false })
            &&& closed_by(action, Closing::Completed) <==> event == (
            FinishEvent::ClipboardSettled { post_key: false }) || event
                == FinishEvent::PostKeySettled
        }),
{
}

/// Whether an action closes a session in this way.
pub open spec fn closed_by(action: FinishAction, closing: Closing) -> bool {
    action == FinishAction::Close(closing)
}

/// The recogniser is asked once the audio source is cleared, and the coordinator bounds its time
/// unless it brings its own bound.  What it answers goes to the check behind the final, and with
/// it the recogniser that answered.
pub proof fn a_recogniser_is_asked_and_heard(asr: ActiveAsr)
    ensures
        next(
            FinishStage::GateBeforeAsr,
            FinishEvent::IntegrityChecked(IntegrityCheck::Proceed),
        ).stage == FinishStage::Recogniser,
        next(
            FinishStage::GateBeforeAsr,
            FinishEvent::IntegrityChecked(IntegrityCheck::Proceed),
        ).action == FinishAction::StopRecorderAndTakeRecogniser,
        ({
            let asked = next(FinishStage::Recogniser, FinishEvent::RecogniserTaken(Some(asr)));
            let heard = next(asked.stage, FinishEvent::TranscriptReady);
            let cleared = next(heard.stage, FinishEvent::IntegrityChecked(IntegrityCheck::Proceed));
            let kept = next(cleared.stage, FinishEvent::CancelChecked { cancelled: false });
            &&& asked.action == (FinishAction::AwaitTranscript {
                global_timeout: !(asr is FoundryLocalWhisper),
            })
            &&& heard.action == FinishAction::CheckSourceIntegrity(
                IntegrityBoundary::AfterProviderFinal,
            )
            &&& cleared.action == FinishAction::CheckCancelled
            &&& kept.action == FinishAction::CollectCandidates
            &&& kept.stage == (FinishStage::Candidates { asr })
        }),
{
}

/// A failed streaming recognition is replayed exactly where that is permitted, and a replay that
/// succeeds goes on like any other final; every other failure is reported, under the recogniser
/// that failed and as a timeout exactly where it was one, unless the user cancelled the Windows
/// recogniser meanwhile.
pub proof fn a_failed_recognition_is_replayed_or_reported(
    asr: ActiveAsr,
    permits_replay: bool,
    global_timeout: bool,
)
    ensures
        ({
            let clear = FinishEvent::IntegrityChecked(IntegrityCheck::Proceed);
            let failed = next(
                FinishStage::Transcript { asr },
                FinishEvent::TranscriptFailed { permits_replay, global_timeout },
            );
            let onward = next(failed.stage, clear);
            &&& asr is Volcengine && permits_replay ==> {
                &&& failed.action == FinishAction::CheckSourceIntegrity(
                    IntegrityBoundary::BeforeReplay,
                )
                &&& onward.action == FinishAction::ReplayRetainedAudio
                &&& next(onward.stage, FinishEvent::ReplayReady).stage == (
                FinishStage::GateAfterFinal { asr: ActiveAsr::Volcengine })
                &&& next(onward.stage, FinishEvent::ReplayReady).action
                    == FinishAction::CheckSourceIntegrity(IntegrityBoundary::AfterProviderFinal)
                &&& next(onward.stage, FinishEvent::ReplayFailed).action
                    == FinishAction::ProbeNetwork
            }
            &&& !(asr is FoundryLocalWhisper) && !(asr is Volcengine && permits_replay) ==> {
                &&& failed.action == FinishAction::CheckSourceIntegrity(
                    IntegrityBoundary::BeforeErrorClose,
                )
                &&& onward.action == FinishAction::Close(
                    if global_timeout {
                        Closing::RecogniserTimedOut { asr }
                    } else {
                        Closing::RecogniserFailed { asr }
                    },
                )
            }
            &&& asr is FoundryLocalWhisper ==> {
                &&& failed.action == FinishAction::CheckCancelled
                &&& next(failed.stage, FinishEvent::CancelChecked { cancelled: true }).action
                    == FinishAction::Close(Closing::LocalCancelled)
                &&& next(failed.stage, FinishEvent::CancelChecked { cancelled: false }).action
                    == FinishAction::CheckSourceIntegrity(IntegrityBoundary::BeforeErrorClose)
                &&& next(
                    next(failed.stage, FinishEvent::CancelChecked { cancelled: false }).stage,
                    clear,
                ).action == FinishAction::Close(Closing::RecogniserFailed { asr })
            }
        }),
{
}

/// An empty final of the streaming recogniser is tried again exactly where nothing else has text,
/// anybody's words may be delivered, and speech was certainly there: most of the time, or at all
/// in a session that a person started.
pub proof fn an_empty_final_is_tried_again(asr: ActiveAsr, facts: CandidateFacts)
    ensures
        ({
            let action = next(
                FinishStage::Candidates { asr },
                FinishEvent::CandidatesCollected(facts),
            ).action;
            &&& action == FinishAction::RetryEmptyFinal ==> asr is Volcengine
                && facts.primary_blank && !facts.separated_has_text && !facts.filter_required
            &&& asr is Volcengine && facts.primary_blank && !facts.separated_has_text
                && !facts.filter_required ==> (action == FinishAction::RetryEmptyFinal <==> (
            facts.sustained_speech || (facts.some_speech && !facts.automatic_wake)))
        }),
{
}

/// A local shadow decode is waited for only beside text that anybody may have said, and never
/// longer than what is left of its 850 ms; otherwise, and afterwards, the transcripts are weighed,
/// and a preview from before only the owner counted is dropped.
pub proof fn a_shadow_decode_is_waited_for_in_time(asr: ActiveAsr, facts: CandidateFacts)
    ensures
        ({
            let step = next(
                FinishStage::Candidates { asr },
                FinishEvent::CandidatesCollected(facts),
            );
            let text = !facts.primary_blank || facts.separated_has_text;
            &&& step.action matches FinishAction::AwaitShadow { budget_ms } ==> {
                &&& facts.shadow_elapsed_ms is Some
                &&& facts.shadow_elapsed_ms->0 + budget_ms == 850
                &&& budget_ms > 0
                &&& text && !facts.filter_required
                &&& next(step.stage, FinishEvent::ShadowSettled).action == (
                FinishAction::Arbitrate { invalidate_preview: false })
            }
            &&& text && !facts.filter_required && facts.shadow_elapsed_ms is Some
                && facts.shadow_elapsed_ms->0 < 850 ==> step.action is AwaitShadow
            &&& step.action is AwaitShadow || step.action == FinishAction::RetryEmptyFinal
                || step.action == (FinishAction::Arbitrate {
                invalidate_preview: facts.filter_required,
            })
            &&& step.action is Arbitrate ==> step.stage == FinishStage::Arbitration
        }),
{
}

/// A retried final is weighed like any other: with what it recovered, and behind a shadow decode
/// that still has time.
pub proof fn a_retried_final_is_weighed(recovered: bool, shadow_elapsed_ms: Option<u64>)
    ensures
        ({
            let step = next(
                FinishStage::EmptyRetry,
                FinishEvent::EmptyFinalRetried { recovered, shadow_elapsed_ms },
            );
            &&& recovered && shadow_elapsed_ms is Some && shadow_elapsed_ms->0 < 850 ==> step.action
                == (FinishAction::AwaitShadow {
                budget_ms: (850 - shadow_elapsed_ms->0) as u64,
            })
            &&& !(recovered && shadow_elapsed_ms is Some && shadow_elapsed_ms->0 < 850)
                ==> step.stage == FinishStage::Arbitration && step.action == (
            FinishAction::Arbitrate { invalidate_preview: false })
        }),
{
}

/// A transcript with words that nobody stops is delivered: it is polished or translated, inserted,
/// and sent, unless text that is on screen already or an open composition takes its place; then
/// the clipboard and the key that follows are settled, and the session is completed.
pub proof fn an_unhindered_transcript_is_delivered(
    facts: TextFacts,
    automatic_wake: bool,
    body_started: bool,
    early: EarlyFacts,
    retain: bool,
    post_key: bool,
)
    ensures
        ({
            let words = next(
                FinishStage::Arbitration,
                FinishEvent::Arbitrated { blank: false, automatic_wake, body_started },
            );
            let chosen = next(words.stage, FinishEvent::TextChosen(facts));
            let made = next(chosen.stage, FinishEvent::TextPrepared);
            let admitted = next(made.stage, FinishEvent::InsertionDecided { applied: true });
            let sent = next(admitted.stage, FinishEvent::EarlyDeliveryRead(early));
            let kept = next(
                FinishStage::Dispatch,
                FinishEvent::Delivered { retain_on_clipboard: retain },
            );
            let keyed = next(kept.stage, FinishEvent::ClipboardSettled { post_key });
            &&& chosen.action is PrepareText
            &&& made.action == FinishAction::BeginInsertion
            &&& admitted.action == FinishAction::ReadEarlyDelivery
            &&& !early.composition_active ==> sent.stage == FinishStage::Dispatch && (sent.action
                == FinishAction::Dispatch || sent.action == FinishAction::RecordEarlyTextOnly)
            &&& early.composition_active ==> sent.action == FinishAction::CommitComposition
                || sent.action == FinishAction::CancelComposition
            &&& kept.action == (if retain {
                FinishAction::RetainClipboard
            } else {
                FinishAction::DecidePostKey
            })
            &&& post_key ==> keyed.action == FinishAction::SendPostKey && next(
                keyed.stage,
                FinishEvent::PostKeySettled,
            ).action == FinishAction::Close(Closing::Completed)
            &&& !post_key ==> keyed.action == FinishAction::Close(Closing::Completed)
        }),
{
}

/// Without early text on screen, and with a remainder or a recovered tail, the text is sent, unless
/// a composition was left behind; early text that covers it, was rewritten or cannot be accounted
/// for keeps it from being sent.
pub proof fn a_text_is_sent_unless_it_is_on_screen(early: EarlyFacts)
    requires
        !early.composition_active,
    ensures
        ({
            let action = next(
                FinishStage::EarlyDelivery,
                FinishEvent::EarlyDeliveryRead(early),
            ).action;
            &&& action == FinishAction::Dispatch <==> !early.composition_contaminated && (
            early.early is Remainder || early.early is Recovered || (early.early is Nothing
                && !early.ever_delivered))
            &&& action == FinishAction::Dispatch || action == FinishAction::RecordEarlyTextOnly
        }),
{
}

/// An open composition is committed unless the early text was rewritten or cannot be accounted
/// for.  One that took the text is recorded; otherwise the text is sent exactly where it would have
/// been without the composition.
pub proof fn an_open_composition_takes_the_text_or_leaves_it(
    early: EarlyFacts,
    finalized: bool,
    contaminated: bool,
)
    requires
        early.composition_active,
    ensures
        ({
            let opened = next(FinishStage::EarlyDelivery, FinishEvent::EarlyDeliveryRead(early));
            let settled = next(
                opened.stage,
                FinishEvent::CompositionSettled { finalized, contaminated },
            );
            &&& opened.action == FinishAction::CancelComposition <==> early.early is Rewritten || (
            early.early is Nothing && early.ever_delivered)
            &&& opened.action == FinishAction::CommitComposition
                || opened.action == FinishAction::CancelComposition
            &&& settled.stage == FinishStage::Dispatch
            &&& finalized ==> settled.action == FinishAction::RecordComposition
            &&& !finalized ==> (settled.action == FinishAction::Dispatch <==> !contaminated && (
            early.early is Remainder || early.early is Recovered || (early.early is Nothing
                && !early.ever_delivered)))
            &&& !finalized ==> settled.action == FinishAction::Dispatch || settled.action
                == FinishAction::RecordEarlyTextOnly
        }),
{
}

/// How a transcript becomes a text: translated wherever translation is on; as it is where it would
/// have to be polished by a model that is not available; typed while the model writes where that
/// is possible and the model is available; and polished in one go otherwise.
pub proof fn each_text_takes_its_route(facts: TextFacts)
    ensures
        facts.route() is Translate <==> facts.translation_active,
        facts.route() is RawWithoutPolish <==> !facts.translation_active && facts.needs_llm_polish
            && (facts.llm_auth_blocked || facts.llm_stall_blocked),
        facts.route() is StreamingPolish <==> !facts.translation_active
            && facts.streaming_insert_eligible && !facts.llm_auth_blocked
            && !facts.llm_stall_blocked,
        next(FinishStage::TextChoice, FinishEvent::TextChosen(facts)).action
            == FinishAction::PrepareText(facts.route()),
{
}

/// The caller learns of an error exactly where the recognition failed for good or gave nothing, and
/// there the user is told something too.
pub proof fn failures_are_reported(closing: Closing, detail: Seq<char>, network: Seq<char>)
    ensures
        closing.is_error() <==> closing is ReplayFailed || closing is ReplayTimedOut || closing
            is RecogniserFailed || closing is RecogniserTimedOut || closing is EmptyTranscript,
        closing.is_error() <==> closing.notice(detail, network) is Some,
        closing.is_error() <==> closing.error(detail) is Some,
        closing is RecogniserFailed || closing is ReplayFailed ==> closing.error(detail) == Some(
            detail,
        ),
{
}

/// Every action is followed by the stage that waits for its answer, and by no other.
pub proof fn each_action_waits_for_its_answer(stage: FinishStage, event: FinishEvent)
    requires
        awaits(stage, event),
    ensures
        ({
            let step = next(stage, event);
            let action = step.action;
            &&& action is Close <==> step.stage == FinishStage::Done
            &&& action is StopRecorderAndTakeRecogniser <==> step.stage == FinishStage::Recogniser
            &&& action is AwaitTranscript <==> step.stage is Transcript
            &&& action is ReplayRetainedAudio <==> step.stage == FinishStage::Replay
            &&& action is ProbeNetwork <==> step.stage == FinishStage::Probe
            &&& action is CheckCancelled <==> step.stage == FinishStage::LocalCancelCheck
                || step.stage is CancelCheck
            &&& action is CollectCandidates <==> step.stage is Candidates
            &&& action is RetryEmptyFinal <==> step.stage == FinishStage::EmptyRetry
            &&& action is AwaitShadow <==> step.stage == FinishStage::Shadow
            &&& action is Arbitrate <==> step.stage == FinishStage::Arbitration
            &&& action is ChooseText <==> step.stage == FinishStage::TextChoice
            &&& action is PrepareText <==> step.stage == FinishStage::Polish
            &&& action is BeginInsertion <==> step.stage == FinishStage::Insertion
            &&& action is ReadEarlyDelivery <==> step.stage == FinishStage::EarlyDelivery
            &&& action is CommitComposition || action is CancelComposition <==> step.stage
                is Composition
            &&& action is Dispatch || action is RecordComposition || action is RecordEarlyTextOnly
                <==> step.stage == FinishStage::Dispatch
            &&& action is RetainClipboard || action is DecidePostKey <==> step.stage
                == FinishStage::Clipboard
            &&& action is SendPostKey <==> step.stage == FinishStage::PostKey
            &&& action == FinishAction::CheckSourceIntegrity(IntegrityBoundary::AfterProviderFinal)
                <==> step.stage is GateAfterFinal
            &&& action == FinishAction::CheckSourceIntegrity(IntegrityBoundary::BeforeReplay)
                <==> step.stage == FinishStage::GateBeforeReplay
            &&& action == FinishAction::CheckSourceIntegrity(IntegrityBoundary::BeforeErrorClose)
                <==> step.stage is GateBeforeErrorClose
        }),
{
}

/// The recogniser that was taken is the one that is spoken of until its text is collected; a text
/// that was replayed is Volcengine's.
pub proof fn the_recogniser_is_not_mixed_up(stage: FinishStage, event: FinishEvent)
    requires
        awaits(stage, event),
    ensures
        ({
            let after = next(stage, event).stage;
            &&& after matches FinishStage::Transcript { asr } ==> event
                == FinishEvent::RecogniserTaken(Some(asr))
            &&& after matches FinishStage::GateAfterFinal { asr } ==> stage == (
            FinishStage::Transcript { asr }) || (stage == FinishStage::Replay && asr
                == ActiveAsr::Volcengine)
            &&& after matches FinishStage::GateBeforeErrorClose { asr, timed_out } ==> (stage == (
            FinishStage::Transcript { asr }) && timed_out == event->global_timeout) || (stage
                == FinishStage::LocalCancelCheck && asr == ActiveAsr::FoundryLocalWhisper
                && !timed_out)
            &&& after matches FinishStage::CancelCheck { asr } ==> stage == (
            FinishStage::GateAfterFinal { asr })
            &&& after matches FinishStage::Candidates { asr } ==> stage == (
            FinishStage::CancelCheck { asr })
            &&& after == FinishStage::LocalCancelCheck ==> stage == (FinishStage::Transcript {
                asr: ActiveAsr::FoundryLocalWhisper,
            })
            &&& after == FinishStage::GateBeforeReplay ==> stage == (FinishStage::Transcript {
                asr: ActiveAsr::Volcengine,
            })
        }),
{
}

/// A completion begins with a look at the source, before the recogniser is taken.
pub proof fn a_completion_begins_with_the_source()
    ensures
        first_step().stage == FinishStage::GateBeforeAsr,
        first_step().action == FinishAction::CheckSourceIntegrity(
            IntegrityBoundary::BeforeAsrFinalization,
        ),
{
}

/// A time limit is reported with the recogniser it was reached by, where that has a name of its own,
/// and otherwise with the provider's words; an empty text and a replay have their own.
pub proof fn a_time_limit_names_its_recogniser(detail: Seq<char>, network: Seq<char>)
    ensures
        (Closing::RecogniserTimedOut { asr: ActiveAsr::Whisper }).error(detail) == Some(
            "whisper global timeout"@,
        ),
        (Closing::RecogniserTimedOut { asr: ActiveAsr::Bailian }).error(detail) == Some(
            "bailian global timeout"@,
        ),
        (Closing::RecogniserTimedOut { asr: ActiveAsr::Local }).error(detail) == Some(
            "local global timeout"@,
        ),
        (Closing::RecogniserTimedOut { asr: ActiveAsr::Volcengine }).error(detail) == Some(detail),
        Closing::ReplayTimedOut.error(detail) == Some("recovery replay timeout"@),
        Closing::EmptyTranscript.error(detail) == Some("ASR returned empty transcript"@),
        (Closing::ReplayFailed { network_blamed: true }).notice(detail, network) == Some(
            network + "，本次识别未能恢复"@,
        ),
        (Closing::ReplayFailed { network_blamed: false }).notice(detail, network) == Some(
            "识别恢复失败: "@ + detail,
        ),
        (Closing::RecogniserFailed { asr: ActiveAsr::Local }).notice(detail, network) == Some(
            "本地识别失败: "@ + detail,
        ),
        (Closing::RecogniserFailed { asr: ActiveAsr::FoundryLocalWhisper }).notice(detail, network)
            == Some("本地识别失败: "@ + detail),
        (Closing::RecogniserFailed { asr: ActiveAsr::Volcengine }).notice(detail, network) == Some(
            "识别失败: "@ + detail,
        ),
        (Closing::RecogniserFailed { asr: ActiveAsr::Bailian }).notice(detail, network) == Some(
            "识别失败: "@ + detail,
        ),
        (Closing::RecogniserFailed { asr: ActiveAsr::Whisper }).notice(detail, network) == Some(
            "识别失败: "@ + detail,
        ),
        Closing::EmptyTranscript.notice(detail, network) == Some("没有识别到语音"@),
{
}

} // verus!
