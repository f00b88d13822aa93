//! Opening, stopping and cancelling a recording of the device.

use vstd::prelude::*;
use vstd::string::*;
use crate::asr::{
    active_asr_provider_from_preferences,
    asr_failure,
    dictation_asr_quality_warning,
    ensure_asr_credentials,
    fails_saying,
    log_dictation_asr_engine_selection,
    preferred_asr,
    quality_warning,
    selection_info,
    selection_warning,
    EngineSelectionLog,
    LocalModelState,
};
use crate::closeout::EmbeddedAudioTranscriptResult;
use crate::credentials::{sync_active_asr_provider_to_credentials_for_runtime, CredentialSnapshot};
use crate::continuation::{discard_terminal_wake_continuation, TerminalWakeContinuation};
use crate::delivery::string_of;
use crate::device::DeviceContext;
use crate::preferences::{DictationInputSource, Platform, UserPreferences};
use crate::session::{hyphenated, SessionId, SessionPhase, SessionState};
use crate::text::same_text;

verus! {

/// Whether a session is one that can still be stopped.
pub open spec fn stoppable(phase: SessionPhase) -> bool {
    phase == SessionPhase::Starting || phase == SessionPhase::Listening
}

fn is_stoppable(phase: SessionPhase) -> (r: bool)
    ensures
        r == stoppable(phase),
{
    phase == SessionPhase::Starting || phase == SessionPhase::Listening
}

/// Who asks the device to stop.
#[derive(Clone, Copy, Debug, PartialEq, Eq, Structural)]
pub enum StopKind {
    /// A person, through this program.
    Host,
    /// The end of the user's speech, with a ticket that new speech revokes.
    Endpoint,
}

/// What a stop waits for.
#[derive(Clone, Copy, Debug, PartialEq, Eq, Structural)]
pub enum StopStage {
    /// The ticket is claimed for sending.
    ClaimTicket,
    /// The ticket is looked at again, now that it is claimed.
    RecheckTicket,
    /// The recording's own record of its end is made.
    Commit,
    /// The ticket is looked at for the last time.
    LastCheck,
    /// The device is written to.
    Write,
}

/// Where a stop stands.
#[derive(Clone, Copy, Debug, PartialEq, Eq, Structural)]
pub enum StopStep {
    Await(StopStage),
    /// Nothing was stopped, and nothing is to be undone.
    NotStopped,
    /// The record of the end is taken back; the device was not written to.
    TakenBack,
    /// The device was told to stop.
    Stopped,
    /// The device could not be told: the record is taken back, the light goes out, and the user
    /// is told.
    WriteFailed,
}

impl StopStep {
    /// What a stop reports once it is over: whether the device was told, or `error` where
    /// writing to it failed.
    pub fn outcome(self, error: String) -> (r: Option<Result<bool, String>>)
        ensures
            r == (match self {
                StopStep::Await(_) => None,
                StopStep::NotStopped | StopStep::TakenBack => Some(Ok(false)),
                StopStep::Stopped => Some(Ok(true)),
                StopStep::WriteFailed => Some(Err(error)),
            }),
    {
        match self {
            StopStep::Await(_) => None,
            StopStep::NotStopped | StopStep::TakenBack => Some(Ok(false)),
            StopStep::Stopped => Some(Ok(true)),
            StopStep::WriteFailed => Some(Err(error)),
        }
    }
}

/// The words when the device could not be told to stop.
pub const STOP_FAILED: &'static str = "Listener 录音停止失败";

/// Where a stop stands after what it waited for went well or not.
pub open spec fn stop_after(kind: StopKind, stage: StopStage, ok: bool) -> StopStep {
    match stage {
        StopStage::ClaimTicket => if ok {
            StopStep::Await(StopStage::RecheckTicket)
        } else {
            StopStep::NotStopped
        },
        StopStage::RecheckTicket => if ok {
            StopStep::Await(StopStage::Commit)
        } else {
            StopStep::NotStopped
        },
        StopStage::Commit => if !ok {
            StopStep::NotStopped
        } else if kind == StopKind::Endpoint {
            StopStep::Await(StopStage::LastCheck)
        } else {
            StopStep::Await(StopStage::Write)
        },
        StopStage::LastCheck => if ok {
            StopStep::Await(StopStage::Write)
        } else {
            StopStep::TakenBack
        },
        StopStage::Write => if ok {
            StopStep::Stopped
        } else {
            StopStep::WriteFailed
        },
    }
}

/// Moves a stop on, once what it waited for went well or not.
pub fn recording_stop_step(kind: StopKind, stage: StopStage, ok: bool) -> (r: StopStep)
    ensures
        r == stop_after(kind, stage, ok),
{
    match stage {
        StopStage::ClaimTicket => {
            if ok {
                StopStep::Await(StopStage::RecheckTicket)
            } else {
                StopStep::NotStopped
            }
        },
        StopStage::RecheckTicket => {
            if ok {
                StopStep::Await(StopStage::Commit)
            } else {
                StopStep::NotStopped
            }
        },
        StopStage::Commit => {
            if !ok {
                StopStep::NotStopped
            } else {
                match kind {
                    StopKind::Endpoint => StopStep::Await(StopStage::LastCheck),
                    StopKind::Host => StopStep::Await(StopStage::Write),
                }
            }
        },
        StopStage::LastCheck => {
            if ok {
                StopStep::Await(StopStage::Write)
            } else {
                StopStep::TakenBack
            }
        },
        StopStage::Write => {
            if ok {
                StopStep::Stopped
            } else {
                StopStep::WriteFailed
            }
        },
    }
}

/// Begins a stop that a person asked for: only a recording that is open is stopped.
pub fn request_embedded_ble_recording_stop_from_host(context: DeviceContext, state: &SessionState) -> (r:
    StopStep)
    ensures
        r == (if context.control_active() && stoppable(state.phase) {
            StopStep::Await(StopStage::Commit)
        } else {
            StopStep::NotStopped
        }),
{
    if !context.embedded_ble_host_recording_control_context_active() || !is_stoppable(state.phase) {
        return StopStep::NotStopped;
    }
    StopStep::Await(StopStage::Commit)
}

/// Begins a stop at the end of the user's speech: only for the session that the ticket was made
/// for, while it is open, and while the ticket is valid.
pub fn request_embedded_ble_recording_stop_from_host_for_endpoint(
    context: DeviceContext,
    state: &SessionState,
    ticket_session: SessionId,
    ticket_valid: bool,
) -> (r: StopStep)
    ensures
        r == (if context.control_active() && state.session_id == ticket_session && !state.cancelled
            && stoppable(state.phase) && ticket_valid {
            StopStep::Await(StopStage::ClaimTicket)
        } else {
            StopStep::NotStopped
        }),
{
    if !context.embedded_ble_host_recording_control_context_active() {
        return StopStep::NotStopped;
    }
    if state.session_id != ticket_session || state.cancelled || !is_stoppable(state.phase) {
        return StopStep::NotStopped;
    }
    if !ticket_valid {
        return StopStep::NotStopped;
    }
    StopStep::Await(StopStage::ClaimTicket)
}

/// Whether a stop has the preview polished ahead: a person asked for it.
pub fn stop_starts_prefetch(reason: &str) -> (r: bool)
    ensures
        r == (reason@ == "capsule_confirm_stop_processing_start"@ || reason@ == "device_key_stop"@
            || reason@ == "device_key_stop_retry"@),
{
    same_text(reason, "capsule_confirm_stop_processing_start") || same_text(
        reason,
        "device_key_stop",
    ) || same_text(reason, "device_key_stop_retry")
}

/// Where a stop stands after a series of answers.
pub open spec fn stop_after_all(kind: StopKind, start: StopStep, answers: Seq<bool>) -> StopStep
    decreases answers.len(),
{
    if answers.len() == 0 {
        start
    } else {
        match stop_after_all(kind, start, answers.drop_last()) {
            StopStep::Await(stage) => stop_after(kind, stage, answers.last()),
            ended => ended,
        }
    }
}

/// At the end of the user's speech the device is stopped only where the ticket was claimed,
/// found valid again, the end committed, and the ticket found valid for the last time: four
/// answers and the write, all of them "yes".
pub proof fn an_endpoint_stop_needs_every_check(answers: Seq<bool>)
    requires
        stop_after_all(
            StopKind::Endpoint,
            StopStep::Await(StopStage::ClaimTicket),
            answers,
        ) == StopStep::Stopped,
    ensures
        answers.len() >= 5,
        forall|i: int| 0 <= i < 5 ==> answers[i],
{
    lemma_endpoint_progress(answers);
}

/// How many answers an endpoint stop has taken where it waits.
pub open spec fn endpoint_answers(stage: StopStage) -> int {
    match stage {
        StopStage::ClaimTicket => 0,
        StopStage::RecheckTicket => 1,
        StopStage::Commit => 2,
        StopStage::LastCheck => 3,
        StopStage::Write => 4,
    }
}

proof fn lemma_endpoint_progress(answers: Seq<bool>)
    ensures
        ({
            let at = stop_after_all(
                StopKind::Endpoint,
                StopStep::Await(StopStage::ClaimTicket),
                answers,
            );
            &&& at matches StopStep::Await(stage) ==> answers.len() == endpoint_answers(stage)
                && forall|i: int| 0 <= i < answers.len() ==> answers[i]
            &&& at == StopStep::Stopped ==> answers.len() >= 5 && forall|i: int|
                0 <= i < 5 ==> answers[i]
        }),
    decreases answers.len(),
{
    if answers.len() > 0 {
        let fewer = answers.drop_last();
        lemma_endpoint_progress(fewer);
        assert forall|i: int| 0 <= i < fewer.len() implies fewer[i] == answers[i] by {}
        assert(answers.last() == answers[answers.len() - 1]);
    }
}

/// A committed end that does not reach the device is always taken back: after the commit a stop
/// either reaches the device or undoes the record.
pub proof fn a_committed_stop_is_sent_or_taken_back(kind: StopKind, stage: StopStage, ok: bool)
    requires
        stage == StopStage::LastCheck || stage == StopStage::Write,
    ensures
        stop_after(kind, stage, ok) == StopStep::Await(StopStage::Write) || stop_after(
            kind,
            stage,
            ok,
        ) == StopStep::Stopped || stop_after(kind, stage, ok) == StopStep::TakenBack || stop_after(
            kind,
            stage,
            ok,
        ) == StopStep::WriteFailed,
        stage == StopStage::Write ==> !(stop_after(kind, stage, ok) is Await),
{
}

/// Tells the device to drop an open recording.  `true` where it was open and the device was told.
pub fn request_embedded_ble_firmware_cancel_on_active_recording<F>(phase: SessionPhase, send: F) -> (r:
    bool) where F: FnOnce() -> Result<(), String>
    requires
        stoppable(phase) ==> send.requires(()),
    ensures
        !stoppable(phase) ==> !r,
        stoppable(phase) ==> exists|sent: Result<(), String>| #[trigger]
            send.ensures((), sent) && r == (sent is Ok),
{
    if !is_stoppable(phase) {
        return false;
    }
    match send() {
        Ok(()) => true,
        Err(_) => false,
    }
}

/// A session that a cancel applied to.
#[derive(Clone, Copy, Debug, PartialEq, Eq, Structural)]
pub struct CancelledSession {
    pub session_id: SessionId,
    pub phase: SessionPhase,
}

/// How the running capture is ended.
#[derive(Clone, Copy, Debug, PartialEq, Eq, Structural)]
pub enum CaptureEnd {
    Untouched,
    /// Its cancel flag is raised.
    RaiseFlag,
    /// Its cancel flag is raised in the order of the packet actor.
    ThroughActor,
}

/// What a cancel leads to.
#[derive(Clone, Copy, Debug, PartialEq, Eq, Structural)]
pub struct CancelEffects {
    /// The processing light goes out.
    pub light_off: bool,
    pub capture: CaptureEnd,
    /// The capsule is hidden at once.
    pub hide_capsule: bool,
    /// The recorder, the recogniser and the text service of this session are given back, and the
    /// capsule hides after a while.
    pub close: Option<SessionId>,
}

/// What a cancel leads to where the packet actor owns the recording.  `device_told` tells
/// whether the device was told to drop it.
pub fn cancel_embedded_ble_session_through_actor(
    cancelled: Option<CancelledSession>,
    device_told: bool,
    state: &SessionState,
) -> (r: CancelEffects)
    ensures
        r.light_off == !(cancelled is Some && device_told),
        r.capture == CaptureEnd::RaiseFlag,
        r.hide_capsule == (cancelled is None && state.phase == SessionPhase::Idle),
        r.close == (match cancelled {
            Some(session) => Some(session.session_id),
            None => None,
        }),
{
    match cancelled {
        Some(session) => CancelEffects {
            light_off: !device_told,
            capture: CaptureEnd::RaiseFlag,
            hide_capsule: false,
            close: Some(session.session_id),
        },
        None => CancelEffects {
            light_off: true,
            capture: CaptureEnd::RaiseFlag,
            hide_capsule: state.phase == SessionPhase::Idle,
            close: None,
        },
    }
}

/// What a cancel leads to otherwise: without a session, nothing.
pub fn cancel_session_direct(cancelled: Option<CancelledSession>) -> (r: CancelEffects)
    ensures
        !r.light_off,
        !r.hide_capsule,
        r.capture == (if cancelled is Some {
            CaptureEnd::ThroughActor
        } else {
            CaptureEnd::Untouched
        }),
        r.close == (match cancelled {
            Some(session) => Some(session.session_id),
            None => None,
        }),
{
    match cancelled {
        Some(session) => CancelEffects {
            light_off: false,
            capture: CaptureEnd::ThroughActor,
            hide_capsule: false,
            close: Some(session.session_id),
        },
        None => CancelEffects {
            light_off: false,
            capture: CaptureEnd::Untouched,
            hide_capsule: false,
            close: None,
        },
    }
}

/// How a cancel is carried out.
#[derive(Clone, Copy, Debug, PartialEq, Eq, Structural)]
pub struct CancelRoute {
    /// The packet actor owns the recording and cancels it.
    pub through_actor: bool,
    /// The guard of an automatic wake is lifted and its hidden candidate closed.
    pub lift_guard: bool,
}

/// Begins a cancel: a wake that still waits for its audio is dropped first, and then the packet
/// actor cancels what it owns.
pub fn cancel_session<T>(
    continuation: &mut Option<TerminalWakeContinuation<T>>,
    context: DeviceContext,
    state: &SessionState,
) -> (r: CancelRoute)
    ensures
        *final(continuation) is None,
        r.lift_guard == (*old(continuation) is Some),
        r.through_actor == context.cancel_active(state.phase),
{
    let lift_guard: bool = discard_terminal_wake_continuation(continuation);
    CancelRoute {
        through_actor: context.embedded_ble_host_cancel_context_active(state),
        lift_guard,
    }
}

/// Adds what was typed of a piece of text to what was typed before: its first `typed_chars`
/// characters, or all of it.  The result is how many were added.
pub fn append_typed_prefix(target: &mut String, delta: &str, typed_chars: usize) -> (r: usize)
    ensures
        r == (if typed_chars <= delta@.len() {
            typed_chars as int
        } else {
            delta@.len() as int
        }),
        final(target)@ == old(target)@ + delta@.take(r as int),
{
    let length: usize = delta.unicode_len();
    let appended: usize = if typed_chars <= length {
        typed_chars
    } else {
        length
    };
    target.append(delta.substring_char(0, appended));
    proof {
        assert(delta@.subrange(0, appended as int) =~= delta@.take(appended as int));
    }
    appended
}

/// Why a recording of the device ended.
#[derive(Debug)]
pub enum SessionEndReason {
    Stop,
    /// Any other reason, under its name.
    Other(String),
}

/// What was counted of a recording of the device.
#[derive(Debug)]
pub struct SessionStats {
    pub terminal_received: bool,
    pub end_reason: Option<SessionEndReason>,
    pub reconstructed_pcm_bytes: usize,
}

/// What a submitted recording came to.
#[derive(Debug)]
pub struct EmbeddedAudioSubmissionResult {
    pub reconstructed_pcm_bytes: usize,
    pub stats: SessionStats,
    pub transcript: Option<EmbeddedAudioTranscriptResult>,
}

/// How a reason is written.
pub open spec fn end_reason_text(reason: Option<SessionEndReason>) -> Seq<char> {
    match reason {
        None => "None"@,
        Some(SessionEndReason::Stop) => "Some(Stop)"@,
        Some(SessionEndReason::Other(name)) => "Some("@ + name@ + ")"@,
    }
}

/// Reports what a submitted recording came to.  It must have ended, and by a stop.
pub fn submission_result_from_stats(
    terminal_received: bool,
    stats: SessionStats,
    transcript: Option<EmbeddedAudioTranscriptResult>,
) -> (r: Result<EmbeddedAudioSubmissionResult, String>)
    ensures
        ({
            let ended = terminal_received && stats.terminal_received;
            let stopped = stats.end_reason matches Some(SessionEndReason::Stop);
            &&& r is Ok <==> ended && stopped
            &&& r matches Ok(result) ==> result.reconstructed_pcm_bytes
                == stats.reconstructed_pcm_bytes && result.stats == stats && result.transcript
                == transcript
            &&& r matches Err(words) ==> words@ == (if !ended {
                "嵌入式音频流式会话尚未收到结束包"@
            } else {
                "嵌入式音频流式会话未正常结束: "@ + end_reason_text(stats.end_reason)
            })
        }),
{
    if !terminal_received || !stats.terminal_received {
        return Err("嵌入式音频流式会话尚未收到结束包".to_owned());
    }
    match &stats.end_reason {
        Some(SessionEndReason::Stop) => {},
        Some(SessionEndReason::Other(name)) => {
            return Err(
                "嵌入式音频流式会话未正常结束: ".to_owned().concat(
                    "Some(".to_owned().concat(name.as_str()).concat(")").as_str(),
                ),
            );
        },
        None => {
            return Err("嵌入式音频流式会话未正常结束: ".to_owned().concat("None"));
        },
    }
    Ok(
        EmbeddedAudioSubmissionResult {
            reconstructed_pcm_bytes: stats.reconstructed_pcm_bytes,
            stats,
            transcript,
        },
    )
}

/// Takes the final text of a session, where the one that is kept is its.
pub fn take_embedded_audio_final_result(
    slot: &mut Option<EmbeddedAudioTranscriptResult>,
    session_id: SessionId,
) -> (r: Option<EmbeddedAudioTranscriptResult>)
    ensures
        ({
            let own = *old(slot) is Some && old(slot)->0.session_id@ == hyphenated(
                session_id.bits,
            );
            &&& r == (if own {
                *old(slot)
            } else {
                None
            })
            &&& *final(slot) == (if own {
                None
            } else {
                *old(slot)
            })
        }),
{
    let text: String = session_id.to_text();
    let own: bool = match slot {
        Some(result) => same_text(result.session_id.as_str(), text.as_str()),
        None => false,
    };
    if own {
        slot.take()
    } else {
        None
    }
}

/// Finds the session that audio of the device belongs to: one that this program has started for
/// it, or a new one that `begin` opens.
pub fn begin_embedded_audio_dictation_session_id<F>(
    context: DeviceContext,
    state: &SessionState,
    begin: F,
) -> (r: Result<SessionId, String>) where F: FnOnce() -> Option<SessionId>
    requires
        begin.requires(()),
    ensures
        ({
            let attaches = context.input_source == DictationInputSource::EmbeddedBle
                && context.actor_active() && state.phase == SessionPhase::Starting;
            if attaches {
                r == Ok::<SessionId, String>(state.session_id)
            } else {
                exists|started: Option<SessionId>| #[trigger]
                    begin.ensures((), started) && match started {
                        Some(id) => r == Ok::<SessionId, String>(id),
                        None => r is Err && r->Err_0@
                            == "当前已有听写会话在运行，暂不能提交嵌入式音频"@,
                    }
            }
        }),
{
    let attach_host_start: bool = context.input_source == DictationInputSource::EmbeddedBle
        && context.embedded_ble_actor_context_active();
    if attach_host_start && state.phase == SessionPhase::Starting {
        return Ok(state.session_id);
    }
    match begin() {
        Some(id) => Ok(id),
        None => Err("当前已有听写会话在运行，暂不能提交嵌入式音频".to_owned()),
    }
}

/// How a session with audio of the device opens.
#[derive(Debug)]
pub struct EmbeddedSessionOpening {
    /// The guard of a wake phrase is lifted; a session that a wake phrase opened keeps its own.
    pub lift_wake_guard: bool,
    pub active_asr: String,
    /// The stored choice of a recogniser is brought in line.
    pub correct_stored_asr: bool,
    pub engine_log: EngineSelectionLog,
    /// What the capsule says about the recogniser.
    pub capsule_message: Option<String>,
    /// Whether the recogniser has what it needs.
    pub gate: Result<(), String>,
}

/// Decides how a session with audio of the device opens: which recogniser it uses, what the user
/// is told of it, and whether it may go on.
pub fn begin_embedded_audio_dictation_session(
    prefs: &UserPreferences,
    store: &CredentialSnapshot,
    platform: Platform,
    model: &LocalModelState,
    session_id: SessionId,
    opened_by_wake_phrase: bool,
) -> (r: EmbeddedSessionOpening)
    ensures
        r.lift_wake_guard == !opened_by_wake_phrase,
        r.active_asr@ == preferred_asr(*prefs, *store),
        r.correct_stored_asr == (store.active_asr@ != preferred_asr(*prefs, *store)),
        string_of(r.capsule_message) == quality_warning(preferred_asr(*prefs, *store)),
        r.engine_log.info@ == selection_info(session_id, preferred_asr(*prefs, *store)),
        string_of(r.engine_log.warning) == selection_warning(
            session_id,
            preferred_asr(*prefs, *store),
        ),
        fails_saying(
            r.gate,
            asr_failure(*store, preferred_asr(*prefs, *store), platform, *model),
        ),
{
    let active_asr: String = active_asr_provider_from_preferences(prefs, store);
    let correct_stored_asr: bool = sync_active_asr_provider_to_credentials_for_runtime(
        store,
        active_asr.as_str(),
    );
    let engine_log: EngineSelectionLog = log_dictation_asr_engine_selection(
        session_id,
        active_asr.as_str(),
    );
    let capsule_message: Option<String> = dictation_asr_quality_warning(active_asr.as_str());
    let gate: Result<(), String> = ensure_asr_credentials(
        store,
        active_asr.as_str(),
        platform,
        model,
    );
    EmbeddedSessionOpening {
        lift_wake_guard: !opened_by_wake_phrase,
        active_asr,
        correct_stored_asr,
        engine_log,
        capsule_message,
        gate,
    }
}

/// What follows when a session that was opened cannot go on.
#[derive(Clone, Copy, Debug, PartialEq, Eq, Structural)]
pub struct OpeningFailure {
    /// The user is told, the text service is given back and the capsule hides after a while.
    pub tell_user: bool,
    pub cancel_recogniser: bool,
}

/// What follows when a session that was opened cannot go on: a recogniser that was set up is
/// cancelled.
pub fn embedded_opening_failure(recogniser_was_set_up: bool) -> (r: OpeningFailure)
    ensures
        r.tell_user,
        r.cancel_recogniser == recogniser_was_set_up,
{
    OpeningFailure { tell_user: true, cancel_recogniser: recogniser_was_set_up }
}

/// What follows when the start of a recording was applied to its session, or was not.
#[derive(Clone, Copy, Debug, PartialEq, Eq, Structural)]
pub enum ActivationStep {
    /// Audio is fed to the recogniser.
    Feed,
    /// The recogniser is cancelled and the text service given back.
    Abandon,
}

/// Decides what follows when the start of a recording was applied to its session, or was not.
pub fn activate_embedded_audio_dictation_session(start_applied: bool) -> (r: ActivationStep)
    ensures
        r == (if start_applied {
            ActivationStep::Feed
        } else {
            ActivationStep::Abandon
        }),
{
    if start_applied {
        ActivationStep::Feed
    } else {
        ActivationStep::Abandon
    }
}

/// The number of a recording that is read from a file: the low 32 bits of the clock's
/// milliseconds.
pub fn embedded_audio_file_session_id(unix_millis: i64) -> (r: u32)
    ensures
        r == (unix_millis as u64) % 0x1_0000_0000,
{
    ((unix_millis as u64) % 0x1_0000_0000) as u32
}

/// Exactly a recording that is being started or listened to can be stopped.
pub proof fn only_an_open_recording_can_be_stopped(phase: SessionPhase)
    ensures
        stoppable(SessionPhase::Starting),
        stoppable(SessionPhase::Listening),
        stoppable(phase) ==> phase == SessionPhase::Starting || phase == SessionPhase::Listening,
{
}

/// A stop whose answers are all "yes" reaches the device: after two answers where a person asked for
/// it, after five where the user's speech ended.
pub proof fn an_unhindered_stop_reaches_the_device()
    ensures
        ({
            let written = stop_after(StopKind::Host, StopStage::Commit, true);
            &&& written == StopStep::Await(StopStage::Write)
            &&& stop_after(StopKind::Host, StopStage::Write, true) == StopStep::Stopped
        }),
        ({
            let kind = StopKind::Endpoint;
            let claimed = stop_after(kind, StopStage::ClaimTicket, true);
            let rechecked = stop_after(kind, claimed->Await_0, true);
            let committed = stop_after(kind, rechecked->Await_0, true);
            let checked = stop_after(kind, committed->Await_0, true);
            let written = stop_after(kind, checked->Await_0, true);
            &&& claimed is Await && rechecked is Await && committed is Await && checked is Await
            &&& written == StopStep::Stopped
        }),
{
}

/// The device is told only by a write that went well, and only a write that failed is reported as
/// one.  A record that was made is taken back wherever the device is not told, and where none was
/// made there is nothing to take back.
pub proof fn each_end_of_a_stop_has_its_cause(kind: StopKind, stage: StopStage, ok: bool)
    ensures
        ({
            let step = stop_after(kind, stage, ok);
            &&& step == StopStep::Stopped <==> stage == StopStage::Write && ok
            &&& step == StopStep::WriteFailed <==> stage == StopStage::Write && !ok
            &&& step == StopStep::TakenBack <==> stage == StopStage::LastCheck && !ok
            &&& step == StopStep::NotStopped <==> !ok && (stage == StopStage::ClaimTicket || stage
                == StopStage::RecheckTicket || stage == StopStage::Commit)
            &&& step == StopStep::Await(StopStage::Write) <==> ok && ((stage == StopStage::Commit
                && kind == StopKind::Host) || stage == StopStage::LastCheck)
            &&& step != StopStep::Await(StopStage::ClaimTicket)
        }),
{
}

/// The report of a recording that did not end well names its reason, and no other reason reads like
/// a stop.
pub proof fn an_end_is_reported_under_its_reason(name: String)
    ensures
        ({
            let text = end_reason_text(Some(SessionEndReason::Other(name)));
            let end = 5 + name@.len() as int;
            &&& text.len() == end + 1
            &&& text.subrange(5, end) == name@
            &&& text[end] == ')'
            &&& end_reason_text(Some(SessionEndReason::Stop)) == "Some(Stop)"@
            &&& end_reason_text(None) == "None"@
            &&& name@ != "Stop"@ ==> text != end_reason_text(Some(SessionEndReason::Stop))
            &&& text != end_reason_text(None)
        }),
{
    reveal_strlit("Some(");
    reveal_strlit(")");
    reveal_strlit("Some(Stop)");
    reveal_strlit("Stop");
    reveal_strlit("None");
    let text = end_reason_text(Some(SessionEndReason::Other(name)));
    assert(text.subrange(5, 5 + name@.len() as int) == name@);
    if text == "Some(Stop)"@ {
        assert("Some(Stop)"@.subrange(5, 9) == "Stop"@);
    }
}

} // verus!
