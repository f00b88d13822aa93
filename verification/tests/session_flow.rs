use listener_coordinator::completion::{
    asr_transcribe_uses_global_timeout, choose_text_route, event_is_awaited,
    finish_end_session_after_stop_transition,
    finish_end_session_after_stop_transition_with_source_integrity, local_shadow_decode_fits,
    schedule_local_recogniser_release, source_integrity_must_stop, ActiveAsr, CandidateFacts, Closing, DictationTransition,
    EarlyFacts, EarlyText, FinishAction, FinishEvent, FinishStage, FinishStep, IntegrityBoundary, IntegrityCheck,
    SourceIntegrityQualification, TextFacts, TextRoute,
};
use listener_coordinator::delivery::InsertStatus;
use listener_coordinator::qa::{
    qa_history_entry, QaAnswerDecision, QaBeginAction, QaBeginFailure, QaBeginStage, QaEndStep,
    QaPanelState, QaPhase, QaRecognition, QaSessionState, QaTranscriptDecision, QaTurnFailure,
};
use listener_coordinator::session::SessionId;

const STOPPED: DictationTransition =
    DictationTransition::Applied { session_id: Some(SessionId { bits: 7 }) };

fn run(events: &[FinishEvent]) -> FinishStep {
    let (session_id, mut step) = finish_end_session_after_stop_transition(STOPPED).unwrap();
    assert_eq!(session_id, SessionId { bits: 7 });
    for event in events {
        assert!(event_is_awaited(step.stage, *event));
        step = finish_end_session_after_stop_transition_with_source_integrity(step.stage, *event);
    }
    step
}

const CLEAR: FinishEvent = FinishEvent::IntegrityChecked(IntegrityCheck::Proceed);
const KEPT: FinishEvent = FinishEvent::CancelChecked { cancelled: false };

fn facts() -> CandidateFacts {
    CandidateFacts {
        primary_blank: false,
        separated_has_text: false,
        filter_required: false,
        automatic_wake: false,
        sustained_speech: false,
        some_speech: true,
        shadow_elapsed_ms: None,
    }
}

fn text() -> TextFacts {
    TextFacts {
        translation_active: false,
        llm_auth_blocked: false,
        llm_stall_blocked: false,
        needs_llm_polish: true,
        streaming_insert_eligible: true,
    }
}

fn early() -> EarlyFacts {
    EarlyFacts {
        early: EarlyText::Nothing,
        ever_delivered: false,
        composition_active: false,
        composition_contaminated: false,
    }
}

fn until_insertion() -> Vec<FinishEvent> {
    vec![
        CLEAR,
        FinishEvent::RecogniserTaken(Some(ActiveAsr::Volcengine)),
        FinishEvent::TranscriptReady,
        CLEAR,
        KEPT,
        FinishEvent::CandidatesCollected(facts()),
        FinishEvent::Arbitrated { blank: false, automatic_wake: false, body_started: true },
        FinishEvent::TextChosen(text()),
        FinishEvent::TextPrepared,
        FinishEvent::InsertionDecided { applied: true },
    ]
}

#[test]
fn a_dictation_is_completed() {
    let mut events = until_insertion();
    events.push(FinishEvent::EarlyDeliveryRead(early()));
    assert_eq!(run(&events).action, FinishAction::Dispatch);
    events.push(FinishEvent::Delivered { retain_on_clipboard: true });
    assert_eq!(run(&events).action, FinishAction::RetainClipboard);
    events.push(FinishEvent::ClipboardSettled { post_key: true });
    assert_eq!(run(&events).action, FinishAction::SendPostKey);
    events.push(FinishEvent::PostKeySettled);
    assert_eq!(run(&events).action, FinishAction::Close(Closing::Completed));
    assert!(events.len() <= 21);
}

#[test]
fn only_an_accepted_stop_is_completed() {
    assert_eq!(finish_end_session_after_stop_transition(DictationTransition::Ignored), None);
    let nobody = DictationTransition::Applied { session_id: None };
    assert_eq!(finish_end_session_after_stop_transition(nobody), None);
    let (_, step) = finish_end_session_after_stop_transition(STOPPED).unwrap();
    assert_eq!(
        step.action,
        FinishAction::CheckSourceIntegrity(IntegrityBoundary::BeforeAsrFinalization)
    );
}

#[test]
fn nothing_follows_the_end() {
    let step = run(&[FinishEvent::IntegrityChecked(IntegrityCheck::DropStale)]);
    assert!(!event_is_awaited(step.stage, CLEAR));
    assert!(!event_is_awaited(FinishStage::Recogniser, CLEAR));
    assert!(event_is_awaited(FinishStage::Replay, FinishEvent::ReplayTimedOut));
}

#[test]
fn a_refused_source_ends_everything() {
    for check in [IntegrityCheck::CloseBlocked, IntegrityCheck::DropStale] {
        let step = run(&[FinishEvent::IntegrityChecked(check)]);
        assert_eq!(step.action, FinishAction::Close(Closing::SourceRefused(check)));
        assert_eq!(step.stage, FinishStage::Done);
        let late = run(&[
            CLEAR,
            FinishEvent::RecogniserTaken(Some(ActiveAsr::Whisper)),
            FinishEvent::TranscriptReady,
            FinishEvent::IntegrityChecked(check),
        ]);
        assert_eq!(late.action, FinishAction::Close(Closing::SourceRefused(check)));
    }
    assert_eq!(source_integrity_must_stop(None), IntegrityCheck::Proceed);
    assert_eq!(source_integrity_must_stop(Some(SourceIntegrityQualification::Allowed)), IntegrityCheck::Proceed);
    assert_eq!(
        source_integrity_must_stop(Some(SourceIntegrityQualification::SourceIntegrityBlocked)),
        IntegrityCheck::CloseBlocked
    );
    assert_eq!(
        source_integrity_must_stop(Some(SourceIntegrityQualification::OwnerMismatch)),
        IntegrityCheck::DropStale
    );
    assert_eq!(IntegrityBoundary::BeforeAsrFinalization.label(), "before_asr_finalization");
    assert_eq!(IntegrityBoundary::BeforeReplay.label(), "provider_error_before_replay");
    assert_eq!(IntegrityBoundary::BeforeErrorClose.label(), "provider_error_before_error_close");
    assert_eq!(
        IntegrityBoundary::AfterProviderFinal.label(),
        "after_provider_final_before_product_arbitration"
    );
    assert!(IntegrityBoundary::BeforeReplay.announces_recovery());
    assert!(!IntegrityBoundary::AfterProviderFinal.announces_recovery());
}

#[test]
fn a_failed_provider_is_replayed() {
    let failed = |asr, permits_replay, global_timeout| vec![
        CLEAR,
        FinishEvent::RecogniserTaken(Some(asr)),
        FinishEvent::TranscriptFailed { permits_replay, global_timeout },
    ];
    let mut events = failed(ActiveAsr::Volcengine, true, false);
    events.push(CLEAR);
    assert_eq!(run(&events).action, FinishAction::ReplayRetainedAudio);
    let mut recovered = events.clone();
    recovered.push(FinishEvent::ReplayReady);
    assert_eq!(run(&recovered).stage, FinishStage::GateAfterFinal { asr: ActiveAsr::Volcengine });
    let mut late = events.clone();
    late.push(FinishEvent::ReplayTimedOut);
    assert_eq!(run(&late).action, FinishAction::Close(Closing::ReplayTimedOut));
    events.push(FinishEvent::ReplayFailed);
    events.push(FinishEvent::NetworkProbed { reachable_or_unknown: false });
    assert_eq!(run(&events).action, FinishAction::Close(Closing::ReplayFailed { network_blamed: true }));
    let mut timeout = failed(ActiveAsr::Bailian, true, true);
    timeout.push(CLEAR);
    assert_eq!(
        run(&timeout).action,
        FinishAction::Close(Closing::RecogniserTimedOut { asr: ActiveAsr::Bailian })
    );
    let mut local = failed(ActiveAsr::FoundryLocalWhisper, false, false);
    local.push(FinishEvent::CancelChecked { cancelled: true });
    assert_eq!(run(&local).action, FinishAction::Close(Closing::LocalCancelled));
    assert_eq!(run(&[CLEAR, FinishEvent::RecogniserTaken(None)]).action, FinishAction::Close(Closing::NoRecogniser));
    assert!(asr_transcribe_uses_global_timeout(&ActiveAsr::Local));
    assert!(!asr_transcribe_uses_global_timeout(&ActiveAsr::FoundryLocalWhisper));
}

#[test]
fn a_cancelled_session_shows_nothing() {
    let mut events = until_insertion();
    events.truncate(4);
    events.push(FinishEvent::CancelChecked { cancelled: true });
    assert_eq!(run(&events).action, FinishAction::Close(Closing::Cancelled));
    let mut events = until_insertion();
    events.pop();
    events.push(FinishEvent::InsertionDecided { applied: false });
    assert_eq!(run(&events).action, FinishAction::Close(Closing::OutputDiscarded));
}

#[test]
fn empty_finals_are_looked_into() {
    let after = |facts| {
        let mut events = until_insertion();
        events.truncate(5);
        events.push(FinishEvent::CandidatesCollected(facts));
        run(&events)
    };
    let blank = CandidateFacts { primary_blank: true, ..facts() };
    assert_eq!(after(blank).action, FinishAction::RetryEmptyFinal);
    let woken = CandidateFacts { automatic_wake: true, ..blank };
    assert_eq!(after(woken).action, FinishAction::Arbitrate { invalidate_preview: false });
    let sustained = CandidateFacts { sustained_speech: true, ..woken };
    assert_eq!(after(sustained).action, FinishAction::RetryEmptyFinal);
    let shadow = CandidateFacts { shadow_elapsed_ms: Some(100), ..facts() };
    assert_eq!(after(shadow).action, FinishAction::AwaitShadow { budget_ms: 750 });
    let late = CandidateFacts { shadow_elapsed_ms: Some(850), ..facts() };
    assert_eq!(after(late).action, FinishAction::Arbitrate { invalidate_preview: false });
    let filtered = CandidateFacts { filter_required: true, ..shadow };
    assert_eq!(after(filtered).action, FinishAction::Arbitrate { invalidate_preview: true });
    let end = |automatic_wake, body_started| {
        let mut events = until_insertion();
        events.truncate(6);
        events.push(FinishEvent::Arbitrated { blank: true, automatic_wake, body_started });
        run(&events).action
    };
    assert_eq!(end(true, false), FinishAction::Close(Closing::WakeOnlyExpired));
    assert_eq!(end(true, true), FinishAction::Close(Closing::EmptyTranscript));
    assert_eq!(end(false, false), FinishAction::Close(Closing::EmptyTranscript));
    assert!(!local_shadow_decode_fits(63_999));
    assert!(local_shadow_decode_fits(64_000));
    assert!(local_shadow_decode_fits(640_031));
    assert!(!local_shadow_decode_fits(640_032));
}

#[test]
fn early_text_is_not_followed_by_itself() {
    let after = |facts| {
        let mut events = until_insertion();
        events.push(FinishEvent::EarlyDeliveryRead(facts));
        events
    };
    for kind in [EarlyText::Covered, EarlyText::Rewritten] {
        let facts = EarlyFacts { early: kind, ever_delivered: true, ..early() };
        assert_eq!(run(&after(facts)).action, FinishAction::RecordEarlyTextOnly);
    }
    let lost = EarlyFacts { ever_delivered: true, ..early() };
    assert_eq!(run(&after(lost)).action, FinishAction::RecordEarlyTextOnly);
    let rest = EarlyFacts { early: EarlyText::Remainder, ever_delivered: true, ..early() };
    assert_eq!(run(&after(rest)).action, FinishAction::Dispatch);
    let stained = EarlyFacts { composition_contaminated: true, ..early() };
    assert_eq!(run(&after(stained)).action, FinishAction::RecordEarlyTextOnly);
    let open = EarlyFacts { composition_active: true, ..rest };
    let mut events = after(open);
    assert_eq!(run(&events).action, FinishAction::CommitComposition);
    events.push(FinishEvent::CompositionSettled { finalized: true, contaminated: false });
    assert_eq!(run(&events).action, FinishAction::RecordComposition);
    let dropped = EarlyFacts { composition_active: true, ..lost };
    let mut events = after(dropped);
    assert_eq!(run(&events).action, FinishAction::CancelComposition);
    events.push(FinishEvent::CompositionSettled { finalized: false, contaminated: false });
    assert_eq!(run(&events).action, FinishAction::RecordEarlyTextOnly);
}

#[test]
fn texts_are_made_in_four_ways() {
    assert_eq!(choose_text_route(text()), TextRoute::StreamingPolish);
    assert_eq!(
        choose_text_route(TextFacts { translation_active: true, llm_auth_blocked: true, ..text() }),
        TextRoute::Translate
    );
    assert_eq!(
        choose_text_route(TextFacts { llm_stall_blocked: true, ..text() }),
        TextRoute::RawWithoutPolish
    );
    assert_eq!(
        choose_text_route(TextFacts { llm_auth_blocked: true, needs_llm_polish: false, ..text() }),
        TextRoute::OneShotPolish
    );
    assert_eq!(
        choose_text_route(TextFacts { streaming_insert_eligible: false, ..text() }),
        TextRoute::OneShotPolish
    );
}

#[test]
fn closings_say_what_they_must() {
    let notice = |c: Closing| c.user_notice("why", "网络不通");
    assert_eq!(notice(Closing::ReplayFailed { network_blamed: true }).unwrap(), "网络不通，本次识别未能恢复");
    assert_eq!(notice(Closing::ReplayFailed { network_blamed: false }).unwrap(), "识别恢复失败: why");
    assert_eq!(notice(Closing::ReplayTimedOut).unwrap(), "识别恢复超时");
    assert_eq!(notice(Closing::RecogniserFailed { asr: ActiveAsr::Local }).unwrap(), "本地识别失败: why");
    assert_eq!(notice(Closing::RecogniserFailed { asr: ActiveAsr::Whisper }).unwrap(), "识别失败: why");
    assert_eq!(notice(Closing::RecogniserTimedOut { asr: ActiveAsr::Whisper }).unwrap(), "识别超时");
    assert_eq!(notice(Closing::EmptyTranscript).unwrap(), "没有识别到语音");
    assert_eq!(notice(Closing::Completed), None);
    let error = |c: Closing| c.outcome("why").unwrap_err();
    assert_eq!(error(Closing::ReplayTimedOut), "recovery replay timeout");
    assert_eq!(error(Closing::ReplayFailed { network_blamed: true }), "why");
    assert_eq!(error(Closing::RecogniserTimedOut { asr: ActiveAsr::Whisper }), "whisper global timeout");
    assert_eq!(error(Closing::RecogniserTimedOut { asr: ActiveAsr::Bailian }), "bailian global timeout");
    assert_eq!(error(Closing::RecogniserTimedOut { asr: ActiveAsr::Local }), "local global timeout");
    assert_eq!(error(Closing::EmptyTranscript), "ASR returned empty transcript");
    assert_eq!(Closing::WakeOnlyExpired.outcome("why"), Ok(()));
    assert!(Closing::RecogniserFailed { asr: ActiveAsr::Volcengine }.cancels_stream());
    assert!(!Closing::RecogniserFailed { asr: ActiveAsr::Bailian }.cancels_stream());
    assert!(Closing::LocalCancelled.releases_foundry() && Closing::LocalCancelled.restores_text_service());
    assert!(!Closing::Completed.restores_text_service());
}

#[test]
fn local_recognisers_are_released() {
    let after = schedule_local_recogniser_release;
    let failed = FinishEvent::TranscriptFailed { permits_replay: false, global_timeout: true };
    let mac = FinishStage::Transcript { asr: ActiveAsr::Local };
    assert_eq!(after(mac, FinishEvent::TranscriptReady), Some(ActiveAsr::Local));
    assert_eq!(after(mac, failed), Some(ActiveAsr::Local));
    let windows = FinishStage::Transcript { asr: ActiveAsr::FoundryLocalWhisper };
    assert_eq!(after(windows, FinishEvent::TranscriptReady), Some(ActiveAsr::FoundryLocalWhisper));
    assert_eq!(after(windows, failed), None);
    let cancelled = FinishEvent::CancelChecked { cancelled: true };
    assert_eq!(after(FinishStage::LocalCancelCheck, cancelled), Some(ActiveAsr::FoundryLocalWhisper));
    assert_eq!(after(FinishStage::LocalCancelCheck, KEPT), None);
    let gate = FinishStage::GateBeforeErrorClose { asr: ActiveAsr::FoundryLocalWhisper, timed_out: false };
    assert_eq!(after(gate, CLEAR), Some(ActiveAsr::FoundryLocalWhisper));
    assert_eq!(after(gate, FinishEvent::IntegrityChecked(IntegrityCheck::CloseBlocked)), None);
    let cloud = FinishStage::Transcript { asr: ActiveAsr::Whisper };
    assert_eq!(after(cloud, FinishEvent::TranscriptReady), None);
}

#[test]
fn a_recorder_fails_only_its_own_question() {
    let mut qa = panel();
    assert!(qa.begin_qa_session(SessionId { bits: 5 }, None));
    assert_eq!(qa.recorder_failed(SessionId { bits: 4 }, "gone"), None);
    assert_eq!(qa.phase, QaPhase::Recording);
    assert_eq!(qa.recorder_failed(SessionId { bits: 5 }, "gone").unwrap(), "录音设备异常: gone");
    assert_eq!(qa.phase, QaPhase::Idle);
}

fn said(text: &str) -> QaRecognition {
    QaRecognition::Text(text.to_string())
}

fn panel() -> QaSessionState {
    QaSessionState {
        session_id: SessionId { bits: 0 },
        phase: QaPhase::Idle,
        panel_visible: true,
        pinned: false,
        cancelled: false,
        stream_cancelled: false,
        selection: None,
        front_app: None,
        messages: vec![],
    }
}

#[test]
fn a_question_is_asked_and_answered() {
    let mut qa = panel();
    assert!(qa.begin_qa_session(SessionId { bits: 5 }, Some("app".to_string())));
    assert!(!qa.begin_qa_session(SessionId { bits: 6 }, None));
    qa.selection_captured(Some(" 原文 ".to_string()));
    assert_eq!(qa.end_qa_session(true), QaEndStep::AwaitRecognition);
    assert_eq!(qa.end_qa_session(true), QaEndStep::NotRecording);
    assert_eq!(qa.take_recognition(&said(" 什么意思 ")), QaTranscriptDecision::AskModel);
    assert_eq!(qa.messages[0].role, "user");
    assert_eq!(qa.messages[0].content, "# 选区原文\n原文\n\n# 我的问题\n什么意思");
    assert_eq!(qa.settle_answer(Some("答".to_string())), QaAnswerDecision::ShowAnswer);
    assert_eq!((qa.messages.len(), qa.messages[1].role.as_str()), (2, "assistant"));
    assert_eq!(qa.phase, QaPhase::Idle);
    assert_eq!(qa.take_recognition(&said("再问")), QaTranscriptDecision::AskModel);
    assert_eq!(qa.messages[2].content, "再问");
    assert_eq!(qa.settle_answer(None), QaAnswerDecision::ShowFailure);
    assert_eq!(qa.messages.len(), 2);
    assert!(qa.is_current(SessionId { bits: 5 }) && !qa.is_current(SessionId { bits: 6 }));
}

#[test]
fn a_question_can_be_given_up() {
    let mut qa = panel();
    qa.begin_qa_session(SessionId { bits: 5 }, None);
    assert_eq!(qa.take_recognition(&said("  ")), QaTranscriptDecision::GoQuiet);
    assert_eq!(qa.phase, QaPhase::Idle);
    assert!(!qa.cancel_qa_session());
    qa.begin_qa_session(SessionId { bits: 6 }, None);
    qa.end_qa_session(true);
    qa.take_recognition(&said("问"));
    assert!(qa.cancel_qa_session());
    assert!(qa.stream_cancelled);
    assert_eq!(qa.phase, QaPhase::Processing);
    assert_eq!(qa.settle_answer(Some("答".to_string())), QaAnswerDecision::GoQuiet);
    assert!(qa.messages.is_empty() && !qa.cancelled);
    assert!(qa.qa_active());
    qa.panel_visible = false;
    assert!(!qa.qa_active());
    qa.phase = QaPhase::Recording;
    assert_eq!(qa.end_qa_session(false), QaEndStep::NoRecogniser);
    assert_eq!(qa.phase, QaPhase::Idle);
}

#[test]
fn a_question_can_fail() {
    let mut qa = panel();
    for (recognition, failure, words, error) in [
        (QaRecognition::Failed, QaTurnFailure::RecognitionFailed, "识别失败: why", "why"),
        (QaRecognition::TimedOut, QaTurnFailure::RecognitionTimedOut, "识别超时", "global timeout"),
    ] {
        qa.phase = QaPhase::Processing;
        qa.cancelled = true;
        let decision = qa.take_recognition(&recognition);
        assert_eq!(decision, QaTranscriptDecision::Fail(failure));
        assert_eq!(decision.panel().kind(), "error");
        assert_eq!((qa.phase, qa.cancelled), (QaPhase::Idle, false));
        assert_eq!(failure.user_notice("why"), words);
        assert_eq!(failure.error("why"), error);
        assert_eq!(failure.cancels_recogniser(), failure == QaTurnFailure::RecognitionTimedOut);
    }
    assert_eq!(QaTurnFailure::AnswerFailed.user_notice("why"), "回答失败: why");
    assert_eq!(qa.settle_answer(None), QaAnswerDecision::ShowFailure);
    assert!(qa.messages.is_empty());
    for (panel, kind) in [
        (QaPanelState::Recording, "recording"),
        (QaPanelState::Loading, "loading"),
        (QaTranscriptDecision::AskModel.panel(), "thinking"),
        (QaAnswerDecision::ShowAnswer.panel(), "answer"),
        (QaTranscriptDecision::GoQuiet.panel(), "idle"),
        (QaAnswerDecision::GoQuiet.panel(), "idle"),
        (QaAnswerDecision::ShowFailure.panel(), "error"),
    ] {
        assert_eq!(panel.kind(), kind);
    }
    qa.qa_window_pin(true);
    assert!(qa.pinned);
}

#[test]
fn a_question_begins_in_four_steps() {
    let mut qa = panel();
    qa.begin_qa_session(SessionId { bits: 5 }, None);
    let (stage, action) = qa.begin_step(QaBeginStage::Credentials, true);
    assert_eq!((stage, action), (QaBeginStage::Microphone, QaBeginAction::CheckMicrophone));
    let (stage, action) = qa.begin_step(stage, true);
    assert_eq!(action, QaBeginAction::StartRecorder);
    let (stage, action) = qa.begin_step(stage, true);
    assert_eq!(action, QaBeginAction::OpenRecogniser);
    assert_eq!(qa.begin_step(stage, true), (QaBeginStage::Done, QaBeginAction::Attach));
    qa.cancelled = true;
    assert_eq!(qa.begin_step(QaBeginStage::Recogniser, true).1, QaBeginAction::AbortQuietly);
    for (stage, failure, words) in [
        (QaBeginStage::Credentials, QaBeginFailure::CredentialsMissing, "缺少 ASR 凭据：why"),
        (QaBeginStage::Microphone, QaBeginFailure::MicrophoneDenied, "why"),
        (QaBeginStage::Recorder, QaBeginFailure::RecorderFailed, "录音启动失败: why"),
        (QaBeginStage::Recogniser, QaBeginFailure::RecogniserFailed, "ASR 连接失败: why"),
    ] {
        qa.phase = QaPhase::Recording;
        assert_eq!(qa.begin_step(stage, false), (QaBeginStage::Done, QaBeginAction::Fail(failure)));
        assert_eq!(qa.phase, QaPhase::Idle);
        assert_eq!(failure.user_notice("why"), words);
        assert_eq!(failure.cancels_recogniser(), stage == QaBeginStage::Recogniser);
    }
}

#[test]
fn levels_and_turns_are_recorded() {
    let mut qa = panel();
    let mut last = None;
    assert!(!qa.level_due(&mut last, 0));
    qa.phase = QaPhase::Recording;
    assert!(qa.level_due(&mut last, 100));
    assert!(!qa.level_due(&mut last, 132));
    assert!(qa.level_due(&mut last, 133));
    let turn = |save| {
        qa_history_entry(save, "i".to_string(), "t".to_string(), " q ", "a".to_string(), Some("app".to_string()), 9)
    };
    assert!(turn(false).is_none());
    let entry = turn(true).unwrap();
    assert_eq!(entry.app_name.as_deref(), Some("app"));
    assert_eq!(entry.error_code.as_deref(), Some("qaSession"));
    assert_eq!((entry.insert_status, entry.duration_ms), (InsertStatus::CopiedFallback, Some(9)));
    assert_eq!((entry.raw_transcript.as_str(), entry.final_text.as_str()), ("q", "a"));
    qa.selection = Some("s".to_string());
    qa.cancelled = true;
    qa.finish_qa_idle_silently();
    assert!(qa.selection.is_none() && !qa.cancelled);
    qa.cancelled = true;
    qa.finish_qa_with_error();
    assert!(!qa.cancelled);
}
