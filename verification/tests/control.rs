use listener_coordinator::asr::LocalModelState;
use listener_coordinator::ble::EmbeddedBleWakeRecoverySnapshot;
use listener_coordinator::capsule::{
    layout_after_placing, reposition_capsule_after_display_change, CapsuleLayoutState,
    MonitorGeometry,
};
use listener_coordinator::closeout::EmbeddedAudioTranscriptResult;
use listener_coordinator::continuation::{
    stage_terminal_wake_continuation_with_body_at, TerminalWakeContinuation,
};
use listener_coordinator::coordinator::{
    foreground_probe_result, probe_embedded_audio_ble_subscription, probe_step, probe_timeouts, settle_repair,
    repair_embedded_ble_connection, Coordinator, EmbeddedBleForegroundProbeMode, ForegroundProbe,
    InputSourceStartup, ManualStop, ProbeStage, ProbeStep, StartStep,
};
use listener_coordinator::credentials::CredentialSnapshot;
use listener_coordinator::device::DeviceContext;
use listener_coordinator::hotkeys::{
    ensure_modifier_hotkey_monitor, handle_window_hotkey_event, hotkey_bridge_loop,
    reset_shortcut_held_state, translation_registration, try_update_translation_hotkey_binding,
    update_action_hotkey_binding, update_combo_hotkey_binding, update_hotkey_binding,
    update_open_app_hotkey_binding, update_qa_hotkey_binding, update_switch_style_hotkey_binding,
    window_key_matches_trigger, BridgeAction, DeviceKeyMonitor, HotkeyCapability,
    HotkeyEvent, HotkeyStatusState, HotkeyTrigger, InstalledMonitors, MonitorStep, ShortcutFacts,
    TranslationUpdate, WindowHotkeyAction, WindowKeyEvent,
};
use listener_coordinator::llm::{LlmStallCircuit, StreamingPolishOutcome};
use listener_coordinator::polish::{
    debug_transcript_override_text, maybe_start_polish_prefetch, note_one_shot_polish,
    polish_prefetch_adoptable, prefetch_outcome, store_polish_prefetch, take_polish_prefetch,
    text_facts, BuiltinRawStyle, PolishMoment, PolishPrefetch, PrefetchTake,
};
use listener_coordinator::preferences::{
    ChineseScriptPreference, DictationInputSource, OutputLanguagePreference, Platform, PolishMode,
    PostDictationKey, StylePack, StylePackKind, UserPreferences,
};
use listener_coordinator::qa::{QaPhase, QaSessionState};
use listener_coordinator::recording::{
    activate_embedded_audio_dictation_session, append_typed_prefix,
    begin_embedded_audio_dictation_session, begin_embedded_audio_dictation_session_id,
    cancel_embedded_ble_session_through_actor, cancel_session, cancel_session_direct,
    embedded_audio_file_session_id, embedded_opening_failure, recording_stop_step,
    request_embedded_ble_firmware_cancel_on_active_recording,
    request_embedded_ble_recording_stop_from_host,
    request_embedded_ble_recording_stop_from_host_for_endpoint, stop_starts_prefetch,
    submission_result_from_stats, take_embedded_audio_final_result, ActivationStep,
    CancelledSession, CaptureEnd, SessionEndReason, SessionStats, StopKind, StopStage, StopStep,
};
use listener_coordinator::session::{SessionId, SessionPhase, SessionState};

const BUILTIN: BuiltinRawStyle = BuiltinRawStyle { id: "raw", prompt: "as is" };
const CALM: PolishMoment = PolishMoment {
    translation_modifier_seen: false,
    llm_auth_blocked: false,
    llm_stall_blocked: false,
};
const DEVICE: DeviceContext = DeviceContext {
    cancel_flag_registered: false,
    stats_present: false,
    input_source: DictationInputSource::EmbeddedBle,
};
const MICROPHONE: DeviceContext = DeviceContext {
    cancel_flag_registered: false,
    stats_present: false,
    input_source: DictationInputSource::Microphone,
};

fn id(bits: u128) -> SessionId {
    SessionId { bits }
}

fn state(session: u128, phase: SessionPhase) -> SessionState {
    SessionState {
        session_id: id(session),
        phase,
        pending_stop: false,
        cancelled: false,
        user_initiated_stop: false,
        post_dictation_key_claimed: false,
    }
}

fn prefs() -> UserPreferences {
    UserPreferences {
        active_asr_provider: "groq".to_string(),
        dictation_input_source: DictationInputSource::EmbeddedBle,
        dictation_input_source_user_overridden: false,
        working_languages: vec![],
        chinese_script_preference: ChineseScriptPreference::Auto,
        output_language_preference: OutputLanguagePreference::Auto,
        foundry_local_asr_language_hint: String::new(),
        foundry_local_asr_model: String::new(),
        foundry_local_runtime_source: String::new(),
        foundry_local_asr_keep_loaded_secs: 0,
        local_asr_keep_loaded_secs: 0,
        record_audio_for_debug: false,
        translation_target_language: "English".to_string(),
        restore_clipboard_after_paste: true,
        copy_dictation_to_clipboard: false,
        allow_non_tsf_insertion_fallback: true,
        streaming_insert: true,
        send_key_after_dictation: false,
        post_dictation_key: PostDictationKey::Enter,
        polish_context_window_minutes: 5,
    }
}

fn pack(base_mode: PolishMode) -> StylePack {
    StylePack {
        id: "raw".to_string(),
        name: "Raw".to_string(),
        kind: StylePackKind::Builtin,
        base_mode,
        prompt: "as is".to_string(),
    }
}

fn store() -> CredentialSnapshot {
    CredentialSnapshot {
        active_llm: "ark".to_string(),
        active_asr: "volcengine".to_string(),
        ark_api_key: Ok(None),
        ark_model_id: Ok(None),
        ark_endpoint: Ok(None),
        asr_api_key: Ok(None),
        asr_endpoint: Ok(None),
        asr_model: Ok(None),
        asr_vocabulary_id: Ok(None),
        volcengine_app_key: Ok(None),
        volcengine_access_key: Ok(None),
        volcengine_resource_id: Ok(None),
        llm_proxy_mode: Ok(None),
        llm_proxy_url: Ok(None),
        asr_proxy_mode: Ok(None),
        asr_proxy_url: Ok(None),
    }
}

fn combination() -> ShortcutFacts {
    ShortcutFacts {
        modifier_trigger: None,
        modifier_only: false,
        unconfigured: false,
        builtin_translation_shift: false,
    }
}

fn single() -> ShortcutFacts {
    ShortcutFacts {
        modifier_trigger: Some(HotkeyTrigger::RightAlt),
        modifier_only: true,
        ..combination()
    }
}

#[test]
fn what_decides_a_text_is_collected() {
    let facts = text_facts(&prefs(), &pack(PolishMode::Raw), BUILTIN, false, CALM, true);
    assert!(!facts.needs_llm_polish && facts.streaming_insert_eligible && !facts.translation_active);
    let asked = PolishMoment { translation_modifier_seen: true, ..CALM };
    assert!(text_facts(&prefs(), &pack(PolishMode::Raw), BUILTIN, false, asked, false).translation_active);
    let mut nowhere = prefs();
    nowhere.translation_target_language = " ".to_string();
    assert!(!text_facts(&nowhere, &pack(PolishMode::Raw), BUILTIN, false, asked, false).translation_active);
    assert!(text_facts(&prefs(), &pack(PolishMode::Formal), BUILTIN, true, CALM, true).needs_llm_polish);
    let mut changed = pack(PolishMode::Raw);
    changed.prompt = "changed".to_string();
    assert!(text_facts(&prefs(), &changed, BUILTIN, false, CALM, true).needs_llm_polish);
    assert!(!text_facts(&prefs(), &changed, BUILTIN, true, CALM, true).needs_llm_polish);
}

#[test]
fn refused_credentials_do_not_count_as_a_stall() {
    let mut circuit = LlmStallCircuit::new();
    note_one_shot_polish(&mut circuit, Some("request failed with status 401"), 0);
    note_one_shot_polish(&mut circuit, Some("timeout"), 0);
    assert!(!circuit.is_open(1));
    note_one_shot_polish(&mut circuit, Some("timeout"), 0);
    assert!(circuit.is_open(1));
    note_one_shot_polish(&mut circuit, None, 2);
    assert!(!circuit.is_open(3));
}

#[test]
fn a_debugging_file_replaces_the_transcript() {
    assert_eq!(debug_transcript_override_text(Some(" text \n")).as_deref(), Some("text"));
    assert_eq!(debug_transcript_override_text(Some(" \n")), None);
    assert_eq!(debug_transcript_override_text(None), None);
}

#[test]
fn a_preview_is_polished_ahead_where_it_pays() {
    let light = pack(PolishMode::Light);
    let ahead = |p: &UserPreferences, m, force, s: Option<&StylePack>, text| {
        maybe_start_polish_prefetch(p, m, force, s, BUILTIN, text)
    };
    assert_eq!(ahead(&prefs(), CALM, None, Some(&light), Some(" hi ")).as_deref(), Some("hi"));
    assert_eq!(ahead(&prefs(), CALM, Some("0"), Some(&light), Some("hi")).as_deref(), Some("hi"));
    assert_eq!(ahead(&prefs(), CALM, Some("1"), Some(&light), Some("hi")), None);
    assert_eq!(ahead(&prefs(), CALM, None, None, Some("hi")), None);
    assert_eq!(ahead(&prefs(), CALM, None, Some(&pack(PolishMode::Raw)), Some("hi")), None);
    assert_eq!(ahead(&prefs(), CALM, None, Some(&light), Some("  ")), None);
    assert_eq!(ahead(&prefs(), CALM, None, Some(&light), None), None);
    let mut at_once = prefs();
    at_once.streaming_insert = false;
    assert_eq!(ahead(&at_once, CALM, None, Some(&light), Some("hi")), None);
    for blocked in [
        PolishMoment { translation_modifier_seen: true, ..CALM },
        PolishMoment { llm_auth_blocked: true, ..CALM },
        PolishMoment { llm_stall_blocked: true, ..CALM },
    ] {
        assert_eq!(ahead(&prefs(), blocked, None, Some(&light), Some("hi")), None);
    }
}

#[test]
fn a_polish_ahead_serves_the_same_text_only() {
    let made = |session, result| PolishPrefetch { session_id: id(session), input: "hi".to_string(), task: session as u64, result };
    let done = made(1, Some(StreamingPolishOutcome::Streamed("Hi.".to_string())));
    assert!(polish_prefetch_adoptable(&done, "hi"));
    assert!(!polish_prefetch_adoptable(&done, "hi there"));
    assert!(polish_prefetch_adoptable(&made(1, None), "hi"));
    let failed = made(1, Some(prefetch_outcome(StreamingPolishOutcome::UnsupportedFallback)));
    assert!(failed.failed() && !polish_prefetch_adoptable(&failed, "hi"));
    assert!(matches!(&failed.result, Some(StreamingPolishOutcome::Failed(r)) if r == "prefetch unsupported"));
    let mut slot = None;
    assert_eq!(store_polish_prefetch(&mut slot, made(1, None)), None);
    assert_eq!(store_polish_prefetch(&mut slot, made(2, None)), Some(1));
    assert!(matches!(take_polish_prefetch(&mut slot, id(1)), PrefetchTake::Cancel(2)));
    assert!(matches!(take_polish_prefetch(&mut slot, id(2)), PrefetchTake::Absent));
    store_polish_prefetch(&mut slot, made(2, None));
    assert!(matches!(take_polish_prefetch(&mut slot, id(2)), PrefetchTake::Own(p) if p.task == 2));
}

#[test]
fn a_stop_passes_every_check() {
    let mut stage = match request_embedded_ble_recording_stop_from_host_for_endpoint(
        DEVICE, &state(1, SessionPhase::Listening), id(1), true,
    ) {
        StopStep::Await(stage) => stage,
        other => panic!("{other:?}"),
    };
    let mut seen = vec![stage];
    loop {
        match recording_stop_step(StopKind::Endpoint, stage, true) {
            StopStep::Await(next) => {
                stage = next;
                seen.push(next);
            }
            other => {
                assert_eq!(other, StopStep::Stopped);
                break;
            }
        }
    }
    assert_eq!(
        seen,
        vec![
            StopStage::ClaimTicket, StopStage::RecheckTicket, StopStage::Commit,
            StopStage::LastCheck, StopStage::Write,
        ]
    );
    let refused = |stage| recording_stop_step(StopKind::Endpoint, stage, false);
    assert_eq!(refused(StopStage::ClaimTicket), StopStep::NotStopped);
    assert_eq!(refused(StopStage::RecheckTicket), StopStep::NotStopped);
    assert_eq!(refused(StopStage::Commit), StopStep::NotStopped);
    assert_eq!(refused(StopStage::LastCheck), StopStep::TakenBack);
    assert_eq!(refused(StopStage::Write), StopStep::WriteFailed);
    assert_eq!(
        recording_stop_step(StopKind::Host, StopStage::Commit, true),
        StopStep::Await(StopStage::Write)
    );
    let outcome = |step: StopStep| step.outcome("off".to_string());
    assert_eq!(outcome(StopStep::Await(StopStage::Write)), None);
    assert_eq!(outcome(StopStep::NotStopped), Some(Ok(false)));
    assert_eq!(outcome(StopStep::TakenBack), Some(Ok(false)));
    assert_eq!(outcome(StopStep::Stopped), Some(Ok(true)));
    assert_eq!(outcome(StopStep::WriteFailed), Some(Err("off".to_string())));
}

#[test]
fn only_an_open_recording_is_stopped() {
    let host = request_embedded_ble_recording_stop_from_host;
    assert_eq!(host(DEVICE, &state(1, SessionPhase::Starting)), StopStep::Await(StopStage::Commit));
    assert_eq!(host(DEVICE, &state(1, SessionPhase::Processing)), StopStep::NotStopped);
    assert_eq!(host(MICROPHONE, &state(1, SessionPhase::Listening)), StopStep::NotStopped);
    let endpoint = request_embedded_ble_recording_stop_from_host_for_endpoint;
    let listening = state(1, SessionPhase::Listening);
    assert_eq!(endpoint(DEVICE, &listening, id(2), true), StopStep::NotStopped);
    assert_eq!(endpoint(DEVICE, &listening, id(1), false), StopStep::NotStopped);
    let mut cancelled = listening;
    cancelled.cancelled = true;
    assert_eq!(endpoint(DEVICE, &cancelled, id(1), true), StopStep::NotStopped);
    assert!(stop_starts_prefetch("device_key_stop"));
    assert!(stop_starts_prefetch("device_key_stop_retry"));
    assert!(stop_starts_prefetch("capsule_confirm_stop_processing_start"));
    assert!(!stop_starts_prefetch("target_speaker_inactive_3000ms"));
}

#[test]
fn a_cancel_tells_the_device_first() {
    let mut asked = 0;
    assert!(request_embedded_ble_firmware_cancel_on_active_recording(SessionPhase::Listening, || {
        asked += 1;
        Ok(())
    }));
    assert_eq!(asked, 1);
    assert!(!request_embedded_ble_firmware_cancel_on_active_recording(SessionPhase::Starting, || Err("off".to_string())));
    assert!(!request_embedded_ble_firmware_cancel_on_active_recording(SessionPhase::Processing, || panic!()));
    let cancelled = Some(CancelledSession { session_id: id(1), phase: SessionPhase::Listening });
    let told = cancel_embedded_ble_session_through_actor(cancelled, true, &state(1, SessionPhase::Idle));
    assert!(!told.light_off && !told.hide_capsule);
    assert_eq!((told.capture, told.close), (CaptureEnd::RaiseFlag, Some(id(1))));
    assert!(cancel_embedded_ble_session_through_actor(cancelled, false, &state(1, SessionPhase::Idle)).light_off);
    let nothing = cancel_embedded_ble_session_through_actor(None, true, &state(0, SessionPhase::Idle));
    assert!(nothing.light_off && nothing.hide_capsule && nothing.close.is_none());
    assert!(!cancel_embedded_ble_session_through_actor(None, false, &state(1, SessionPhase::Inserting)).hide_capsule);
    assert_eq!(cancel_session_direct(cancelled).capture, CaptureEnd::ThroughActor);
    assert_eq!(cancel_session_direct(None).capture, CaptureEnd::Untouched);
    let mut waiting = None;
    assert!(stage_terminal_wake_continuation_with_body_at(&mut waiting, "hey".to_string(), vec![1u8], 0));
    let route = cancel_session(&mut waiting, DEVICE, &state(1, SessionPhase::Processing));
    assert!(route.through_actor && route.lift_guard && waiting.is_none());
    let route = cancel_session(&mut waiting, MICROPHONE, &state(1, SessionPhase::Processing));
    assert!(!route.through_actor && !route.lift_guard);
}

#[test]
fn what_was_typed_is_counted_in_characters() {
    let mut typed = "你".to_string();
    assert_eq!(append_typed_prefix(&mut typed, "好世界", 2), 2);
    assert_eq!(typed, "你好世");
    assert_eq!(append_typed_prefix(&mut typed, "界", 9), 1);
    assert_eq!(typed, "你好世界");
    assert_eq!(append_typed_prefix(&mut typed, "!", 0), 0);
}

#[test]
fn a_submission_must_have_been_stopped() {
    let stats = |terminal, end| SessionStats {
        terminal_received: terminal,
        end_reason: end,
        reconstructed_pcm_bytes: 640,
    };
    let ok = submission_result_from_stats(true, stats(true, Some(SessionEndReason::Stop)), None).unwrap();
    assert_eq!(ok.reconstructed_pcm_bytes, 640);
    assert!(ok.transcript.is_none());
    let open = "嵌入式音频流式会话尚未收到结束包";
    assert_eq!(submission_result_from_stats(false, stats(true, Some(SessionEndReason::Stop)), None).unwrap_err(), open);
    assert_eq!(submission_result_from_stats(true, stats(false, None), None).unwrap_err(), open);
    assert_eq!(
        submission_result_from_stats(true, stats(true, Some(SessionEndReason::Other("Cancel".to_string()))), None).unwrap_err(),
        "嵌入式音频流式会话未正常结束: Some(Cancel)"
    );
    assert_eq!(
        submission_result_from_stats(true, stats(true, None), None).unwrap_err(),
        "嵌入式音频流式会话未正常结束: None"
    );
}

#[test]
fn a_final_text_is_taken_by_its_session() {
    let mut slot = Some(EmbeddedAudioTranscriptResult {
        session_id: id(1).to_text(),
        raw_transcript: "raw".to_string(),
        final_text: "final".to_string(),
        error_code: None,
    });
    assert!(take_embedded_audio_final_result(&mut slot, id(2)).is_none());
    assert_eq!(take_embedded_audio_final_result(&mut slot, id(1)).unwrap().final_text, "final");
    assert!(take_embedded_audio_final_result(&mut slot, id(1)).is_none());
}

#[test]
fn audio_joins_the_session_that_waits_for_it() {
    let begin = begin_embedded_audio_dictation_session_id;
    let captured = DeviceContext { cancel_flag_registered: true, ..DEVICE };
    assert_eq!(begin(captured, &state(1, SessionPhase::Starting), || panic!()), Ok(id(1)));
    assert_eq!(
        begin_embedded_audio_dictation_session_id(DEVICE, &state(1, SessionPhase::Starting), || Some(id(2))),
        Ok(id(2))
    );
    assert_eq!(
        begin_embedded_audio_dictation_session_id(captured, &state(1, SessionPhase::Listening), || None).unwrap_err(),
        "当前已有听写会话在运行，暂不能提交嵌入式音频"
    );
    let model = LocalModelState::Unknown("x".to_string());
    let opening = begin_embedded_audio_dictation_session(&prefs(), &store(), Platform::Linux, &model, id(1), true);
    assert!(!opening.lift_wake_guard && opening.correct_stored_asr);
    assert_eq!(opening.active_asr, "groq");
    assert_eq!(opening.gate.unwrap_err(), "请先在设置中填写 ASR 服务商 API Key");
    assert_eq!(
        opening.capsule_message.unwrap(),
        "当前识别引擎为Whisper-compatible (groq)，不是核心 Volcengine 准确引擎，识别可能不准。"
    );
    assert!(embedded_opening_failure(true).cancel_recogniser);
    assert!(!embedded_opening_failure(false).cancel_recogniser);
    assert_eq!(activate_embedded_audio_dictation_session(true), ActivationStep::Feed);
    assert_eq!(activate_embedded_audio_dictation_session(false), ActivationStep::Abandon);
    assert_eq!(embedded_audio_file_session_id(0x1_0000_0005), 5);
}

fn qa(panel_visible: bool) -> QaSessionState {
    QaSessionState {
        session_id: id(0),
        phase: QaPhase::Idle,
        panel_visible,
        pinned: false,
        cancelled: false,
        stream_cancelled: false,
        selection: None,
        front_app: None,
        messages: vec![],
    }
}

fn key(event_type: &str, key: &str, code: &str, repeat: bool) -> WindowKeyEvent {
    WindowKeyEvent {
        event_type: event_type.to_string(),
        key: key.to_string(),
        code: code.to_string(),
        repeat,
    }
}

#[test]
fn left_and_right_keys_differ() {
    assert!(window_key_matches_trigger(HotkeyTrigger::RightControl, "Control", "ControlRight"));
    assert!(!window_key_matches_trigger(HotkeyTrigger::RightControl, "Control", "ControlLeft"));
    assert!(window_key_matches_trigger(HotkeyTrigger::LeftControl, "Control", "ControlLeft"));
    assert!(window_key_matches_trigger(HotkeyTrigger::RightAlt, "AltGraph", "AltRight"));
    assert!(window_key_matches_trigger(HotkeyTrigger::RightOption, "Alt", "AltRight"));
    assert!(window_key_matches_trigger(HotkeyTrigger::LeftOption, "Alt", "AltLeft"));
    assert!(window_key_matches_trigger(HotkeyTrigger::RightCommand, "Meta", "MetaRight"));
    assert!(window_key_matches_trigger(HotkeyTrigger::Fn, "Control", "ControlRight"));
    assert!(!window_key_matches_trigger(HotkeyTrigger::Custom, "Control", "ControlRight"));
}

#[test]
fn window_keys_stand_in_for_the_shortcut() {
    let on = HotkeyCapability { explicit_fallback_available: true };
    let off = HotkeyCapability { explicit_fallback_available: false };
    let trigger = Some(HotkeyTrigger::RightControl);
    let act = |platform, recording, panel, event: WindowKeyEvent, capability| {
        handle_window_hotkey_event(platform, recording, &qa(panel), &event, capability, trigger)
    };
    let escape = || key("keydown", "Escape", "Escape", false);
    assert_eq!(act(Platform::Linux, false, true, escape(), off), WindowHotkeyAction::CloseQaPanel);
    assert_eq!(act(Platform::Linux, false, false, escape(), off), WindowHotkeyAction::CancelSession);
    assert_eq!(act(Platform::Linux, true, true, escape(), off), WindowHotkeyAction::Ignore);
    let down = |repeat| key("keydown", "Control", "ControlRight", repeat);
    assert_eq!(act(Platform::Windows, false, false, down(false), on), WindowHotkeyAction::Pressed);
    assert_eq!(act(Platform::Windows, false, false, down(true), on), WindowHotkeyAction::Ignore);
    assert_eq!(act(Platform::Windows, false, false, down(false), off), WindowHotkeyAction::Ignore);
    assert_eq!(act(Platform::MacOs, false, false, down(false), on), WindowHotkeyAction::Ignore);
    let up = key("keyup", "Control", "ControlRight", false);
    assert_eq!(act(Platform::Windows, false, false, up, on), WindowHotkeyAction::Released);
    let other = key("keypress", "Control", "ControlRight", false);
    assert_eq!(act(Platform::Windows, false, false, other, on), WindowHotkeyAction::Ignore);
}

#[test]
fn idle_cancels_count_once() {
    let mut sent = false;
    let mut cancel = |phase| hotkey_bridge_loop(&mut sent, false, HotkeyEvent::Cancelled, phase, false);
    assert_eq!(cancel(SessionPhase::Idle), BridgeAction::CancelSession);
    assert_eq!(cancel(SessionPhase::Idle), BridgeAction::Ignore);
    assert_eq!(cancel(SessionPhase::Listening), BridgeAction::CancelSession);
    assert_eq!(cancel(SessionPhase::Idle), BridgeAction::CancelSession);
    let mut act = |recording, event, by_modifier| {
        hotkey_bridge_loop(&mut sent, recording, event, SessionPhase::Idle, by_modifier)
    };
    assert_eq!(act(true, HotkeyEvent::Pressed, true), BridgeAction::Ignore);
    assert_eq!(act(false, HotkeyEvent::Pressed, false), BridgeAction::PressedEdge);
    assert_eq!(act(false, HotkeyEvent::Released, false), BridgeAction::ReleasedEdge);
    assert_eq!(act(false, HotkeyEvent::TranslationModifierPressed, true), BridgeAction::MarkTranslation);
    assert_eq!(act(false, HotkeyEvent::TranslationModifierPressed, false), BridgeAction::Ignore);
    assert_eq!(act(false, HotkeyEvent::QaShortcutPressed, false), BridgeAction::QaPressed);
    assert_eq!(
        act(false, HotkeyEvent::DeviceCustomKeyPressed { key: 2, gesture: 1 }, false),
        BridgeAction::DeviceKey { key: 2, gesture: 1 }
    );
}

#[test]
fn shortcuts_are_installed_as_they_need() {
    let missing = ShortcutFacts { unconfigured: true, ..combination() };
    assert_eq!(update_combo_hotkey_binding(single(), true, true).monitor, MonitorStep::Close);
    assert_eq!(update_combo_hotkey_binding(missing, true, true).monitor, MonitorStep::Close);
    assert_eq!(update_combo_hotkey_binding(combination(), false, true).monitor, MonitorStep::NotBound);
    assert_eq!(update_combo_hotkey_binding(combination(), true, true).monitor, MonitorStep::Rebind);
    assert_eq!(update_combo_hotkey_binding(combination(), true, false).monitor, MonitorStep::Install);
    let off = update_qa_hotkey_binding(None, true, true);
    assert!(off.monitor == MonitorStep::Close && off.renew_modifiers);
    assert_eq!(update_qa_hotkey_binding(Some(combination()), true, false).monitor, MonitorStep::Install);
    assert_eq!(update_action_hotkey_binding(single(), true, true).monitor, MonitorStep::Close);
    assert_eq!(update_action_hotkey_binding(combination(), true, true).monitor, MonitorStep::Rebind);
    assert_eq!(update_switch_style_hotkey_binding(single(), true, true).monitor, MonitorStep::Close);
    assert_eq!(update_open_app_hotkey_binding(combination(), true, false).monitor, MonitorStep::Install);
    assert!(matches!(try_update_translation_hotkey_binding(single(), false), TranslationUpdate::UsesModifier));
    let shift = ShortcutFacts { builtin_translation_shift: true, ..combination() };
    assert!(matches!(try_update_translation_hotkey_binding(shift, false), TranslationUpdate::UsesModifier));
    assert!(matches!(try_update_translation_hotkey_binding(combination(), true), TranslationUpdate::Register));
    assert!(matches!(
        try_update_translation_hotkey_binding(combination(), false),
        TranslationUpdate::Failed(w) if w == "AppHandle 未 bind，无法注册翻译快捷键"
    ));
    assert_eq!(translation_registration(None).unwrap_err(), "注册翻译快捷键超时");
    assert_eq!(translation_registration(Some(Err("taken".to_string()))).unwrap_err(), "taken");
    assert_eq!(translation_registration(Some(Ok(()))), Ok(()));
    let update = update_hotkey_binding(single());
    assert!(update.close_combo && update.trigger == HotkeyTrigger::RightAlt);
    let update = update_hotkey_binding(combination());
    assert!(!update.close_combo && update.trigger == HotkeyTrigger::Custom);
}

#[test]
fn monitors_are_reported_and_reset() {
    let fine = ensure_modifier_hotkey_monitor("Windows hook", None);
    assert_eq!(fine.state, HotkeyStatusState::Installed);
    assert_eq!(fine.message.as_deref(), Some("Windows hook 已安装"));
    let failed = ensure_modifier_hotkey_monitor("Windows hook", Some("denied".to_string()));
    assert_eq!(failed.state, HotkeyStatusState::Failed);
    assert_eq!((failed.message.as_deref(), failed.last_error.as_deref()), (Some("denied"), Some("denied")));
    let all = InstalledMonitors { qa: true, translation: true, switch_style: true, open_app: true };
    let reset = reset_shortcut_held_state(Some(combination()), single(), combination(), single(), all, &vec![]);
    assert_eq!(
        (reset.qa, reset.translation, reset.switch_style, reset.open_app),
        (true, false, true, false)
    );
    let none = InstalledMonitors { qa: false, switch_style: false, ..all };
    let key = |key, supported, installed| DeviceKeyMonitor { key, gesture: 0, supported, installed };
    let keys = vec![key(1, true, true), key(2, false, true), key(3, true, false), key(4, true, true)];
    let reset = reset_shortcut_held_state(Some(combination()), combination(), combination(), combination(), none, &keys);
    assert_eq!(reset.device_keys, vec![key(1, true, true), key(4, true, true)]);
    assert_eq!(
        (reset.qa, reset.translation, reset.switch_style, reset.open_app),
        (false, true, false, true)
    );
}

fn monitor(x: i32) -> MonitorGeometry {
    MonitorGeometry { x, y: 0, width: 1920, height: 1080, scale_bits: 1 }
}

#[test]
fn a_capsule_follows_its_monitor() {
    let placed = layout_after_placing(None, Some(monitor(0)));
    assert_eq!(placed, Some(CapsuleLayoutState { translation_active: false, monitor: monitor(0) }));
    let moves = reposition_capsule_after_display_change;
    assert!(!moves(placed, Some(monitor(0)), Some(monitor(0)), false, false));
    assert!(moves(placed, Some(monitor(0)), Some(monitor(0)), true, false));
    assert!(moves(placed, Some(monitor(0)), Some(monitor(0)), false, true));
    assert!(moves(placed, Some(monitor(0)), Some(monitor(5)), false, false));
    assert!(moves(None, Some(monitor(0)), Some(monitor(0)), false, false));
    assert!(moves(placed, Some(monitor(0)), None, false, false));
    assert!(!moves(placed, None, None, false, false));
    let wide = Some(CapsuleLayoutState { translation_active: true, monitor: monitor(0) });
    assert_eq!(layout_after_placing(wide, None), wide);
    assert!(layout_after_placing(wide, Some(monitor(5))).unwrap().translation_active);
}

#[test]
fn checks_of_the_link_take_limited_time() {
    let times = probe_timeouts(None);
    assert_eq!(
        (times.probe_ms, times.background_ms, times.budget_ms, times.recovery_ms),
        (10_000, 20_000, 14_000, 8_000)
    );
    let times = probe_timeouts(Some(1));
    assert_eq!((times.probe_ms, times.recovery_ms), (1_000, 1_000));
    let times = probe_timeouts(Some(u64::MAX));
    assert_eq!((times.probe_ms, times.background_ms), (30_000, 30_000));
    let ended = |probe| foreground_probe_result(probe_timeouts(None), probe);
    assert_eq!(
        ended(ForegroundProbe::TimedOut),
        Err("BLE subscription check timed out after 14000 ms".to_string())
    );
    assert_eq!(
        ended(ForegroundProbe::TaskFailed("gone".to_string())),
        Err("嵌入式 BLE 通路探测任务失败: gone".to_string())
    );
    assert_eq!(ended(ForegroundProbe::Finished(Ok(()))), Ok(()));
    assert_eq!(ended(ForegroundProbe::Finished(Err("no".to_string()))), Err("no".to_string()));
    assert_eq!(repair_embedded_ble_connection(None), 12_000);
    assert_eq!(repair_embedded_ble_connection(Some(60_000)), 45_000);
    assert_eq!(repair_embedded_ble_connection(Some(0)), 1_000);
}

#[test]
fn a_check_of_the_link_ends() {
    let begin = probe_embedded_audio_ble_subscription;
    assert!(matches!(begin(EmbeddedBleForegroundProbeMode::ReuseReadyBackground), ProbeStep::Ready));
    assert!(matches!(
        begin(EmbeddedBleForegroundProbeMode::RefreshBackgroundListener),
        ProbeStep::AwaitBackground { refresh_reason: "foreground_probe_refresh" }
    ));
    assert!(matches!(
        begin(EmbeddedBleForegroundProbeMode::StartBackgroundListener),
        ProbeStep::AwaitBackground { refresh_reason: "foreground_probe" }
    ));
    assert!(matches!(begin(EmbeddedBleForegroundProbeMode::ForegroundProbe), ProbeStep::AwaitForeground));
    assert!(matches!(probe_step(ProbeStage::Background, false), ProbeStep::Failed { refresh: false }));
    assert!(matches!(probe_step(ProbeStage::Foreground, false), ProbeStep::Failed { refresh: true }));
    assert!(matches!(probe_step(ProbeStage::Foreground, true), ProbeStep::AwaitRecovery));
    assert!(matches!(probe_step(ProbeStage::Recovery, true), ProbeStep::Ready));
    assert!(matches!(probe_step(ProbeStage::Recovery, false), ProbeStep::NotRecovered));
    let repaired = settle_repair(Ok(()), EmbeddedBleWakeRecoverySnapshot::default());
    assert!(repaired.result.is_ok() && repaired.link_ready && repaired.recorded.is_none());
    let failed = settle_repair(Err("gone".to_string()), EmbeddedBleWakeRecoverySnapshot::default());
    assert_eq!(failed.result.unwrap_err(), "gone");
    assert!(!failed.link_ready);
    assert_eq!(failed.recorded.as_deref(), Some("gone"));
}

#[test]
fn dictations_are_started_and_stopped_by_hand() {
    let mut coordinator = Coordinator::new();
    assert_eq!(coordinator.dictation_phase_for_cli(), SessionPhase::Idle);
    assert!(coordinator.dictation_runtime_snapshot(1).session_id.is_none());
    assert!(matches!(coordinator.start_dictation(&prefs()), StartStep::RecoverLink));
    coordinator.embedded_ble_listener_ready = true;
    assert!(matches!(
        coordinator.start_dictation(&prefs()),
        StartStep::RequestDevice { reason: "host_start_ready_listener" }
    ));
    let mut microphone = prefs();
    microphone.dictation_input_source = DictationInputSource::Microphone;
    assert!(matches!(coordinator.start_dictation(&microphone), StartStep::RecordMicrophone));
    assert!(matches!(
        Coordinator::start_after_recovery(true),
        StartStep::RequestDevice { reason: "host_start_after_recovery" }
    ));
    assert!(matches!(Coordinator::start_after_recovery(false), StartStep::Failed));
    assert_eq!(coordinator.stop_dictation(StopStep::Stopped, false), ManualStop::Done);
    assert_eq!(coordinator.stop_dictation(StopStep::Stopped, true), ManualStop::EndSession);
    assert_eq!(coordinator.stop_dictation(StopStep::WriteFailed, false), ManualStop::Failed);
    assert_eq!(coordinator.stop_dictation(StopStep::NotStopped, false), ManualStop::EndSession);
    assert_eq!(coordinator.stop_dictation(StopStep::Await(StopStage::Write), false), ManualStop::Pending);
    coordinator.state = state(1, SessionPhase::Starting);
    assert_eq!(coordinator.stop_dictation(StopStep::NotStopped, false), ManualStop::StopOnceStarted);
}

#[test]
fn recording_a_shortcut_silences_shortcuts() {
    let mut coordinator = Coordinator::new();
    coordinator.hotkey_trigger_held = true;
    assert!(coordinator.set_shortcut_recording_active(true));
    assert!(!coordinator.hotkey_trigger_held);
    assert_eq!(coordinator.handle_hotkey(HotkeyEvent::Pressed, false), BridgeAction::Ignore);
    assert!(!coordinator.set_shortcut_recording_active(false));
    assert_eq!(coordinator.handle_hotkey(HotkeyEvent::Cancelled, false), BridgeAction::CancelSession);
    assert_eq!(coordinator.handle_hotkey(HotkeyEvent::Cancelled, false), BridgeAction::Ignore);
}

#[test]
fn firmware_updates_take_turns() {
    let mut coordinator = Coordinator::new();
    assert!(coordinator.try_begin_firmware_ota_transfer());
    assert!(!coordinator.try_begin_firmware_ota_transfer());
    assert!(coordinator.firmware_ota_transfer_active());
    assert!(coordinator.end_firmware_ota_transfer(true));
    assert!(!coordinator.firmware_ota_transfer_active());
    assert!(coordinator.try_begin_firmware_ota_transfer());
    assert!(!coordinator.end_firmware_ota_transfer_with_listener_restore(false, true));
    assert!(coordinator.end_failed_firmware_ota_transfer(true));
    assert!(!coordinator.end_failed_firmware_ota_transfer(false));
    for wait in [
        Coordinator::wait_for_embedded_ble_listener_ready_after_firmware_ota,
        Coordinator::wait_for_embedded_ble_listener_ready_before_firmware_ota,
    ] {
        assert_eq!(wait(false, None), Some(Ok(false)));
        assert_eq!(wait(true, None), None);
        assert_eq!(wait(true, Some(Ok(()))), Some(Ok(true)));
        assert_eq!(wait(true, Some(Err("late".to_string()))), Some(Err("late".to_string())));
    }
    coordinator.begin_firmware_ota_transfer();
    assert!(coordinator.firmware_ota_transfer_active());
    assert_eq!(coordinator.embedded_ble_listener_generation(), 0);
    let mut waiting: Option<TerminalWakeContinuation<u8>> = None;
    assert!(!coordinator.cancel_dictation(&mut waiting, DEVICE).through_actor);
    coordinator.state = state(1, SessionPhase::Listening);
    assert!(coordinator.cancel_dictation(&mut waiting, DEVICE).through_actor);
}

#[test]
fn the_program_starts_and_ends_once() {
    let mut coordinator = Coordinator::new();
    assert!(coordinator.request_shutdown());
    assert!(!coordinator.request_shutdown());
    let choose = Coordinator::auto_select_embedded_ble_input_source_in_background;
    assert_eq!(choose(&prefs(), true), InputSourceStartup::Disabled);
    assert_eq!(choose(&prefs(), false), InputSourceStartup::OpenLink);
    let mut microphone = prefs();
    microphone.dictation_input_source = DictationInputSource::Microphone;
    assert_eq!(choose(&microphone, false), InputSourceStartup::Probe);
    microphone.dictation_input_source_user_overridden = true;
    assert_eq!(choose(&microphone, false), InputSourceStartup::LeaveChoice);
    assert_eq!(
        Coordinator::acknowledge_automatic_wake_capsule_visible(&id(7).to_text()),
        Some(id(7))
    );
    assert_eq!(Coordinator::acknowledge_automatic_wake_capsule_visible("x"), None);
    coordinator.capsule_placed(Some(monitor(0)));
    assert!(!coordinator.reposition_capsule_after_display_change(Some(monitor(0)), Some(monitor(0)), false, false));
}
