use listener_coordinator::activity::{
    note_embedded_asr_speech_activity, refresh_decision, EmbeddedAsrSpeechActivityJob,
    LatestSpeechActivityQueue, RefreshContext, RefreshDecision,
};
use listener_coordinator::ble::{
    embedded_ble_session_event_detail, embedded_ble_session_event_should_trace,
    embedded_streaming_chunk_is_asr_input, DeviceKeyBleRecordingControlDecision,
    EmbeddedBleNotifySubscriptionState, EmbeddedBlePcmCapsuleTraceState,
    EmbeddedBleSessionActorCommand, EmbeddedBleSessionActorRecord, EmbeddedBleSessionActorState,
    EmbeddedBleWakeRecoverySnapshot, EmbeddedBleWakeRecoveryStatus, FirmwareWakePolicySnapshot,
    PendingDeviceKeyBleActionKind, StreamingPcmChunk, StreamingSessionEvent,
};
use listener_coordinator::continuation::{
    bind_terminal_wake_continuation_session_at, clear_terminal_wake_continuation,
    discard_terminal_wake_continuation, dispatch_owned_candidate_transport_stop,
    schedule_terminal_wake_continuation_expiry, stage_terminal_wake_continuation_with_body_at,
    take_terminal_wake_continuation_at, terminal_wake_continuation_waiting_for_audio_at,
    ContinuationExpiry, ContinuationTake, TerminalWakeContinuation,
};
use listener_coordinator::device::{
    clear_embedded_ble_cancel_flag, delayed_command_is_current,
    device_ai_processing_completion_delay, embedded_ble_processing_sync_disabled,
    finish_dictation_pipeline_error, finish_dictation_timeout, publish_dictation_timeout,
    publish_embedded_ble_asr_final,
    publish_embedded_ble_wake_only_expired, register_embedded_ble_cancel_flag,
    request_embedded_ble_capture_cancel_flag, schedule_device_ai_processing_max_visible_timeout,
    session_event_route, should_sync_device_ai_processing, CaptureCancelFlag,
    DeviceAiProcessingGuard, DeviceContext, EventRoute, LightLimit, StopFeedback,
    WakeStopNotice,
};
use listener_coordinator::ids::{
    embedded_ensure_start_origin_marker, embedded_ensure_start_origin_matches,
    next_accepted_wake_capture_request_id, next_embedded_coordinator_source_stream_id,
};
use listener_coordinator::preferences::DictationInputSource;
use listener_coordinator::session::{
    dictation_runtime_snapshot_from_state, SessionId, SessionPhase, SessionState,
};
use listener_coordinator::stream::{SessionStartOrigin, SessionStopOrigin};

fn id(bits: u128) -> SessionId {
    SessionId { bits }
}

fn state(session: u128, phase: SessionPhase) -> SessionState {
    SessionState {
        session_id: id(session),
        phase,
        pending_stop: false,
        cancelled: false,
        user_initiated_stop: false,
        post_dictation_key_claimed: false,
    }
}

fn chunk(packet_sequence: u16, after_stop_boundary: bool) -> StreamingPcmChunk {
    StreamingPcmChunk {
        session_id: 7,
        packet_sequence,
        pcm_bytes: 640,
        raw_input_level_percent: Some(42),
        after_stop_boundary,
        metadata: "m".to_string(),
    }
}

#[test]
fn identifiers_are_written_and_read_back() {
    let one = id(0x0123_4567_89ab_cdef_0123_4567_89ab_cdef);
    assert_eq!(one.to_text(), "01234567-89ab-cdef-0123-456789abcdef");
    assert_eq!(SessionId::from_text(&one.to_text()), Some(one));
    assert_eq!(SessionId::nil().to_text(), "00000000-0000-0000-0000-000000000000");
    assert_eq!(SessionId::from_text(&id(u128::MAX).to_text()), Some(id(u128::MAX)));
    assert_eq!(SessionId::from_text("0123456789ABCDEF0123456789ABCDEF"), Some(one));
    assert_eq!(SessionId::from_text("not an identifier"), None);
    assert_eq!(SessionId::from_text(""), None);
}

#[test]
fn a_snapshot_leaves_out_the_session_that_is_none() {
    let mut idle = state(0, SessionPhase::Idle);
    idle.pending_stop = true;
    let shown = dictation_runtime_snapshot_from_state(3, &idle);
    assert_eq!(shown.schema, "listener.dictation_runtime_snapshot.v1");
    assert_eq!((shown.request_id, shown.phase, shown.session_id), (3, "idle", None));
    assert!(shown.pending_stop && !shown.cancelled);
    let shown = dictation_runtime_snapshot_from_state(4, &state(5, SessionPhase::Inserting));
    assert_eq!((shown.phase, shown.session_id), ("inserting", Some(id(5))));
}

#[test]
fn key_presses_and_commands_have_labels() {
    assert_eq!(DeviceKeyBleRecordingControlDecision::Start.control_session(), None);
    assert_eq!(
        DeviceKeyBleRecordingControlDecision::IgnoreStarting { session_id: id(1), elapsed_ms: 9 }
            .control_session(),
        Some((id(1), SessionPhase::Starting))
    );
    assert_eq!(
        DeviceKeyBleRecordingControlDecision::Stop { session_id: id(2), phase: SessionPhase::Listening }
            .control_session(),
        Some((id(2), SessionPhase::Listening))
    );
    assert_eq!(PendingDeviceKeyBleActionKind::Stop.label(), "stop");
    let names: Vec<&str> = [
        EmbeddedBleSessionActorCommand::BlePacket,
        EmbeddedBleSessionActorCommand::AsrPartial,
        EmbeddedBleSessionActorCommand::AsrFinal,
        EmbeddedBleSessionActorCommand::StartCommand,
        EmbeddedBleSessionActorCommand::StopCommand,
        EmbeddedBleSessionActorCommand::CancelCommand,
        EmbeddedBleSessionActorCommand::Timeout,
        EmbeddedBleSessionActorCommand::NotifyReady,
        EmbeddedBleSessionActorCommand::NotifyCleanupDelay,
        EmbeddedBleSessionActorCommand::ActorRestart,
    ]
    .iter()
    .map(|c| c.as_str())
    .collect();
    assert_eq!(
        names,
        vec![
            "ble_packet", "asr_partial", "asr_final", "start_command", "stop_command",
            "cancel_command", "timeout", "notify_ready", "notify_cleanup_delay", "actor_restart",
        ]
    );
    let record = EmbeddedBleSessionActorRecord {
        seq: 8,
        command: EmbeddedBleSessionActorCommand::Timeout,
        session_id: Some(id(1)),
        detail: "d".to_string(),
    };
    let shown = record.diagnostic();
    assert_eq!((shown.seq, shown.command, shown.detail.as_str()), (8, "timeout", "d"));
    assert_eq!(shown.session_id.as_deref(), Some("00000000-0000-0000-0000-000000000001"));
}

#[test]
fn levels_are_traced_twice_a_second() {
    let mut trace = EmbeddedBlePcmCapsuleTraceState::default();
    assert!(trace.should_trace(id(1), false, 1_000));
    assert!(!trace.should_trace(id(1), false, 1_499));
    assert!(trace.should_trace(id(1), false, 1_500));
    assert!(trace.should_trace(id(1), true, 1_501));
    assert!(trace.should_trace(id(2), true, 1_502));
    assert!(!trace.should_trace(id(2), true, 1_503));
}

#[test]
fn evidence_belongs_to_its_session() {
    let mut actor = EmbeddedBleSessionActorState {
        pcm_capsule_trace: EmbeddedBlePcmCapsuleTraceState::default(),
        source_integrity_ledger: None,
        awaiting_post_activation_segment: Some(id(9)),
    };
    actor.register_embedded_source_integrity_ledger(id(1), 77);
    assert_eq!(actor.embedded_source_integrity_ledger_for_session(id(1)), Some(77));
    assert_eq!(actor.embedded_source_integrity_ledger_for_session(id(2)), None);
    assert!(!actor.clear_embedded_source_integrity_ledger(id(2)));
    assert_eq!(actor.embedded_source_integrity_ledger_for_session(id(1)), Some(77));
    assert!(actor.clear_embedded_source_integrity_ledger(id(1)));
    assert_eq!(actor.source_integrity_ledger, None);
    assert_eq!(actor.awaiting_post_activation_segment, Some(id(9)));
}

#[test]
fn recovery_begins_idle() {
    let shown = EmbeddedBleWakeRecoverySnapshot::default();
    assert_eq!(shown.status, EmbeddedBleWakeRecoveryStatus::Idle);
    assert_eq!(shown.notify_subscription_state, EmbeddedBleNotifySubscriptionState::Unknown);
    assert_eq!(
        shown.user_guidance,
        "Listener BLE 空闲。按设备语音键开始录音；若设备离线，请先按 KEY4/唤醒键。"
    );
    assert_eq!(shown.reconnect_attempts, 0);
    let policy = FirmwareWakePolicySnapshot::current_v1();
    assert_eq!(policy.policy, "key4_only");
    assert_eq!(policy.wake_capable_keys, "KEY4/GPIO21");
    assert!(!policy.voice_key_deep_sleep_wake);
}

#[test]
fn reports_are_put_into_words() {
    let words = |event: StreamingSessionEvent| embedded_ble_session_event_detail(&event);
    assert_eq!(
        words(StreamingSessionEvent::Started { session_id: 7, origin: SessionStartOrigin::Unknown(32769) }),
        "event=start embedded_session_id=7 origin=Unknown(32769)"
    );
    assert_eq!(
        words(StreamingSessionEvent::PcmChunk(chunk(3, true))),
        "event=pcm embedded_session_id=7 packet_sequence=3 pcm_bytes=640 raw_input_level_percent=Some(42) after_stop=true collector_metadata=m"
    );
    assert_eq!(
        words(StreamingSessionEvent::Stopped {
            session_id: 7,
            expected_packet_count: 12,
            stop_origin: Some(SessionStopOrigin::VoiceActivationMaxDuration),
        }),
        "event=stop embedded_session_id=7 expected_packets=12 origin=Some(VoiceActivationMaxDuration)"
    );
    assert_eq!(
        words(StreamingSessionEvent::Cancelled { session_id: 7, expected_packet_count: 0 }),
        "event=cancel embedded_session_id=7 expected_packets=0"
    );
    assert_eq!(
        words(StreamingSessionEvent::Error { session_id: 7, expected_packet_count: 1, error_code: "4".to_string() }),
        "event=error embedded_session_id=7 expected_packets=1 error_code=4"
    );
    assert_eq!(
        words(StreamingSessionEvent::Ignored { reason: "Stale".to_string() }),
        "event=ignored reason=Stale"
    );
}

#[test]
fn most_audio_packets_are_not_traced() {
    let traced = |c| embedded_ble_session_event_should_trace(&StreamingSessionEvent::PcmChunk(c));
    assert!(traced(chunk(0, false)));
    assert!(!traced(chunk(49, false)));
    assert!(traced(chunk(50, false)));
    assert!(traced(chunk(51, true)));
    assert!(embedded_ble_session_event_should_trace(&StreamingSessionEvent::Ignored {
        reason: String::new()
    }));
    assert!(embedded_streaming_chunk_is_asr_input(&chunk(51, true)));
}

#[test]
fn numbers_of_sources_and_requests_rise() {
    let mut sources = u64::MAX;
    assert_eq!(next_embedded_coordinator_source_stream_id(&mut sources), u64::MAX);
    assert_eq!(next_embedded_coordinator_source_stream_id(&mut sources), 0);
    let mut requests = 0;
    assert_eq!(next_accepted_wake_capture_request_id(&mut requests, Some(1_700_000_000)), 1_700_000_000);
    assert_eq!(next_accepted_wake_capture_request_id(&mut requests, Some(5)), 1_700_000_001);
    let mut early = 0;
    assert_eq!(next_accepted_wake_capture_request_id(&mut early, None), 1);
    let mut late = 0;
    assert_eq!(next_accepted_wake_capture_request_id(&mut late, Some(u64::MAX)), 0x7fff_ffff);
    let mut wrapping = 0x1_0000_0000;
    assert_eq!(next_accepted_wake_capture_request_id(&mut wrapping, None), 1);
    let mut last: u64 = u64::MAX;
    assert_eq!(next_accepted_wake_capture_request_id(&mut last, None), u32::MAX);
    assert_eq!(next_accepted_wake_capture_request_id(&mut last, Some(77)), 77);
    let mut full: u64 = 0x1_ffff_ffff;
    assert_eq!(next_accepted_wake_capture_request_id(&mut full, None), u32::MAX);
    assert_eq!(next_accepted_wake_capture_request_id(&mut full, None), 1);
}

#[test]
fn a_start_names_the_request_it_answers() {
    assert_eq!(embedded_ensure_start_origin_marker(0), 0x8000);
    assert_eq!(embedded_ensure_start_origin_marker(0x1_8003), 0x8003);
    let answered = SessionStartOrigin::Unknown(0x8003);
    assert!(embedded_ensure_start_origin_matches(answered, 3));
    assert!(embedded_ensure_start_origin_matches(answered, 0x8003));
    assert!(!embedded_ensure_start_origin_matches(answered, 4));
    assert!(!embedded_ensure_start_origin_matches(SessionStartOrigin::Unknown(3), 3));
    assert!(!embedded_ensure_start_origin_matches(SessionStartOrigin::User, 3));
}

#[test]
fn only_the_newest_refresh_waits() {
    let mut queue = LatestSpeechActivityQueue::default();
    assert!(queue.enqueue(1));
    assert!(!queue.enqueue(2));
    assert!(!queue.enqueue(3));
    assert_eq!(queue.take_pending_or_finish(), Some(3));
    assert!(queue.in_flight);
    assert_eq!(queue.take_pending_or_finish(), None);
    assert!(queue.enqueue(4));
}

#[test]
fn a_refresh_is_sent_while_it_is_fresh() {
    let open = RefreshContext { io_allowed: true, control_active: true, stop_latched: false };
    let stopped = RefreshContext { stop_latched: true, ..open };
    let listening = state(1, SessionPhase::Listening);
    let mut queue = LatestSpeechActivityQueue::default();
    assert!(!note_embedded_asr_speech_activity(&mut queue, stopped, &listening, id(1), 100));
    assert!(!note_embedded_asr_speech_activity(&mut queue, open, &listening, id(2), 100));
    assert!(queue.pending.is_none());
    assert!(note_embedded_asr_speech_activity(&mut queue, open, &listening, id(1), 100));
    assert!(!note_embedded_asr_speech_activity(&mut queue, open, &listening, id(1), 150));
    let job = queue.take_pending_or_finish().unwrap();
    assert_eq!(job, EmbeddedAsrSpeechActivityJob { session_id: id(1), coalesced: true, queued_at: 150 });
    assert_eq!(refresh_decision(job, open, &listening, 749), RefreshDecision::Send);
    assert_eq!(refresh_decision(job, open, &listening, 750), RefreshDecision::DiscardStale);
    assert_eq!(refresh_decision(job, stopped, &listening, 200), RefreshDecision::Skip);
    let mut cancelled = listening;
    cancelled.cancelled = true;
    assert_eq!(refresh_decision(job, open, &cancelled, 200), RefreshDecision::Skip);
    assert_eq!(
        refresh_decision(job, open, &state(1, SessionPhase::Processing), 200),
        RefreshDecision::Skip
    );
}

#[test]
fn a_phrase_waits_for_its_continuation() {
    let mut slot: Option<TerminalWakeContinuation<Vec<u8>>> = None;
    assert!(stage_terminal_wake_continuation_with_body_at(&mut slot, "hey".to_string(), vec![1, 2], 1_000));
    assert!(!stage_terminal_wake_continuation_with_body_at(&mut slot, "ho".to_string(), vec![], 6_999));
    assert_eq!(
        bind_terminal_wake_continuation_session_at(&mut slot, id(1), 2_000).as_deref(),
        Some("hey")
    );
    let waiting = terminal_wake_continuation_waiting_for_audio_at(&mut slot, &state(1, SessionPhase::Starting), 3_000);
    assert_eq!((waiting.session_id, waiting.lift_guard), (Some(id(1)), false));
    let waiting = terminal_wake_continuation_waiting_for_audio_at(&mut slot, &state(1, SessionPhase::Listening), 3_000);
    assert_eq!(waiting.session_id, None);
    match take_terminal_wake_continuation_at(&mut slot, id(1), 6_999) {
        ContinuationTake::Taken(c) => {
            assert_eq!(c.payload, vec![1, 2]);
            assert_eq!(c.wake_phrase, "hey");
            assert_eq!(c.expires_at, 7_000);
        }
        other => panic!("{other:?}"),
    }
    assert!(slot.is_none());
    assert!(matches!(take_terminal_wake_continuation_at(&mut slot, id(1), 0), ContinuationTake::Absent));
}

#[test]
fn a_continuation_is_not_given_to_strangers() {
    let staged = || {
        let mut slot = None;
        assert!(stage_terminal_wake_continuation_with_body_at(&mut slot, "hey".to_string(), (), 0));
        slot
    };
    let mut slot = staged();
    bind_terminal_wake_continuation_session_at(&mut slot, id(1), 1);
    assert!(matches!(take_terminal_wake_continuation_at(&mut slot, id(2), 2), ContinuationTake::Dropped));
    let mut slot = staged();
    bind_terminal_wake_continuation_session_at(&mut slot, id(1), 1);
    assert_eq!(bind_terminal_wake_continuation_session_at(&mut slot, id(2), 2), None);
    assert!(slot.is_none());
    let mut slot = staged();
    assert_eq!(bind_terminal_wake_continuation_session_at(&mut slot, id(1), 6_000), None);
    let mut slot = staged();
    bind_terminal_wake_continuation_session_at(&mut slot, id(1), 1);
    assert!(!clear_terminal_wake_continuation(&mut slot, id(2)));
    assert!(clear_terminal_wake_continuation(&mut slot, id(1)));
    assert!(!discard_terminal_wake_continuation(&mut slot));
    let mut slot = staged();
    assert!(discard_terminal_wake_continuation(&mut slot));
    let mut slot = staged();
    let waiting = terminal_wake_continuation_waiting_for_audio_at(&mut slot, &state(1, SessionPhase::Starting), 6_000);
    assert!(waiting.lift_guard && slot.is_none());
}

#[test]
fn a_continuation_that_never_came_is_ended_once() {
    let mut slot = None;
    stage_terminal_wake_continuation_with_body_at(&mut slot, "hey".to_string(), (), 0);
    bind_terminal_wake_continuation_session_at(&mut slot, id(1), 1);
    let mut end = |session, now, closed| {
        schedule_terminal_wake_continuation_expiry(&mut slot, id(session), now, closed)
    };
    assert_eq!(end(1, 5_999, true), ContinuationExpiry::NotExpired);
    assert_eq!(end(2, 6_000, true), ContinuationExpiry::NotExpired);
    assert_eq!(end(1, 6_000, true), ContinuationExpiry::TellUserAndStop);
    assert_eq!(end(1, 6_000, true), ContinuationExpiry::NotExpired);
    stage_terminal_wake_continuation_with_body_at(&mut slot, "hey".to_string(), (), 10_000);
    bind_terminal_wake_continuation_session_at(&mut slot, id(1), 10_001);
    assert_eq!(
        schedule_terminal_wake_continuation_expiry(&mut slot, id(1), 16_000, false),
        ContinuationExpiry::LiftGuard
    );
    assert!(dispatch_owned_candidate_transport_stop(&state(0, SessionPhase::Idle), true));
    assert!(!dispatch_owned_candidate_transport_stop(&state(0, SessionPhase::Idle), false));
    assert!(!dispatch_owned_candidate_transport_stop(&state(1, SessionPhase::Starting), true));
}

const QUIET: DeviceContext = DeviceContext {
    cancel_flag_registered: false,
    stats_present: false,
    input_source: DictationInputSource::Microphone,
};

#[test]
fn commands_reach_the_device_that_records() {
    let device = DeviceContext { input_source: DictationInputSource::EmbeddedBle, ..QUIET };
    let captured = DeviceContext { stats_present: true, ..QUIET };
    assert!(!QUIET.embedded_ble_host_recording_control_context_active());
    assert!(device.embedded_ble_host_recording_control_context_active());
    assert!(!device.embedded_ble_actor_context_active());
    assert!(captured.embedded_ble_actor_context_active());
    assert!(device.embedded_ble_host_cancel_context_active(&state(1, SessionPhase::Processing)));
    assert!(!device.embedded_ble_host_cancel_context_active(&state(1, SessionPhase::Inserting)));
    assert!(captured.embedded_ble_host_cancel_context_active(&state(0, SessionPhase::Idle)));
    assert!(matches!(session_event_route(captured), EventRoute::Actor));
    assert!(matches!(session_event_route(device), EventRoute::Direct));
    assert!(should_sync_device_ai_processing(false, device, Some("0")));
    assert!(!should_sync_device_ai_processing(true, device, None));
    assert!(!should_sync_device_ai_processing(false, device, Some(" ON ")));
    assert!(!should_sync_device_ai_processing(false, QUIET, None));
    for value in ["1", "True", "YES", "on"] {
        assert!(embedded_ble_processing_sync_disabled(Some(value)));
    }
    assert!(!embedded_ble_processing_sync_disabled(Some("enabled")));
    assert!(!embedded_ble_processing_sync_disabled(None));
}

#[test]
fn a_light_comes_on_once_and_ends_once() {
    let mut light = DeviceAiProcessingGuard::defer();
    assert!(!light.start_if_needed(false, 0));
    assert!(light.start_if_needed(true, 1_000));
    assert!(!light.start_if_needed(true, 1_100));
    assert_eq!(light.complete_success(1_250), Some(500));
    assert_eq!(light.complete_warning(1_250), None);
    assert!(!light.start_if_needed(true, 1_300));
    assert!(!light.close());
    let mut other = DeviceAiProcessingGuard::defer();
    other.start_if_needed(true, 0);
    assert!(other.close());
    assert_eq!(other.complete_warning(750), Some(0));
    assert_eq!(device_ai_processing_completion_delay(None, 5), 0);
    assert_eq!(device_ai_processing_completion_delay(Some(10), 5), 750);
}

#[test]
fn a_light_does_not_burn_forever() {
    let limit = |running, session, sync| {
        schedule_device_ai_processing_max_visible_timeout(running, id(1), &state(session, SessionPhase::Processing), sync)
    };
    assert_eq!(limit(false, 1, true), LightLimit::Ended);
    assert_eq!(limit(true, 2, true), LightLimit::Stale);
    assert_eq!(limit(true, 1, false), LightLimit::NotDriven);
    assert_eq!(limit(true, 1, true), LightLimit::TurnOff);
    assert!(delayed_command_is_current(id(1), &state(1, SessionPhase::Idle)));
    assert!(!delayed_command_is_current(id(1), &state(2, SessionPhase::Idle)));
}

#[test]
fn the_time_from_stop_to_end_is_read_once() {
    let mut feedback = StopFeedback { latched: false, session_id: None, latched_at: 0 };
    let told = feedback.latch_embedded_audio_stop_feedback(id(1), 1_000);
    assert_eq!(told, WakeStopNotice { session_id: id(1) });
    assert_eq!(feedback.take_stop_to_done_ms(id(2), 1_500), None);
    assert_eq!(feedback.take_stop_to_done_ms(id(1), 1_500), Some(500));
    assert_eq!(feedback.take_stop_to_done_ms(id(1), 1_500), None);
    assert!(feedback.latched);
    feedback.clear_embedded_audio_stop_feedback();
    assert!(!feedback.latched);
}

#[test]
fn a_capture_clears_only_its_own_flag() {
    let mut slot: Option<CaptureCancelFlag> = None;
    assert!(!request_embedded_ble_capture_cancel_flag(&mut slot));
    register_embedded_ble_cancel_flag(&mut slot, 1);
    register_embedded_ble_cancel_flag(&mut slot, 2);
    clear_embedded_ble_cancel_flag(&mut slot, 1);
    assert!(request_embedded_ble_capture_cancel_flag(&mut slot));
    assert_eq!(slot, Some(CaptureCancelFlag { flag: 2, raised: true }));
    clear_embedded_ble_cancel_flag(&mut slot, 2);
    assert_eq!(slot, None);
}

#[test]
fn ends_of_recognition_are_published() {
    let captured = DeviceContext { cancel_flag_registered: true, ..QUIET };
    let published = publish_embedded_ble_asr_final(captured, true);
    assert!(matches!(published.route, EventRoute::Actor));
    assert_eq!(published.command, EmbeddedBleSessionActorCommand::AsrFinal);
    assert_eq!(published.detail, "transcript_empty=true");
    assert_eq!(publish_embedded_ble_asr_final(QUIET, false).detail, "transcript_empty=false");
    assert_eq!(
        publish_embedded_ble_wake_only_expired(QUIET).detail,
        "wake_only_expired transcript_empty=true"
    );
    assert!(finish_dictation_pipeline_error(false).warn_device);
    assert!(!finish_dictation_pipeline_error(false).close);
    assert!(finish_dictation_timeout(true).close);
    let late = publish_dictation_timeout(captured, "识别超时".to_string());
    assert!(matches!(late.route, EventRoute::Actor));
    assert_eq!(late.command, EmbeddedBleSessionActorCommand::Timeout);
    assert_eq!((late.detail.as_str(), late.message.as_str()), ("识别超时", "识别超时"));
    assert!(matches!(publish_dictation_timeout(QUIET, String::new()).route, EventRoute::Direct));
}
