use listener_coordinator::closeout::{
    auth_notice_due, claim_post_dictation_key, classify_early_delivery, composition_commit_text,
    composition_submission, delivered_closeout, device_success_reason, dictation_error_code,
    done_notice, early_text_submission, empty_transcript_closeout, final_dispatch_policy,
    final_insert_text, finish_source_integrity_blocked, polish_error_is_auth_failure, prior_turns,
    retains_plain_dictation, settle_post_dictation_key, should_restore_clipboard_after_dictation,
    should_send_post_dictation_key, wake_only_result, DictationSession, DoneNotice, EarlyDelivery,
    EntryContext, PostKeyOutcome,
};
use listener_coordinator::completion::EarlyText;
use listener_coordinator::delivery::{
    choose_delivery_dispatch, delivery_payload_bytes, delivery_payload_digest,
    dispatch_delivery_request, execute_delivery_submission, finalize_delivery_fact,
    map_delivery_external_result, plain_insertion_report, record_delivery_fact,
    refused_at_send_time, DeliveryDispatchChoice, DeliveryDispatchPolicy,
    DeliveryExternalOperation, DeliveryExternalResult, DeliveryPersistenceOutcome,
    DeliveryRequest, DeliveryRoute, DeliverySubmission, InsertStatus,
};
use listener_coordinator::insertion::{
    event_is_expected, insert_via_non_tsf_fallback, insert_with_windows_ime_first,
    should_try_non_tsf_insertion_fallback, store_prepared_windows_ime_session,
    take_current_prepared_windows_ime_session_for_restore,
    take_matching_prepared_windows_ime_session, InsertionAction, InsertionEvent, InsertionPolicy,
    InsertionStage, PreparedWindowsImeSessionSlot,
};
use listener_coordinator::llm::{note_llm_auth_rejection, LlmAuthFailureCircuit};
use listener_coordinator::preferences::{
    ChineseScriptPreference, DictationInputSource, OutputLanguagePreference, Platform, PolishMode,
    PostDictationKey, UserPreferences,
};
use listener_coordinator::session::{SessionId, SessionPhase, SessionState};

fn id(bits: u128) -> SessionId {
    SessionId { bits }
}

fn policy() -> DeliveryDispatchPolicy {
    DeliveryDispatchPolicy {
        already_streamed: false,
        wayland_session: false,
        allow_clipboard_fallback: true,
        focus_ready_for_paste: true,
        allow_foreground_insert_fallback: true,
    }
}

fn report(status: InsertStatus, route: DeliveryRoute) -> DeliveryExternalResult {
    DeliveryExternalResult {
        status,
        target_confirmed: true,
        route,
        submitted_text: Some("hi".to_string()),
    }
}

fn request() -> DeliveryRequest {
    DeliveryRequest { session_id: id(1), delivery_id: "d".to_string(), text: "hi".to_string() }
}

#[test]
fn routes_are_tried_in_order() {
    let op = |p| match choose_delivery_dispatch(p, None) {
        DeliveryDispatchChoice::External(op) => Some(op),
        DeliveryDispatchChoice::Immediate(_) => None,
    };
    assert_eq!(op(policy()), Some(DeliveryExternalOperation::OriginalTarget));
    let unfocused = DeliveryDispatchPolicy { focus_ready_for_paste: false, ..policy() };
    assert_eq!(op(unfocused), Some(DeliveryExternalOperation::ForegroundFallback));
    let here_only = DeliveryDispatchPolicy { allow_foreground_insert_fallback: false, ..unfocused };
    assert_eq!(op(here_only), Some(DeliveryExternalOperation::CopyOnly));
    let wayland = DeliveryDispatchPolicy { wayland_session: true, ..policy() };
    assert_eq!(op(wayland), Some(DeliveryExternalOperation::CopyOnly));
    let nothing = DeliveryDispatchPolicy { allow_clipboard_fallback: false, ..here_only };
    assert_eq!(op(nothing), None);
    assert!(matches!(
        choose_delivery_dispatch(nothing, None),
        DeliveryDispatchChoice::Immediate(s) if s.status == InsertStatus::Failed && s.route == DeliveryRoute::Failed
    ));
}

#[test]
fn streamed_text_is_never_sent_twice() {
    let streamed = DeliveryDispatchPolicy { already_streamed: true, ..policy() };
    let sent = dispatch_delivery_request(request(), streamed, Some("typed".to_string()), |_, _| panic!());
    assert_eq!(sent.status, InsertStatus::SubmittedUnconfirmed);
    assert_eq!(sent.route, DeliveryRoute::Streaming);
    assert!(!sent.target_confirmed);
    assert_eq!(sent.submitted_text.as_deref(), Some("typed"));
}

#[test]
fn one_operation_carries_the_request() {
    let mut calls = Vec::new();
    let sent = dispatch_delivery_request(request(), policy(), None, |op, r| {
        calls.push((op, r.text));
        report(InsertStatus::Inserted, DeliveryRoute::Tsf)
    });
    assert_eq!(calls, vec![(DeliveryExternalOperation::OriginalTarget, "hi".to_string())]);
    assert!(sent.target_confirmed && sent.status == InsertStatus::Inserted);
    let direct = execute_delivery_submission(request(), |r| DeliverySubmission {
        status: InsertStatus::PasteSent,
        target_confirmed: false,
        route: DeliveryRoute::Paste,
        submitted_text: Some(r.delivery_id),
    });
    assert_eq!(direct.submitted_text.as_deref(), Some("d"));
}

#[test]
fn only_the_text_service_acknowledges() {
    let map = map_delivery_external_result;
    let original = DeliveryExternalOperation::OriginalTarget;
    let pasted = map(original, report(InsertStatus::Inserted, DeliveryRoute::Paste));
    assert_eq!(pasted.status, InsertStatus::SubmittedUnconfirmed);
    assert!(!pasted.target_confirmed);
    let elsewhere = map(DeliveryExternalOperation::ForegroundFallback, report(InsertStatus::Inserted, DeliveryRoute::Tsf));
    assert_eq!(elsewhere.status, InsertStatus::SubmittedUnconfirmed);
    let copied = map(DeliveryExternalOperation::CopyOnly, report(InsertStatus::CopiedFallback, DeliveryRoute::Paste));
    assert_eq!(copied.route, DeliveryRoute::CopyOnly);
    assert!(copied.submitted_text.is_none() && !copied.target_confirmed);
    let failed = map(original, report(InsertStatus::Failed, DeliveryRoute::Tsf));
    assert!(!failed.target_confirmed && failed.status == InsertStatus::Failed);
}

#[test]
fn a_lost_target_is_refused_at_the_last_moment() {
    let refused = refused_at_send_time(DeliveryExternalOperation::OriginalTarget, false).unwrap();
    assert_eq!((refused.status, refused.route), (InsertStatus::Failed, DeliveryRoute::Failed));
    assert!(refused_at_send_time(DeliveryExternalOperation::OriginalTarget, true).is_none());
    assert!(refused_at_send_time(DeliveryExternalOperation::CopyOnly, false).is_none());
    let mac = plain_insertion_report(Platform::MacOs, true, "hi".to_string(), || InsertStatus::Inserted);
    assert_eq!((mac.status, mac.route), (InsertStatus::Inserted, DeliveryRoute::Direct));
    let linux = plain_insertion_report(Platform::Linux, false, "hi".to_string(), || panic!());
    assert_eq!((linux.status, linux.route), (InsertStatus::Failed, DeliveryRoute::Paste));
    assert_eq!(linux.submitted_text.as_deref(), Some("hi"));
}

#[test]
fn digests_are_exact() {
    assert_eq!(delivery_payload_digest(None), "af63bd4c8601b7df");
    assert_eq!(delivery_payload_digest(Some("")), "af63bc4c8601b62c");
    assert_eq!(delivery_payload_digest(Some("hi")), "d0f58018676d141f");
    assert_eq!(delivery_payload_digest(Some("你好")), "d7a04860f8ceda4e");
    assert_eq!(delivery_payload_bytes(Some("你好")), Some(6));
    assert_eq!(delivery_payload_bytes(None), None);
}

#[test]
fn a_delivery_is_recorded_once() {
    let mut saved = 0;
    let fact = record_delivery_fact(
        id(1), "d".to_string(), "你好".to_string(), None, DeliveryRoute::CopyOnly,
        InsertStatus::CopiedFallback, false,
        || {
            saved += 1;
            Err("disk".to_string())
        },
    );
    assert_eq!(saved, 1);
    assert_eq!(fact.persistence, DeliveryPersistenceOutcome::Failed);
    assert_eq!((fact.intended_bytes, fact.submitted_bytes), (6, None));
    assert_eq!(fact.intended_digest, "d7a04860f8ceda4e");
    assert_eq!(fact.submitted_digest, "af63bd4c8601b7df");
    let submission = map_delivery_external_result(
        DeliveryExternalOperation::OriginalTarget,
        report(InsertStatus::Inserted, DeliveryRoute::Tsf),
    );
    let fact = finalize_delivery_fact(request(), "whole".to_string(), submission, || Ok(()));
    assert_eq!(fact.persistence, DeliveryPersistenceOutcome::Saved);
    assert_eq!((fact.intended_text.as_str(), fact.submitted_text.as_deref()), ("whole", Some("hi")));
    assert_eq!((fact.delivery_id.as_str(), fact.session_id), ("d", id(1)));
    assert_eq!(fact.route.label(), "tsf");
    assert_eq!(fact.persistence.label(), "saved");
    assert_eq!(DeliveryPersistenceOutcome::Failed.label(), "failed");
    let names: Vec<&str> = [
        DeliveryRoute::Unicode, DeliveryRoute::Paste, DeliveryRoute::CopyOnly,
        DeliveryRoute::Streaming, DeliveryRoute::Direct, DeliveryRoute::Failed,
    ].iter().map(|r| r.label()).collect();
    assert_eq!(names, vec!["unicode", "paste", "copy_only", "streaming", "direct", "failed"]);
}

#[test]
fn prepared_text_services_belong_to_their_session() {
    let mut slots: Vec<PreparedWindowsImeSessionSlot<u8>> = vec![];
    store_prepared_windows_ime_session(&mut slots, id(1), 10);
    store_prepared_windows_ime_session(&mut slots, id(2), 20);
    store_prepared_windows_ime_session(&mut slots, id(1), 11);
    assert_eq!(slots.len(), 2);
    assert_eq!(take_matching_prepared_windows_ime_session(&mut slots, id(1)), Some(11));
    assert_eq!(take_matching_prepared_windows_ime_session(&mut slots, id(1)), None);
    assert_eq!(take_current_prepared_windows_ime_session_for_restore(&mut slots, id(2), id(3)), None);
    assert!(slots.is_empty());
    store_prepared_windows_ime_session(&mut slots, id(2), 21);
    assert_eq!(take_current_prepared_windows_ime_session_for_restore(&mut slots, id(2), id(2)), Some(21));
}

#[test]
fn an_insertion_prefers_the_text_service() {
    let open = InsertionPolicy { allow_non_tsf_insertion_fallback: true, continue_paste_route: false };
    let step = insert_with_windows_ime_first(open, InsertionStage::LookUp, InsertionEvent::Prepared { ready: true });
    assert_eq!((step.stage, step.action), (InsertionStage::Submit, InsertionAction::SubmitToTextService));
    let step = insert_with_windows_ime_first(open, InsertionStage::Submit, InsertionEvent::Submitted(InsertStatus::Inserted));
    match step.action {
        InsertionAction::Finish(done) => {
            assert!(done.target_confirmed && done.submitted && step.restore);
            assert_eq!(done.route, DeliveryRoute::Tsf);
        }
        other => panic!("{other:?}"),
    }
    let again = insert_with_windows_ime_first(open, InsertionStage::LookUp, InsertionEvent::Prepared { ready: false });
    assert_eq!((again.action, again.restore), (InsertionAction::PrepareAgain, true));
    let pasted = InsertionPolicy { continue_paste_route: true, ..open };
    let step = insert_with_windows_ime_first(pasted, InsertionStage::LookUp, InsertionEvent::Prepared { ready: true });
    assert_eq!((step.action, step.restore), (InsertionAction::PasteThroughClipboard, true));
}

#[test]
fn other_routes_follow_where_allowed() {
    let open = InsertionPolicy { allow_non_tsf_insertion_fallback: true, continue_paste_route: true };
    let shut = InsertionPolicy { allow_non_tsf_insertion_fallback: false, ..open };
    let step = insert_with_windows_ime_first(open, InsertionStage::Submit, InsertionEvent::SubmitFailed);
    assert_eq!((step.stage, step.action), (InsertionStage::Paste, InsertionAction::PasteThroughClipboard));
    let step = insert_with_windows_ime_first(shut, InsertionStage::Submit, InsertionEvent::SubmitFailed);
    assert!(matches!(
        step.action,
        InsertionAction::Finish(done) if done.status == InsertStatus::Failed && done.route == DeliveryRoute::Tsf && done.submitted
    ));
    let step = insert_with_windows_ime_first(shut, InsertionStage::Submit, InsertionEvent::SubmitNotActive);
    assert!(matches!(
        step.action,
        InsertionAction::Finish(done) if done.route == DeliveryRoute::Failed && !done.submitted
    ));
    let step = insert_via_non_tsf_fallback(InsertionEvent::ClipboardNotReversible);
    assert_eq!(step.action, InsertionAction::TypeKeystrokes);
    let step = insert_via_non_tsf_fallback(InsertionEvent::Pasted(InsertStatus::PasteSent));
    assert!(matches!(step.action, InsertionAction::Finish(done) if done.route == DeliveryRoute::Paste && !done.target_confirmed));
    let step = insert_via_non_tsf_fallback(InsertionEvent::Typed(InsertStatus::Inserted));
    assert!(matches!(
        step.action,
        InsertionAction::Finish(done) if done.status == InsertStatus::SubmittedUnconfirmed && done.route == DeliveryRoute::Unicode
    ));
    assert!(event_is_expected(InsertionStage::Paste, InsertionEvent::ClipboardNotReversible));
    assert!(!event_is_expected(InsertionStage::Submit, InsertionEvent::NothingPrepared));
    assert!(!event_is_expected(InsertionStage::Done, InsertionEvent::SubmitFailed));
    assert!(should_try_non_tsf_insertion_fallback(true, InsertStatus::Failed));
    assert!(!should_try_non_tsf_insertion_fallback(true, InsertStatus::Inserted));
    assert!(!should_try_non_tsf_insertion_fallback(false, InsertStatus::Failed));
}

fn early(remainder: Option<&str>, recovery: Option<&str>) -> Option<EarlyDelivery> {
    Some(EarlyDelivery {
        display: "你好".to_string(),
        remainder: remainder.map(|s| s.to_string()),
        recovery: recovery.map(|s| s.to_string()),
    })
}

#[test]
fn early_text_is_completed_not_repeated() {
    assert_eq!(classify_early_delivery(&None), EarlyText::Nothing);
    assert_eq!(classify_early_delivery(&early(Some(""), None)), EarlyText::Covered);
    assert_eq!(classify_early_delivery(&early(Some("世界"), None)), EarlyText::Remainder);
    assert_eq!(classify_early_delivery(&early(None, Some("界"))), EarlyText::Recovered);
    assert_eq!(classify_early_delivery(&early(None, Some(""))), EarlyText::Rewritten);
    assert_eq!(final_insert_text(&early(Some("世界"), None), "你好世界"), "世界");
    assert_eq!(final_insert_text(&early(None, Some("界")), "x"), "界");
    assert_eq!(final_insert_text(&None, "x"), "x");
    assert_eq!(composition_commit_text(&early(Some(""), None), true, "x").as_deref(), Some(""));
    assert_eq!(composition_commit_text(&early(None, None), true, "x"), None);
    assert_eq!(composition_commit_text(&None, true, "x"), None);
    assert_eq!(composition_commit_text(&None, false, "x").as_deref(), Some("x"));
    let committed = composition_submission(&early(Some("世界"), None), "世界");
    assert_eq!(committed.submitted_text.as_deref(), Some("你好世界"));
    assert!(committed.target_confirmed && committed.route == DeliveryRoute::Streaming);
    let stands = early_text_submission(&early(Some(""), None));
    assert_eq!((stands.status, stands.submitted_text.as_deref()), (InsertStatus::PasteSent, Some("你好")));
    assert!(early_text_submission(&None).submitted_text.is_none());
}

fn prefs() -> UserPreferences {
    UserPreferences {
        active_asr_provider: String::new(),
        dictation_input_source: DictationInputSource::Microphone,
        dictation_input_source_user_overridden: false,
        working_languages: vec![],
        chinese_script_preference: ChineseScriptPreference::Auto,
        output_language_preference: OutputLanguagePreference::Auto,
        foundry_local_asr_language_hint: String::new(),
        foundry_local_asr_model: String::new(),
        foundry_local_runtime_source: String::new(),
        foundry_local_asr_keep_loaded_secs: 0,
        local_asr_keep_loaded_secs: 0,
        record_audio_for_debug: false,
        translation_target_language: String::new(),
        restore_clipboard_after_paste: true,
        copy_dictation_to_clipboard: true,
        allow_non_tsf_insertion_fallback: true,
        streaming_insert: true,
        send_key_after_dictation: true,
        post_dictation_key: PostDictationKey::Enter,
        polish_context_window_minutes: 5,
    }
}

#[test]
fn the_clipboard_is_kept_or_given_back() {
    assert!(retains_plain_dictation(&prefs(), false, "x"));
    assert!(!retains_plain_dictation(&prefs(), true, "x"));
    assert!(!retains_plain_dictation(&prefs(), false, " "));
    assert!(should_restore_clipboard_after_dictation(&prefs(), false));
    assert!(!should_restore_clipboard_after_dictation(&prefs(), true));
    let chosen = final_dispatch_policy(false, false, true, false, true, Some("1"));
    assert!(chosen.allow_clipboard_fallback && chosen.allow_foreground_insert_fallback);
    let chosen = final_dispatch_policy(true, true, false, false, false, Some("yes"));
    assert!(!chosen.allow_clipboard_fallback && !chosen.allow_foreground_insert_fallback);
    assert!(chosen.already_streamed && chosen.wayland_session && !chosen.focus_ready_for_paste);
}

#[test]
fn a_key_follows_a_confirmed_text_once() {
    let key = |status, restored, translation| {
        should_send_post_dictation_key(true, PostDictationKey::CtrlEnter, status, true, restored, true, translation)
    };
    let binding = key(InsertStatus::Inserted, true, false).unwrap();
    assert_eq!((binding.primary.as_str(), binding.modifiers), ("Enter", vec!["ctrl".to_string()]));
    assert!(key(InsertStatus::PasteSent, true, false).is_none());
    assert!(key(InsertStatus::Inserted, false, false).is_none());
    assert!(key(InsertStatus::Inserted, true, true).is_none());
    assert!(should_send_post_dictation_key(true, PostDictationKey::Enter, InsertStatus::Inserted, true, true, true, false)
        .unwrap().modifiers.is_empty());
    assert!(should_send_post_dictation_key(false, PostDictationKey::Enter, InsertStatus::Inserted, true, true, true, false).is_none());
    let mut state = SessionState {
        session_id: id(1),
        phase: SessionPhase::Inserting,
        pending_stop: false,
        cancelled: false,
        user_initiated_stop: false,
        post_dictation_key_claimed: false,
    };
    assert!(!claim_post_dictation_key(&mut state, id(2)));
    assert_eq!(settle_post_dictation_key(&mut state, id(1), false), Some(PostKeyOutcome::OriginalTargetLost));
    assert_eq!(settle_post_dictation_key(&mut state, id(1), true), None);
    assert_eq!(settle_post_dictation_key(&mut state, id(1), true), Some(PostKeyOutcome::AlreadyClaimedOrStale));
    assert!(!claim_post_dictation_key(&mut state, id(1)));
}

#[test]
fn deliveries_have_error_codes() {
    let code = |status, polish, focus, fallback, wayland, windows| {
        dictation_error_code(status, polish, focus, fallback, wayland, windows)
    };
    assert_eq!(code(InsertStatus::SubmittedUnconfirmed, true, true, true, true, true), Some("insertUnconfirmed"));
    assert_eq!(code(InsertStatus::Failed, false, true, true, true, false), Some("waylandClipboardWriteFailed"));
    assert_eq!(code(InsertStatus::Failed, false, false, true, false, true), Some("focusRestoreFailed"));
    assert_eq!(code(InsertStatus::Failed, true, true, false, false, true), Some("windowsImeTsfRequired"));
    assert_eq!(code(InsertStatus::Failed, true, true, false, false, false), Some("polishFailed"));
    assert_eq!(code(InsertStatus::Inserted, true, true, true, false, true), Some("polishFailed"));
    assert_eq!(code(InsertStatus::Inserted, false, true, true, false, true), None);
    assert_eq!(device_success_reason(Some("polishFailed")), "dictation_processing_done_raw_inserted");
    assert_eq!(device_success_reason(Some("insertUnconfirmed")), "dictation_processing_done");
    assert_eq!(device_success_reason(None), "dictation_processing_done");
}

#[test]
fn notices_say_what_happened() {
    assert_eq!(done_notice(InsertStatus::Inserted, false, false, false, false), DoneNotice::Silent);
    assert_eq!(done_notice(InsertStatus::Inserted, true, false, false, false), DoneNotice::ByStatus);
    assert_eq!(done_notice(InsertStatus::Inserted, false, false, true, false), DoneNotice::Wayland);
    let clipboard = done_notice(InsertStatus::Failed, false, true, false, true);
    assert_eq!(clipboard.words(), Some("TSF 未上屏，内容在剪贴板，请 Ctrl+V"));
    let nowhere = done_notice(InsertStatus::Failed, false, true, true, false);
    assert_eq!(nowhere.words(), Some("TSF 未上屏，已禁止非 TSF 兜底"));
    assert_eq!(DoneNotice::ByStatus.words(), None);
    let mut circuit = LlmAuthFailureCircuit::new();
    assert!(!auth_notice_due(&mut circuit, true, false, Some(1)));
    note_llm_auth_rejection(&mut circuit, 1);
    assert!(!auth_notice_due(&mut circuit, false, false, Some(1)));
    assert!(!auth_notice_due(&mut circuit, true, true, Some(1)));
    assert!(!auth_notice_due(&mut circuit, true, false, None));
    assert!(auth_notice_due(&mut circuit, true, false, Some(1)));
    assert!(!auth_notice_due(&mut circuit, true, false, Some(1)));
}

fn context() -> EntryContext {
    EntryContext {
        session_id: id(1),
        created_at: "now".to_string(),
        mode: PolishMode::Light,
        duration_ms: Some(7),
        audio_archived: true,
        audio_stats: None,
    }
}

#[test]
fn every_end_leaves_its_record() {
    let text = id(1).to_text();
    let (entry, result) = finish_source_integrity_blocked(context(), 3);
    assert_eq!(entry.error_code.as_deref(), Some("source_integrity_blocked"));
    assert_eq!((entry.id, entry.insert_status), (text.clone(), InsertStatus::Failed));
    assert_eq!((entry.dictionary_entry_count, entry.has_audio_recording), (Some(3), Some(true)));
    assert_eq!((result.final_text.as_str(), result.session_id), ("", text.clone()));
    let (entry, result) = empty_transcript_closeout(context(), " ".to_string(), 0);
    assert_eq!((entry.raw_transcript.as_str(), entry.error_code.as_deref()), (" ", Some("emptyTranscript")));
    assert_eq!(result.raw_transcript, " ");
    let nothing = wake_only_result(id(1));
    assert!(nothing.error_code.is_none() && nothing.final_text.is_empty());
    let (entry, result) = delivered_closeout(
        context(), "raw".to_string(), "fine".to_string(), InsertStatus::Inserted, Some("polishFailed"), 1 << 40,
    );
    assert_eq!((entry.final_text.as_str(), entry.dictionary_entry_count), ("fine", Some(u32::MAX)));
    assert_eq!(entry.duration_ms, Some(7));
    assert_eq!((result.raw_transcript.as_str(), result.error_code.as_deref()), ("raw", Some("polishFailed")));
}

#[test]
fn earlier_turns_serve_as_context() {
    let entry = |text: &str, code: Option<&str>| DictationSession {
        id: String::new(),
        created_at: String::new(),
        raw_transcript: format!("raw {text}"),
        final_text: text.to_string(),
        mode: PolishMode::Light,
        app_bundle_id: None,
        app_name: None,
        insert_status: InsertStatus::Inserted,
        error_code: code.map(|c| c.to_string()),
        duration_ms: None,
        dictionary_entry_count: None,
        has_audio_recording: None,
        embedded_audio_stats: None,
    };
    let entries = vec![entry("one", None), entry("two", Some("polishFailed")), entry(" ", None), entry("three", None)];
    assert_eq!(
        prior_turns(&entries, false, true, 5),
        vec![
            ("raw one".to_string(), "one".to_string()),
            ("raw three".to_string(), "three".to_string()),
        ]
    );
    assert!(prior_turns(&entries, true, true, 5).is_empty());
    assert!(prior_turns(&entries, false, false, 5).is_empty());
    assert!(prior_turns(&entries, false, true, 0).is_empty());
    for words in ["credentials were already rejected", "AuthenticationError", "status 403", "Unauthorized"] {
        assert!(polish_error_is_auth_failure(words));
    }
    assert!(!polish_error_is_auth_failure("status 500"));
}
