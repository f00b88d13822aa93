use listener_coordinator::asr::{
    active_asr_provider_from_preferences, build_embedded_audio_asr_consumer,
    dictation_asr_engine_backend_id, dictation_asr_engine_label, dictation_asr_quality_warning,
    dictation_asr_uses_core_accurate_engine, ensure_asr_credentials, ensure_local_qwen3_model_ready,
    ensure_microphone_permission, ensure_qa_volcengine_credentials,
    foundry_language_hint_for_output_language, foundry_language_hint_for_working_language,
    foundry_language_hint_from_preferences, is_bailian_provider, is_keyless_local_asr_provider,
    is_whisper_compatible_provider, log_dictation_asr_engine_selection,
    preload_foundry_local_asr_in_background, preload_local_asr_in_background,
    schedule_foundry_local_asr_release, schedule_local_asr_release, settle_asr_setup, settle_volcengine_open,
    AsrDefaults, EmbeddedAsrPlan, LocalModelState, MicrophoneGate, PermissionStatus, ReleasePlan,
    VolcengineOpenStep,
};
use listener_coordinator::audio::{
    embedded_feed_chunks, embedded_feed_pieces, embedded_pcm_measure, embedded_pcm_samples,
    embedded_pcm_streaming_agc_signal_level, embedded_streaming_chunk_has_speech_energy,
    record_embedded_audio_for_debug_enabled, SignalLevel,
};
use listener_coordinator::credentials::{CredentialSnapshot, ProviderConfigError};
use listener_coordinator::hotwords::{
    append_extra_asr_hotwords, enabled_hotwords, extra_asr_hotword_phrases, DictionaryHotword,
};
use listener_coordinator::preferences::{
    ChineseScriptPreference, DictationInputSource, OutputLanguagePreference, Platform,
    PostDictationKey, UserPreferences,
};
use listener_coordinator::session::{SessionId, SessionPhase, SessionState};

const DEFAULTS: AsrDefaults = AsrDefaults {
    bailian_endpoint: "wss://bailian",
    bailian_model: "paraformer",
    volcengine_resource_id: "resource",
    foundry_model_alias: "whisper-small",
};

fn prefs() -> UserPreferences {
    UserPreferences {
        active_asr_provider: " groq ".to_string(),
        dictation_input_source: DictationInputSource::EmbeddedBle,
        dictation_input_source_user_overridden: false,
        working_languages: vec!["  ".to_string(), "Klingon".to_string(), "English (UK)".to_string()],
        chinese_script_preference: ChineseScriptPreference::Auto,
        output_language_preference: OutputLanguagePreference::Auto,
        foundry_local_asr_language_hint: " ".to_string(),
        foundry_local_asr_model: "tiny".to_string(),
        foundry_local_runtime_source: "bundled".to_string(),
        foundry_local_asr_keep_loaded_secs: 30,
        local_asr_keep_loaded_secs: 0,
        record_audio_for_debug: false,
        translation_target_language: String::new(),
        restore_clipboard_after_paste: true,
        copy_dictation_to_clipboard: false,
        allow_non_tsf_insertion_fallback: true,
        streaming_insert: true,
        send_key_after_dictation: false,
        post_dictation_key: PostDictationKey::Enter,
        polish_context_window_minutes: 5,
    }
}

fn store() -> CredentialSnapshot {
    CredentialSnapshot {
        active_llm: "ark".to_string(),
        active_asr: "volcengine".to_string(),
        ark_api_key: Ok(None),
        ark_model_id: Ok(None),
        ark_endpoint: Ok(None),
        asr_api_key: Ok(Some("key".to_string())),
        asr_endpoint: Ok(None),
        asr_model: Ok(None),
        asr_vocabulary_id: Ok(Some("vocab".to_string())),
        volcengine_app_key: Ok(Some("app".to_string())),
        volcengine_access_key: Ok(Some("token".to_string())),
        volcengine_resource_id: Ok(None),
        llm_proxy_mode: Ok(None),
        llm_proxy_url: Ok(None),
        asr_proxy_mode: Ok(Some("none".to_string())),
        asr_proxy_url: Ok(None),
    }
}

fn ready_model() -> LocalModelState {
    LocalModelState::Known { id: "qwen3-0.6b".to_string(), downloaded: true }
}

fn state(phase: SessionPhase) -> SessionState {
    SessionState {
        session_id: SessionId { bits: 9 },
        phase,
        pending_stop: false,
        cancelled: false,
        user_initiated_stop: false,
        post_dictation_key_claimed: false,
    }
}

#[test]
fn providers_are_told_apart() {
    for id in ["whisper", "siliconflow", "zhipu", "groq"] {
        assert!(is_whisper_compatible_provider(id));
        assert_eq!(dictation_asr_engine_backend_id(id), "whisper-compatible");
    }
    assert!(!is_whisper_compatible_provider("Whisper"));
    assert!(is_bailian_provider("bailian"));
    assert_eq!(dictation_asr_engine_backend_id("bailian"), "bailian");
    assert_eq!(dictation_asr_engine_backend_id("local-qwen3"), "local-qwen3");
    assert_eq!(dictation_asr_engine_backend_id("foundry-local-whisper"), "foundry-local-whisper");
    assert_eq!(dictation_asr_engine_backend_id("anything"), "volcengine");
    assert!(is_keyless_local_asr_provider("local-qwen3", Platform::Linux));
    assert!(is_keyless_local_asr_provider("foundry-local-whisper", Platform::Windows));
    assert!(!is_keyless_local_asr_provider("foundry-local-whisper", Platform::MacOs));
}

#[test]
fn labels_and_warnings_name_the_recogniser() {
    assert_eq!(dictation_asr_engine_label("volcengine"), "Volcengine");
    assert_eq!(dictation_asr_engine_label("groq"), "Whisper-compatible (groq)");
    assert_eq!(dictation_asr_engine_label("local-qwen3"), "Local Qwen3-ASR");
    assert_eq!(dictation_asr_engine_label("bailian"), "Bailian");
    assert_eq!(dictation_asr_engine_label("foundry-local-whisper"), "Foundry Local Whisper");
    assert!(dictation_asr_uses_core_accurate_engine("volcengine"));
    assert_eq!(dictation_asr_quality_warning("volcengine"), None);
    assert_eq!(
        dictation_asr_quality_warning("bailian").unwrap(),
        "当前识别引擎为Bailian，不是核心 Volcengine 准确引擎，识别可能不准。"
    );
    let log = log_dictation_asr_engine_selection(SessionId { bits: 1 }, "groq");
    assert_eq!(
        log.info,
        "[coord] dictation ASR engine selected: session_id=00000000-0000-0000-0000-000000000001 provider=groq backend=whisper-compatible label=\"Whisper-compatible (groq)\" core_accurate=false"
    );
    assert_eq!(
        log.warning.unwrap(),
        "[coord] dictation ASR non-core accuracy warning: session_id=00000000-0000-0000-0000-000000000001 provider=groq backend=whisper-compatible"
    );
    assert!(log_dictation_asr_engine_selection(SessionId { bits: 1 }, "volcengine").warning.is_none());
}

#[test]
fn the_preferred_recogniser_wins_over_the_stored_one() {
    assert_eq!(active_asr_provider_from_preferences(&prefs(), &store()), "groq");
    let mut none = prefs();
    none.active_asr_provider = "  ".to_string();
    assert_eq!(active_asr_provider_from_preferences(&none, &store()), "volcengine");
}

#[test]
fn every_recogniser_needs_its_own() {
    let check = |s: &CredentialSnapshot, id: &str, platform| ensure_asr_credentials(s, id, platform, &ready_model());
    assert_eq!(check(&store(), "local-qwen3", Platform::MacOs), Ok(()));
    assert_eq!(
        check(&store(), "local-qwen3", Platform::Windows).unwrap_err(),
        "本地 ASR 当前仅支持 macOS（Windows 见 issue #256）"
    );
    assert_eq!(check(&store(), "foundry-local-whisper", Platform::Windows), Ok(()));
    assert_eq!(
        check(&store(), "foundry-local-whisper", Platform::Linux).unwrap_err(),
        "Foundry Local Whisper 当前仅支持 Windows"
    );
    let mut keyless = store();
    keyless.asr_api_key = Ok(Some(" ".to_string()));
    keyless.volcengine_access_key = Err("locked".to_string());
    assert_eq!(check(&keyless, "groq", Platform::Linux).unwrap_err(), "请先在设置中填写 ASR 服务商 API Key");
    assert_eq!(check(&keyless, "bailian", Platform::Linux).unwrap_err(), "请先在设置中填写 ASR 服务商 API Key");
    assert_eq!(
        check(&keyless, "volcengine", Platform::Linux).unwrap_err(),
        "请先在设置中填写火山引擎 ASR App Key 和 Access Key"
    );
    assert!(ensure_qa_volcengine_credentials(&keyless).is_err());
    assert_eq!(check(&store(), "volcengine", Platform::Linux), Ok(()));
    assert!(ensure_qa_volcengine_credentials(&store()).is_ok());
}

#[test]
fn a_local_model_must_be_there() {
    assert_eq!(
        ensure_local_qwen3_model_ready(&LocalModelState::Unknown("x".to_string())).unwrap_err(),
        "未知的本地模型 id: x"
    );
    assert_eq!(
        ensure_local_qwen3_model_ready(&LocalModelState::Known { id: "q".to_string(), downloaded: false })
            .unwrap_err(),
        "本地模型 q 未下载完整，请到 设置 → 模型设置 中下载"
    );
    assert_eq!(
        ensure_local_qwen3_model_ready(&LocalModelState::PreferencesUnreadable("io".to_string())).unwrap_err(),
        "io"
    );
    assert!(ensure_local_qwen3_model_ready(&ready_model()).is_ok());
    assert_eq!(preload_local_asr_in_background(Platform::MacOs, &ready_model()).as_deref(), Some("qwen3-0.6b"));
    assert_eq!(preload_local_asr_in_background(Platform::Windows, &ready_model()), None);
}

#[test]
fn the_microphone_is_asked_for_once() {
    let withheld = || PermissionStatus::Withheld("Denied".to_string());
    let gate = |platform, denied, checked, requested| ensure_microphone_permission(platform, denied, &checked, requested);
    assert!(matches!(gate(Platform::Windows, false, withheld(), None), MicrophoneGate::Ready));
    assert!(matches!(
        gate(Platform::Windows, true, PermissionStatus::Granted, None),
        MicrophoneGate::Refused(w) if w == "需要麦克风权限，当前状态: Denied"
    ));
    assert!(matches!(gate(Platform::MacOs, false, PermissionStatus::NotApplicable, None), MicrophoneGate::Ready));
    assert!(matches!(gate(Platform::MacOs, false, withheld(), None), MicrophoneGate::AskUser));
    assert!(matches!(gate(Platform::MacOs, false, withheld(), Some(PermissionStatus::Granted)), MicrophoneGate::Ready));
    assert!(matches!(
        gate(Platform::Linux, false, withheld(), Some(PermissionStatus::Withheld("NotDetermined".to_string()))),
        MicrophoneGate::Refused(w) if w == "需要麦克风权限，当前状态: NotDetermined"
    ));
}

#[test]
fn working_languages_become_hints() {
    let hint = foundry_language_hint_for_working_language;
    assert_eq!(hint("繁體中文"), Some("zh"));
    assert_eq!(hint(" ZH-Hant "), Some("zh"));
    assert_eq!(hint("Simplified Chinese"), Some("zh"));
    assert_eq!(hint("EN-us"), Some("en"));
    assert_eq!(hint("British English"), Some("en"));
    assert_eq!(hint("日本語"), Some("ja"));
    assert_eq!(hint("ja"), Some("ja"));
    assert_eq!(hint("한국어"), Some("ko"));
    assert_eq!(hint("Korean"), Some("ko"));
    assert_eq!(hint("Deutsch"), None);
    assert_eq!(hint("  "), None);
    assert_eq!(hint("enough"), None);
}

#[test]
fn a_hint_comes_from_the_strongest_preference() {
    let mut p = prefs();
    let picked = foundry_language_hint_from_preferences(&p);
    assert_eq!((picked.hint.as_deref(), picked.source), (Some("en"), "working_languages"));
    p.chinese_script_preference = ChineseScriptPreference::Traditional;
    let picked = foundry_language_hint_from_preferences(&p);
    assert_eq!((picked.hint.as_deref(), picked.source), (Some("zh"), "chinese_script_preference"));
    p.output_language_preference = OutputLanguagePreference::Ko;
    let picked = foundry_language_hint_from_preferences(&p);
    assert_eq!((picked.hint.as_deref(), picked.source), (Some("ko"), "output_language_preference"));
    p.foundry_local_asr_language_hint = " fr ".to_string();
    let picked = foundry_language_hint_from_preferences(&p);
    assert_eq!((picked.hint.as_deref(), picked.source), (Some("fr"), "explicit"));
    let mut none = prefs();
    none.working_languages = vec!["Klingon".to_string()];
    let picked = foundry_language_hint_from_preferences(&none);
    assert_eq!((picked.hint, picked.source), (None, "auto"));
    assert_eq!(foundry_language_hint_for_output_language(OutputLanguagePreference::ZhTw), Some("zh"));
    assert_eq!(foundry_language_hint_for_output_language(OutputLanguagePreference::Ja), Some("ja"));
    assert_eq!(foundry_language_hint_for_output_language(OutputLanguagePreference::Auto), None);
}

#[test]
fn a_recogniser_is_set_up_for_its_session() {
    let plan = |s: &CredentialSnapshot, platform, id: &str, known| {
        build_embedded_audio_asr_consumer(s, &prefs(), platform, id, known, DEFAULTS)
    };
    match plan(&store(), Platform::Windows, "foundry-local-whisper", true).unwrap() {
        EmbeddedAsrPlan::FoundryLocalWhisper { model_alias, runtime_source, language } => {
            assert_eq!(model_alias, "tiny");
            assert_eq!(runtime_source, "bundled");
            assert_eq!(language.hint.as_deref(), Some("en"));
        }
        other => panic!("{other:?}"),
    }
    match plan(&store(), Platform::Windows, "foundry-local-whisper", false).unwrap() {
        EmbeddedAsrPlan::FoundryLocalWhisper { model_alias, .. } => assert_eq!(model_alias, "whisper-small"),
        other => panic!("{other:?}"),
    }
    assert!(matches!(
        plan(&store(), Platform::Linux, "foundry-local-whisper", true).unwrap(),
        EmbeddedAsrPlan::Volcengine { .. }
    ));
    let set_up = |id, outcome: Result<(), &str>| {
        settle_asr_setup(&plan(&store(), Platform::Linux, id, true).unwrap(), outcome.map_err(str::to_string))
    };
    assert_eq!(set_up("groq", Err("tls")).unwrap_err(), "build Whisper HTTP client failed: tls");
    assert_eq!(set_up("bailian", Err("401")).unwrap_err(), "打开 Bailian ASR 连接失败: 401");
    assert_eq!(set_up("bailian", Ok(())), Ok(()));
    assert_eq!(set_up("volcengine", Err("later")), Ok(()));
    assert!(matches!(plan(&store(), Platform::Linux, "groq", true).unwrap(), EmbeddedAsrPlan::Whisper(c) if c.api_key == "key"));
    assert!(matches!(plan(&store(), Platform::Linux, "bailian", true).unwrap(), EmbeddedAsrPlan::Bailian(c) if c.vocabulary_id.as_deref() == Some("vocab")));
    match plan(&store(), Platform::Linux, "volcengine", true).unwrap() {
        EmbeddedAsrPlan::Volcengine { credentials, proxy } => {
            assert_eq!(credentials.resource_id, "resource");
            assert_eq!(proxy.unwrap().provider_id, "volcengine");
        }
        other => panic!("{other:?}"),
    }
    let mut broken = store();
    broken.asr_proxy_url = Err("proxy".to_string());
    assert!(matches!(
        plan(&broken, Platform::Linux, "groq", true),
        Err(ProviderConfigError::StoreUnreadable(r)) if r == "proxy"
    ));
    assert!(matches!(
        plan(&broken, Platform::Linux, "volcengine", true).unwrap(),
        EmbeddedAsrPlan::Volcengine { proxy: None, .. }
    ));
}

#[test]
fn a_connection_is_attached_only_to_a_running_session() {
    let id = SessionId { bits: 9 };
    assert_eq!(settle_volcengine_open(true, &state(SessionPhase::Listening), id), VolcengineOpenStep::Attach);
    assert_eq!(settle_volcengine_open(false, &state(SessionPhase::Starting), id), VolcengineOpenStep::RetainForReplay);
    assert_eq!(settle_volcengine_open(true, &state(SessionPhase::Idle), id), VolcengineOpenStep::Discard);
    assert_eq!(
        settle_volcengine_open(true, &state(SessionPhase::Listening), SessionId { bits: 8 }),
        VolcengineOpenStep::Discard
    );
    let mut cancelled = state(SessionPhase::Listening);
    cancelled.cancelled = true;
    assert_eq!(settle_volcengine_open(false, &cancelled, id), VolcengineOpenStep::Discard);
}

#[test]
fn memory_is_given_back_in_time() {
    let mut p = prefs();
    assert_eq!(schedule_local_asr_release(&p), ReleasePlan::Now);
    p.local_asr_keep_loaded_secs = 60;
    assert_eq!(schedule_local_asr_release(&p), ReleasePlan::WhenIdleFor(60));
    let id = SessionId { bits: 9 };
    assert!(!schedule_foundry_local_asr_release(&p, 29, &state(SessionPhase::Idle), id));
    assert!(schedule_foundry_local_asr_release(&p, 30, &state(SessionPhase::Idle), id));
    assert!(!schedule_foundry_local_asr_release(&p, 30, &state(SessionPhase::Idle), SessionId { bits: 1 }));
    let preload = preload_foundry_local_asr_in_background(Platform::Windows, &p, true, DEFAULTS);
    assert!(preload.helper && preload.model.is_none());
    p.active_asr_provider = "foundry-local-whisper".to_string();
    let preload = preload_foundry_local_asr_in_background(Platform::Windows, &p, false, DEFAULTS);
    assert_eq!(preload.model, Some(("whisper-small".to_string(), "bundled".to_string())));
    assert!(!preload_foundry_local_asr_in_background(Platform::MacOs, &p, false, DEFAULTS).helper);
}

#[test]
fn extra_phrases_are_read_from_a_setting() {
    assert_eq!(
        extra_asr_hotword_phrases(Some(" Listener ,;Denzic|\n 火山 \t,\r")),
        vec!["Listener".to_string(), "Denzic".to_string(), "火山".to_string()]
    );
    assert!(extra_asr_hotword_phrases(None).is_empty());
    assert!(extra_asr_hotword_phrases(Some(",, ;")).is_empty());
}

#[test]
fn extra_phrases_join_the_dictionary_once() {
    let entry = |p: &str, enabled| DictionaryHotword { phrase: p.to_string(), enabled };
    let words = enabled_hotwords(
        vec![entry("Denzic", false), entry("Listener", true)],
        Some("Listener,Denzic,Denzic"),
    );
    let shown: Vec<(&str, bool)> = words.iter().map(|w| (w.phrase.as_str(), w.enabled)).collect();
    assert_eq!(shown, vec![("Denzic", false), ("Listener", true), ("Denzic", true)]);
    let mut again = words;
    append_extra_asr_hotwords(&mut again, vec!["Denzic".to_string(), "Listener".to_string()]);
    assert_eq!(again.len(), 3);
}

#[test]
fn samples_and_peaks_are_read_exactly() {
    let pcm = [0x00, 0x00, 0xff, 0x7f, 0x00, 0x80, 0xff, 0xff, 0x05];
    assert_eq!(embedded_pcm_samples(&pcm), vec![0, 32767, -32768, -1]);
    let measure = embedded_pcm_measure(&pcm);
    assert_eq!(measure.samples, 4);
    assert_eq!(measure.peak, 32768);
    assert_eq!(measure.clipped_samples, 2);
    assert_eq!(measure.square_sum, 32767u128 * 32767 + 32768 * 32768 + 1);
    assert_eq!(embedded_pcm_measure(&[]).peak, 0);
}

#[test]
fn a_click_is_not_taken_for_a_voice() {
    let mut pcm = Vec::new();
    for i in 0..200i16 {
        let sample: i16 = if i == 17 { -30_000 } else if i == 18 { 29_000 } else { 10 };
        pcm.extend_from_slice(&sample.to_le_bytes());
    }
    let level = embedded_pcm_streaming_agc_signal_level(&pcm);
    assert_eq!(level.retained, 198);
    assert_eq!(level.peak, 10);
    assert_eq!(level.square_sum, 198 * 100);
    let one = embedded_pcm_streaming_agc_signal_level(&[0x07, 0x00]);
    assert_eq!((one.retained, one.peak, one.square_sum), (1, 7, 49));
    assert_eq!(embedded_pcm_streaming_agc_signal_level(&[1]).retained, 0);
    let unsorted = embedded_pcm_streaming_agc_signal_level(&[9, 0, 1, 0]);
    assert_eq!((unsorted.retained, unsorted.peak), (1, 1));
}

#[test]
fn audio_is_fed_in_pieces_without_gaps() {
    assert_eq!(embedded_feed_chunks(0), vec![]);
    assert_eq!(embedded_feed_chunks(3_200), vec![(0, 3_200)]);
    assert_eq!(embedded_feed_chunks(6_401), vec![(0, 3_200), (3_200, 6_400), (6_400, 6_401)]);
    let pcm: Vec<u8> = (0..7_000u32).map(|i| (i % 251) as u8).collect();
    let pieces = embedded_feed_pieces(&pcm, 100);
    assert_eq!(pieces.iter().map(Vec::len).collect::<Vec<usize>>(), vec![3_200, 3_200, 500]);
    assert_eq!(pieces.concat(), pcm[100..].to_vec());
    assert!(record_embedded_audio_for_debug_enabled(true, None));
    assert!(record_embedded_audio_for_debug_enabled(false, Some("1")));
    assert!(!record_embedded_audio_for_debug_enabled(false, Some("true")));
}

#[test]
fn speech_is_told_from_its_level() {
    let level = |square_sum, peak| SignalLevel { retained: 10, square_sum, peak };
    assert!(embedded_streaming_chunk_has_speech_energy(&level(144_000, 0)));
    assert!(!embedded_streaming_chunk_has_speech_energy(&level(143_999, 255)));
    assert!(embedded_streaming_chunk_has_speech_energy(&level(20_250, 256)));
    assert!(!embedded_streaming_chunk_has_speech_energy(&level(20_249, 256)));
    assert!(!embedded_streaming_chunk_has_speech_energy(&embedded_pcm_streaming_agc_signal_level(&[])));
}
