use listener_coordinator::credentials::{
    read_asr_proxy_config, read_bailian_credentials, read_gemini_credentials,
    read_volc_credentials, read_whisper_credentials,
    sync_active_asr_provider_to_credentials_for_runtime, CredentialSnapshot, ProviderConfigError,
};
use listener_coordinator::llm::{
    build_active_llm_provider, current_llm_auth_fingerprint, llm_default_endpoint_requires_api_key,
    llm_error_is_auth_rejection, llm_provider_default_endpoint, llm_stall_circuit_open,
    note_llm_auth_rejection, note_llm_polish_stall_failure, note_llm_polish_success,
    polish_or_passthrough, polish_or_passthrough_streaming, polish_text, preview_style_pack_runtime,
    raw_mode_uses_llm, raw_style_pack_uses_llm, reconcile_llm_base_url_for_key, repolish,
    resolve_ark_endpoint, resolve_ark_endpoint_with_policy, same_llm_endpoint,
    sanitize_llm_api_key, settle_streaming_polish, take_llm_auth_rejection_notice,
    translate_or_passthrough, translate_text, answer_chat_dispatch, ActiveLlmConfig,
    AssembledPrompt, CodexProvider, LlmAttempt, LlmAuthFailureCircuit, LlmCall, LlmError,
    LlmStallCircuit, PolishRefusal, RepolishStep, StreamingPolishOutcome, StreamingPolishStart,
};
use listener_coordinator::preferences::{
    ChineseScriptPreference, PolishMode, StylePack, StylePackKind,
};
use listener_coordinator::script::{apply_chinese_script_preference, converted_or_same};

const CODEX: CodexProvider = CodexProvider { id: "codex", default_model: "codex-default" };

fn store() -> CredentialSnapshot {
    CredentialSnapshot {
        active_llm: "deepseek".to_string(),
        active_asr: "volcengine".to_string(),
        ark_api_key: Ok(Some("\"Bearer sk-abc\" ".to_string())),
        ark_model_id: Ok(None),
        ark_endpoint: Ok(Some(
            "https://ark.cn-beijing.volces.com/api/v3/chat/completions".to_string(),
        )),
        asr_api_key: Ok(Some("asr-key".to_string())),
        asr_endpoint: Ok(Some("  ".to_string())),
        asr_model: Ok(Some(String::new())),
        asr_vocabulary_id: Ok(Some(" ".to_string())),
        volcengine_app_key: Ok(Some("app".to_string())),
        volcengine_access_key: Err("locked".to_string()),
        volcengine_resource_id: Ok(Some(String::new())),
        llm_proxy_mode: Ok(Some("system".to_string())),
        llm_proxy_url: Ok(None),
        asr_proxy_mode: Ok(None),
        asr_proxy_url: Ok(None),
    }
}

fn raw_pack() -> StylePack {
    StylePack {
        id: "raw".to_string(),
        name: "Raw".to_string(),
        kind: StylePackKind::Builtin,
        base_mode: PolishMode::Raw,
        prompt: "as is".to_string(),
    }
}

#[test]
fn keys_are_cleaned_of_what_was_pasted_with_them() {
    assert_eq!(sanitize_llm_api_key("  \"Bearer sk-1\"  "), "sk-1");
    assert_eq!(sanitize_llm_api_key("'bearer  sk-2 '"), "sk-2");
    assert_eq!(sanitize_llm_api_key("Bearersk-3"), "Bearersk-3");
    assert_eq!(sanitize_llm_api_key("BEARER sk-4"), "BEARER sk-4");
    assert_eq!(sanitize_llm_api_key(" \" \" "), "");
    let cleaned = sanitize_llm_api_key("\tsk-5\n");
    assert_eq!(sanitize_llm_api_key(&cleaned), cleaned);
}

#[test]
fn a_key_never_goes_to_the_wrong_vendor() {
    let ark = "https://ark.cn-beijing.volces.com/api/v3";
    let deepseek = "https://api.deepseek.com/v1";
    assert_eq!(reconcile_llm_base_url_for_key("openai", "sk-1", ark), deepseek);
    assert_eq!(reconcile_llm_base_url_for_key("openai", "sk-proj-1", ark), ark);
    assert_eq!(reconcile_llm_base_url_for_key("ark", "sk-proj-1", ark), deepseek);
    assert_eq!(reconcile_llm_base_url_for_key("deepseek", "other", ark), deepseek);
    assert_eq!(reconcile_llm_base_url_for_key("ark", "other", deepseek), ark);
    assert_eq!(reconcile_llm_base_url_for_key("ark", "sk-1", deepseek), deepseek);
    assert_eq!(reconcile_llm_base_url_for_key("ark", "other", "https://volcengine.example"), "https://volcengine.example");
    for (provider, key, address) in [("openai", "sk-1", ark), ("ark", "other", deepseek), ("deepseek", "x", ark)] {
        let once = reconcile_llm_base_url_for_key(provider, key, address);
        assert_eq!(reconcile_llm_base_url_for_key(provider, key, &once), once);
    }
    assert_eq!(reconcile_llm_base_url_for_key("mimo", " sk-or-1", "https://x"), "https://x");
}

#[test]
fn addresses_are_compared_by_where_they_lead() {
    assert!(same_llm_endpoint(
        " HTTPS://API.deepseek.com/v1/chat/completions/ ",
        "https://api.deepseek.com/v1"
    ));
    assert!(!same_llm_endpoint("https://api.deepseek.com/v1", "https://api.deepseek.com/v2"));
    for form in ["/", "/chat/completions", "//chat/completions/chat/completions//", " \n"] {
        let written = format!("HTTPS://API.deepseek.com/v1{form}");
        assert!(same_llm_endpoint(&written, "https://api.deepseek.com/v1"));
    }
    assert!(llm_default_endpoint_requires_api_key("openai", "https://api.openai.com/v1//"));
    assert!(!llm_default_endpoint_requires_api_key("openai", "http://localhost:11434/v1"));
    assert!(!llm_default_endpoint_requires_api_key("unknown", "https://api.openai.com/v1"));
    assert_eq!(llm_provider_default_endpoint("codingPlanX"), Some("https://api.codingplanx.ai/v1"));
    assert_eq!(llm_provider_default_endpoint("CodingPlanX"), None);
}

#[test]
fn a_known_address_needs_a_key() {
    let default = "https://ark.cn-beijing.volces.com/api/v3/chat/completions";
    assert!(matches!(
        resolve_ark_endpoint_with_policy("openai", " ", None),
        Err(ProviderConfigError::ApiKeyEmpty)
    ));
    assert!(matches!(
        resolve_ark_endpoint_with_policy("openai", "", Some("https://api.openai.com/v1".to_string())),
        Err(ProviderConfigError::ApiKeyEmpty)
    ));
    assert_eq!(
        resolve_ark_endpoint_with_policy("openai", "", Some("http://localhost".to_string())).unwrap(),
        "http://localhost"
    );
    assert_eq!(resolve_ark_endpoint_with_policy("openai", "k", None).unwrap(), default);
    let mut broken = store();
    broken.ark_endpoint = Err("gone".to_string());
    let error = resolve_ark_endpoint(&broken, "openai", "k").unwrap_err();
    assert_eq!(error.message(), "gone");
    assert_eq!(ProviderConfigError::ApiKeyEmpty.message(), "API Key 为空");
}

#[test]
fn the_model_in_use_is_configured_from_the_store() {
    match build_active_llm_provider(&store(), CODEX, true).unwrap() {
        ActiveLlmConfig::OpenAi {
            provider_id, display_name, base_url, api_key, model, proxy, thinking_enabled,
        } => {
            assert_eq!(provider_id, "deepseek");
            assert_eq!(display_name, "Listener Type LLM");
            assert_eq!(base_url, "https://api.deepseek.com/v1");
            assert_eq!(api_key, "sk-abc");
            assert_eq!(model, "deepseek-v3-2");
            assert_eq!(proxy.provider_id, "deepseek");
            assert_eq!(proxy.mode.as_deref(), Some("system"));
            assert_eq!(proxy.url, None);
            assert!(thinking_enabled);
        }
        other => panic!("{other:?}"),
    }
    let mut codex = store();
    codex.active_llm = "codex".to_string();
    codex.ark_api_key = Err("never read".to_string());
    match build_active_llm_provider(&codex, CODEX, false).unwrap() {
        ActiveLlmConfig::Codex { codex_model, codex_proxy, codex_thinking } => {
            assert_eq!(codex_model, "codex-default");
            assert_eq!(codex_proxy.provider_id, "codex");
            assert!(!codex_thinking);
        }
        other => panic!("{other:?}"),
    }
    let mut broken = store();
    broken.ark_model_id = Err("model".to_string());
    broken.ark_api_key = Err("key".to_string());
    assert_eq!(build_active_llm_provider(&broken, CODEX, false).unwrap_err().message(), "model");
    let mut keyless = store();
    keyless.ark_api_key = Ok(None);
    keyless.ark_endpoint = Ok(None);
    assert!(matches!(
        build_active_llm_provider(&keyless, CODEX, false),
        Err(ProviderConfigError::ApiKeyEmpty)
    ));
}

#[test]
fn stored_settings_fall_back_to_defaults() {
    let s = store();
    let whisper = read_whisper_credentials(&s, "groq").unwrap();
    assert_eq!(whisper.api_key, "asr-key");
    assert_eq!(whisper.base_url, "  ");
    assert_eq!(whisper.model, "whisper-1");
    assert_eq!(whisper.proxy.provider_id, "groq");
    let bailian = read_bailian_credentials(&s, "wss://default", "paraformer");
    assert_eq!(bailian.endpoint, "wss://default");
    assert_eq!(bailian.model, "paraformer");
    assert_eq!(bailian.vocabulary_id, None);
    let volc = read_volc_credentials(&s, "resource");
    assert_eq!(volc.app_id, "app");
    assert_eq!(volc.access_token, "");
    assert_eq!(volc.resource_id, "resource");
    assert!(read_asr_proxy_config(&s, "volcengine").is_ok());
    assert!(sync_active_asr_provider_to_credentials_for_runtime(&s, "groq"));
    assert!(!sync_active_asr_provider_to_credentials_for_runtime(&s, "volcengine"));
}

#[test]
fn gemini_needs_a_key_and_loses_trailing_slashes() {
    let mut s = store();
    s.ark_endpoint = Ok(Some("https://g.example/v1beta//".to_string()));
    let gemini = read_gemini_credentials(&s).unwrap();
    assert_eq!(gemini.api_key, "\"Bearer sk-abc\" ");
    assert_eq!(gemini.model, "gemini-2.5-flash");
    assert_eq!(gemini.base_url, "https://g.example/v1beta");
    s.ark_api_key = Ok(Some(" ".to_string()));
    assert!(matches!(read_gemini_credentials(&s), Err(ProviderConfigError::ApiKeyEmpty)));
    s.ark_model_id = Err("m".to_string());
    assert!(matches!(read_gemini_credentials(&s), Err(ProviderConfigError::StoreUnreadable(_))));
}

#[test]
fn a_refusal_is_remembered_and_announced_once() {
    let mut circuit = LlmAuthFailureCircuit::new();
    assert!(!take_llm_auth_rejection_notice(&mut circuit, 7));
    note_llm_auth_rejection(&mut circuit, 7);
    assert!(circuit.rejects(7));
    assert!(!circuit.rejects(8));
    assert!(take_llm_auth_rejection_notice(&mut circuit, 7));
    assert!(!take_llm_auth_rejection_notice(&mut circuit, 7));
    note_llm_auth_rejection(&mut circuit, 8);
    assert!(take_llm_auth_rejection_notice(&mut circuit, 8));
    note_llm_auth_rejection(&mut circuit, 7);
    assert!(circuit.rejects(7));
    assert!(!take_llm_auth_rejection_notice(&mut circuit, 7));
    let mut fresh = LlmAuthFailureCircuit::default();
    fresh.reject(1);
    assert!(fresh.take_notice(1));
    fresh.reject(2);
    assert!(fresh.take_notice(2));
    fresh.reject(1);
    assert!(!fresh.take_notice(1));
    assert_eq!(fresh.announced, vec![1, 2]);
}

#[test]
fn fingerprints_follow_the_credentials() {
    let a = current_llm_auth_fingerprint(&store()).unwrap();
    assert_eq!(a, current_llm_auth_fingerprint(&store()).unwrap());
    let mut other = store();
    other.ark_api_key = Ok(Some("sk-other".to_string()));
    assert_ne!(a, current_llm_auth_fingerprint(&other).unwrap());
    let mut absent = store();
    absent.ark_model_id = Ok(Some(String::new()));
    assert_ne!(a, current_llm_auth_fingerprint(&absent).unwrap());
    let mut broken = store();
    broken.ark_endpoint = Err("gone".to_string());
    assert_eq!(current_llm_auth_fingerprint(&broken).unwrap_err().message(), "gone");
}

#[test]
fn two_failures_leave_the_model_alone_for_two_minutes() {
    let mut circuit = LlmStallCircuit::new();
    assert!(!note_llm_polish_stall_failure(&mut circuit, 1_000));
    assert!(!llm_stall_circuit_open(&circuit, 1_000));
    assert!(note_llm_polish_stall_failure(&mut circuit, 2_000));
    assert!(llm_stall_circuit_open(&circuit, 121_999));
    assert!(!llm_stall_circuit_open(&circuit, 122_000));
    assert!(!note_llm_polish_stall_failure(&mut circuit, 100_000));
    assert!(note_llm_polish_stall_failure(&mut circuit, 300_000));
    note_llm_polish_success(&mut circuit);
    assert!(!llm_stall_circuit_open(&circuit, 300_001));
    assert!(!note_llm_polish_stall_failure(&mut circuit, 300_002));
}

#[test]
fn only_two_statuses_refuse_credentials() {
    let answer = |status| LlmError::InvalidResponse { status, detail: "x".to_string() };
    assert!(llm_error_is_auth_rejection(&answer(401)));
    assert!(llm_error_is_auth_rejection(&answer(403)));
    assert!(!llm_error_is_auth_rejection(&answer(402)));
    assert!(!llm_error_is_auth_rejection(&LlmError::Other("401".to_string())));
}

#[test]
fn raw_styles_need_no_model_unless_changed() {
    let mut pack = raw_pack();
    assert!(!raw_style_pack_uses_llm(&pack, "raw", "as is"));
    assert!(!raw_mode_uses_llm("as is", "as is"));
    assert!(raw_mode_uses_llm("as is ", "as is"));
    pack.kind = StylePackKind::Custom;
    assert!(raw_style_pack_uses_llm(&pack, "raw", "as is"));
    assert!(matches!(
        repolish("text".to_string(), &raw_pack(), "raw", "as is"),
        RepolishStep::Unchanged(t) if t == "text"
    ));
    assert!(matches!(
        repolish("text".to_string(), &pack, "raw", "as is"),
        RepolishStep::Polish { mode: PolishMode::Raw, .. }
    ));
}

#[test]
fn streaming_polish_begins_only_where_it_can() {
    let circuit = LlmAuthFailureCircuit::new();
    let start = |s: &CredentialSnapshot, c: &LlmAuthFailureCircuit, mode, prompt| {
        polish_or_passthrough_streaming(s, c, mode, prompt, "as is", CODEX, false)
    };
    assert!(matches!(
        start(&store(), &circuit, PolishMode::Raw, "as is"),
        StreamingPolishStart::Settled(StreamingPolishOutcome::UnsupportedFallback)
    ));
    let mut gemini = store();
    gemini.active_llm = "gemini".to_string();
    assert!(matches!(
        start(&gemini, &circuit, PolishMode::Light, "p"),
        StreamingPolishStart::Settled(StreamingPolishOutcome::UnsupportedFallback)
    ));
    let mut codex = store();
    codex.active_llm = "codex".to_string();
    assert!(matches!(
        start(&codex, &circuit, PolishMode::Light, "p"),
        StreamingPolishStart::Settled(StreamingPolishOutcome::UnsupportedFallback)
    ));
    let known = current_llm_auth_fingerprint(&store()).unwrap();
    match start(&store(), &circuit, PolishMode::Light, "p") {
        StreamingPolishStart::Ask { fingerprint, .. } => assert_eq!(fingerprint, Some(known)),
        other => panic!("{other:?}"),
    }
    let mut refused = LlmAuthFailureCircuit::new();
    note_llm_auth_rejection(&mut refused, known);
    match start(&store(), &refused, PolishMode::Light, "p") {
        StreamingPolishStart::Settled(StreamingPolishOutcome::Failed(reason)) => {
            assert_eq!(reason, "current LLM credentials were already rejected")
        }
        other => panic!("{other:?}"),
    }
    let mut keyless = store();
    keyless.ark_api_key = Ok(None);
    keyless.ark_endpoint = Ok(None);
    match start(&keyless, &circuit, PolishMode::Light, "p") {
        StreamingPolishStart::Settled(StreamingPolishOutcome::Failed(reason)) => {
            assert_eq!(reason, "API Key 为空")
        }
        other => panic!("{other:?}"),
    }
}

#[test]
fn a_streamed_answer_is_settled() {
    let mut circuit = LlmAuthFailureCircuit::new();
    assert!(matches!(
        settle_streaming_polish(&mut circuit, Some(1), Ok("done".to_string())),
        StreamingPolishOutcome::Streamed(t) if t == "done"
    ));
    assert!(!circuit.rejects(1));
    let refusal = LlmError::InvalidResponse { status: 401, detail: "no".to_string() };
    assert!(matches!(
        settle_streaming_polish(&mut circuit, Some(1), Err(refusal)),
        StreamingPolishOutcome::Failed(t) if t == "no"
    ));
    assert!(circuit.rejects(1));
}

#[test]
fn a_failed_polish_keeps_the_spoken_words() {
    let mut circuit = LlmAuthFailureCircuit::new();
    let failed = || LlmAttempt::Answered(Err(LlmError::InvalidResponse {
        status: 403,
        detail: "denied".to_string(),
    }));
    let (text, reason) =
        polish_or_passthrough(&mut circuit, "spoken", PolishMode::Light, "p", "as is", Some(3), failed());
    assert_eq!(text, "spoken");
    assert_eq!(reason.as_deref(), Some("denied"));
    assert!(circuit.rejects(3));
    let (text, reason) =
        polish_or_passthrough(&mut circuit, "spoken", PolishMode::Raw, "as is", "as is", Some(4), failed());
    assert_eq!((text.as_str(), reason), ("spoken", None));
    assert!(!circuit.rejects(4));
    let (text, reason) = translate_or_passthrough("spoken", LlmAttempt::NotAsked(PolishRefusal::RefusedBefore));
    assert_eq!(text, "spoken");
    assert_eq!(reason.as_deref(), Some("current LLM credentials were already rejected"));
    let (text, reason) =
        translate_or_passthrough("spoken", LlmAttempt::Answered(Ok("translated".to_string())));
    assert_eq!((text.as_str(), reason), ("translated", None));
}

#[test]
fn refused_credentials_stop_a_polish_but_not_a_translation() {
    let known = current_llm_auth_fingerprint(&store()).unwrap();
    let mut circuit = LlmAuthFailureCircuit::new();
    assert!(matches!(polish_text(&store(), &circuit, CODEX, false), Ok((LlmCall::Active(_), Some(f))) if f == known));
    note_llm_auth_rejection(&mut circuit, known);
    assert!(matches!(
        polish_text(&store(), &circuit, CODEX, false),
        Err(PolishRefusal::RefusedBefore)
    ));
    assert!(matches!(translate_text(&store(), CODEX, false), Ok(LlmCall::Active(_))));
    let mut gemini = store();
    gemini.active_llm = "gemini".to_string();
    assert!(matches!(polish_text(&gemini, &circuit, CODEX, true), Ok((LlmCall::Gemini { gemini_thinking: true, .. }, None))));
    assert!(matches!(answer_chat_dispatch(&gemini, CODEX, false), Ok(LlmCall::Gemini { .. })));
    let mut broken = store();
    broken.ark_endpoint = Err("gone".to_string());
    assert_eq!(polish_text(&broken, &circuit, CODEX, false).unwrap_err().message(), "gone");
}

#[test]
fn a_style_is_shown_as_it_would_be_used() {
    let prompt = |history: &str| AssembledPrompt {
        context_premise: "前提".to_string(),
        hotword_block: "words".to_string(),
        history_instruction: history.to_string(),
        effective_system_prompt: format!("all {history}"),
        includes_context_premise: true,
        includes_hotword_block: false,
        includes_history_instruction: !history.is_empty(),
    };
    let shown = preview_style_pack_runtime(
        &raw_pack(), prompt(""), prompt("历史"), vec!["中文".to_string()], vec![], 5,
    );
    assert_eq!(shown.context_premise_chars, 2);
    assert_eq!(shown.history_instruction_chars, 2);
    assert_eq!(shown.multi_turn_prompt, "all 历史");
    assert_eq!(shown.multi_turn_prompt_chars, 6);
    assert!(shown.includes_history_instruction);
    assert!(shown.preview_omits_front_app);
}

#[test]
fn texts_are_written_in_the_preferred_script() {
    assert_eq!(
        apply_chinese_script_preference("漢語繁體", ChineseScriptPreference::Simplified),
        "汉语繁体"
    );
    assert_eq!(
        apply_chinese_script_preference("汉语", ChineseScriptPreference::Traditional),
        "漢語"
    );
    assert_eq!(apply_chinese_script_preference("漢语", ChineseScriptPreference::Auto), "漢语");
    assert_eq!(apply_chinese_script_preference("", ChineseScriptPreference::Simplified), "");
    assert_eq!(converted_or_same("same", None), "same");
    assert_eq!(converted_or_same("same", Some("other".to_string())), "other");
}
