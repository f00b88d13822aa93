//! Which recogniser takes a dictation, what it needs, and how it is told about the user.

use vstd::prelude::*;
use vstd::string::*;
use crate::credentials::{
    fails_with,
    proxy_failure,
    read_asr_proxy_config,
    read_bailian_credentials,
    read_volc_credentials,
    read_whisper_credentials,
    stored_or_empty,
    BailianCredentials,
    CredentialSnapshot,
    ProviderConfigError,
    StoredProxyConfig,
    VolcengineCredentials,
    WhisperCredentials,
};
use crate::delivery::{string_of, text_of};
use crate::preferences::{
    ChineseScriptPreference,
    OutputLanguagePreference,
    Platform,
    UserPreferences,
};
use crate::session::{hyphenated, SessionId, SessionPhase, SessionState};
use crate::text::{
    ascii_lowered,
    blank,
    contains_text,
    is_blank,
    occurs_in,
    same_text,
    starts_with,
    to_ascii_lowercase,
    trim,
    trimmed,
};

verus! {

/// Whether a provider speaks the OpenAI protocol for transcriptions.
pub open spec fn whisper_compatible(id: Seq<char>) -> bool {
    id == "whisper"@ || id == "siliconflow"@ || id == "zhipu"@ || id == "groq"@
}

/// Whether a provider speaks the OpenAI protocol for transcriptions.
pub fn is_whisper_compatible_provider(id: &str) -> (r: bool)
    ensures
        r == whisper_compatible(id@),
{
    same_text(id, "whisper") || same_text(id, "siliconflow") || same_text(id, "zhipu")
        || same_text(id, "groq")
}

/// Whether a provider is Bailian.
pub fn is_bailian_provider(id: &str) -> (r: bool)
    ensures
        r == (id@ == "bailian"@),
{
    same_text(id, "bailian")
}

fn is_local_qwen3(id: &str) -> (r: bool)
    ensures
        r == (id@ == "local-qwen3"@),
{
    same_text(id, "local-qwen3")
}

fn is_foundry_local_whisper(id: &str) -> (r: bool)
    ensures
        r == (id@ == "foundry-local-whisper"@),
{
    same_text(id, "foundry-local-whisper")
}

/// Whether a provider works without a key on this desktop.
pub fn is_keyless_local_asr_provider(id: &str, platform: Platform) -> (r: bool)
    ensures
        r == (id@ == "local-qwen3"@ || (platform == Platform::Windows && id@
            == "foundry-local-whisper"@)),
{
    if is_local_qwen3(id) {
        return true;
    }
    match platform {
        Platform::Windows => is_foundry_local_whisper(id),
        _ => false,
    }
}

/// The provider that the preferences name, or the stored one where they name none.
pub open spec fn preferred_asr(prefs: UserPreferences, store: CredentialSnapshot) -> Seq<char> {
    if blank(prefs.active_asr_provider@) {
        store.active_asr@
    } else {
        trimmed(prefs.active_asr_provider@)
    }
}

/// The provider that the preferences name, or the stored one where they name none.
pub fn active_asr_provider_from_preferences(prefs: &UserPreferences, store: &CredentialSnapshot) -> (r:
    String)
    ensures
        r@ == preferred_asr(*prefs, *store),
{
    let preferred = trim(prefs.active_asr_provider.as_str());
    if preferred.is_empty() {
        return store.active_asr.clone();
    }
    preferred.to_owned()
}

/// What is known of the model of the local recogniser.
#[derive(Debug)]
pub enum LocalModelState {
    /// The preferences could not be read.
    PreferencesUnreadable(String),
    /// The preferences name a model that does not exist.
    Unknown(String),
    /// The model exists.
    Known { id: String, downloaded: bool },
}

/// Why the local recogniser cannot run.
pub open spec fn local_model_failure(model: LocalModelState) -> Option<Seq<char>> {
    match model {
        LocalModelState::PreferencesUnreadable(reason) => Some(reason@),
        LocalModelState::Unknown(id) => Some("未知的本地模型 id: "@ + id@),
        LocalModelState::Known { id, downloaded } => if downloaded {
            None
        } else {
            Some("本地模型 "@ + id@ + " 未下载完整，请到 设置 → 模型设置 中下载"@)
        },
    }
}

/// Whether a result fails with these words, and succeeds where there are none.
pub open spec fn fails_saying(result: Result<(), String>, words: Option<Seq<char>>) -> bool {
    match result {
        Ok(_) => words is None,
        Err(message) => words == Some(message@),
    }
}

/// Checks that the local recogniser has its model.
pub fn ensure_local_qwen3_model_ready(model: &LocalModelState) -> (r: Result<(), String>)
    ensures
        fails_saying(r, local_model_failure(*model)),
{
    match model {
        LocalModelState::PreferencesUnreadable(reason) => Err(reason.clone()),
        LocalModelState::Unknown(id) => Err("未知的本地模型 id: ".to_owned().concat(id.as_str())),
        LocalModelState::Known { id, downloaded } => {
            if *downloaded {
                Ok(())
            } else {
                Err(
                    "本地模型 ".to_owned().concat(id.as_str()).concat(
                        " 未下载完整，请到 设置 → 模型设置 中下载",
                    ),
                )
            }
        },
    }
}

/// Whether Volcengine lacks its key or its token.
pub open spec fn volcengine_incomplete(store: CredentialSnapshot) -> bool {
    blank(stored_or_empty(store.volcengine_app_key)) || blank(
        stored_or_empty(store.volcengine_access_key),
    )
}

/// Why a recogniser cannot be used.
pub open spec fn asr_failure(
    store: CredentialSnapshot,
    active_asr: Seq<char>,
    platform: Platform,
    model: LocalModelState,
) -> Option<Seq<char>> {
    if active_asr == "local-qwen3"@ {
        if platform == Platform::MacOs {
            local_model_failure(model)
        } else {
            Some("本地 ASR 当前仅支持 macOS（Windows 见 issue #256）"@)
        }
    } else if active_asr == "foundry-local-whisper"@ {
        if platform == Platform::Windows {
            None
        } else {
            Some("Foundry Local Whisper 当前仅支持 Windows"@)
        }
    } else if whisper_compatible(active_asr) || active_asr == "bailian"@ {
        if blank(stored_or_empty(store.asr_api_key)) {
            Some("请先在设置中填写 ASR 服务商 API Key"@)
        } else {
            None
        }
    } else if volcengine_incomplete(store) {
        Some("请先在设置中填写火山引擎 ASR App Key 和 Access Key"@)
    } else {
        None
    }
}

/// Checks that a recogniser has what it needs: its desktop, its model or its key.
pub fn ensure_asr_credentials(
    store: &CredentialSnapshot,
    active_asr: &str,
    platform: Platform,
    model: &LocalModelState,
) -> (r: Result<(), String>)
    ensures
        fails_saying(r, asr_failure(*store, active_asr@, platform, *model)),
{
    if is_local_qwen3(active_asr) {
        return match platform {
            Platform::MacOs => ensure_local_qwen3_model_ready(model),
            _ => Err("本地 ASR 当前仅支持 macOS（Windows 见 issue #256）".to_owned()),
        };
    }
    if is_foundry_local_whisper(active_asr) {
        return match platform {
            Platform::Windows => Ok(()),
            _ => Err("Foundry Local Whisper 当前仅支持 Windows".to_owned()),
        };
    }
    if is_whisper_compatible_provider(active_asr) || is_bailian_provider(active_asr) {
        let missing: bool = match &store.asr_api_key {
            Ok(Some(key)) => is_blank(key.as_str()),
            _ => true,
        };
        if missing {
            return Err("请先在设置中填写 ASR 服务商 API Key".to_owned());
        }
        return Ok(());
    }
    ensure_qa_volcengine_credentials(store)
}

/// Checks that Volcengine has its key and its token; spoken questions always go there.
pub fn ensure_qa_volcengine_credentials(store: &CredentialSnapshot) -> (r: Result<(), String>)
    ensures
        fails_saying(
            r,
            if volcengine_incomplete(*store) {
                Some("请先在设置中填写火山引擎 ASR App Key 和 Access Key"@)
            } else {
                None
            },
        ),
{
    let credentials: VolcengineCredentials = read_volc_credentials(store, "");
    if is_blank(credentials.app_id.as_str()) || is_blank(credentials.access_token.as_str()) {
        Err("请先在设置中填写火山引擎 ASR App Key 和 Access Key".to_owned())
    } else {
        Ok(())
    }
}

/// Only the local recognisers work without a stored key: whenever another provider passes the
/// check, the store holds more than white space for it.
pub proof fn a_remote_recogniser_needs_a_key(
    store: CredentialSnapshot,
    active_asr: Seq<char>,
    platform: Platform,
    model: LocalModelState,
)
    requires
        asr_failure(store, active_asr, platform, model) is None,
        active_asr != "local-qwen3"@,
        active_asr != "foundry-local-whisper"@,
    ensures
        if whisper_compatible(active_asr) || active_asr == "bailian"@ {
            !blank(stored_or_empty(store.asr_api_key))
        } else {
            !blank(stored_or_empty(store.volcengine_app_key)) && !blank(
                stored_or_empty(store.volcengine_access_key),
            )
        },
{
}

/// A permission as the desktop reports it.
#[derive(Debug)]
pub enum PermissionStatus {
    Granted,
    NotApplicable,
    /// Any other state, under its name.
    Withheld(String),
}

impl PermissionStatus {
    /// Whether recording may go on.
    pub open spec fn suffices(self) -> bool {
        self is Granted || self is NotApplicable
    }

    fn is_sufficient(&self) -> (r: bool)
        ensures
            r == self.suffices(),
    {
        match self {
            PermissionStatus::Withheld(_) => false,
            _ => true,
        }
    }
}

/// Where the permission to record stands.
#[derive(Debug)]
pub enum MicrophoneGate {
    Ready,
    /// The user has to be asked.
    AskUser,
    Refused(String),
}

/// Decides whether recording may begin.  Windows refuses only what was explicitly denied;
/// elsewhere the user is asked once, and the answer counts.
pub fn ensure_microphone_permission(
    platform: Platform,
    explicitly_denied: bool,
    checked: &PermissionStatus,
    requested: Option<PermissionStatus>,
) -> (r: MicrophoneGate)
    ensures
        platform == Platform::Windows ==> (r is Ready <==> !explicitly_denied),
        platform == Platform::Windows && explicitly_denied ==> (r matches MicrophoneGate::Refused(
            words,
        ) && words@ == "需要麦克风权限，当前状态: Denied"@),
        platform != Platform::Windows ==> (r is Ready <==> checked.suffices() || (requested is Some
            && requested->0.suffices())),
        platform != Platform::Windows ==> (r is AskUser <==> !checked.suffices() && requested
            is None),
        platform != Platform::Windows && r is Refused ==> (requested matches Some(
            PermissionStatus::Withheld(name),
        ) && r->Refused_0@ == "需要麦克风权限，当前状态: "@ + name@),
{
    if let Platform::Windows = platform {
        if explicitly_denied {
            return MicrophoneGate::Refused("需要麦克风权限，当前状态: Denied".to_owned());
        }
        return MicrophoneGate::Ready;
    }
    if checked.is_sufficient() {
        return MicrophoneGate::Ready;
    }
    match requested {
        None => MicrophoneGate::AskUser,
        Some(PermissionStatus::Withheld(name)) => MicrophoneGate::Refused(
            "需要麦克风权限，当前状态: ".to_owned().concat(name.as_str()),
        ),
        Some(_) => MicrophoneGate::Ready,
    }
}

/// The language that the local recogniser is told to expect, and where that came from.
#[derive(Debug)]
pub struct FoundryLanguageHintSelection {
    pub hint: Option<String>,
    pub source: &'static str,
}

/// The hint for the language that texts are written in.
pub open spec fn output_language_hint(preference: OutputLanguagePreference) -> Option<Seq<char>> {
    match preference {
        OutputLanguagePreference::ZhCn | OutputLanguagePreference::ZhTw => Some("zh"@),
        OutputLanguagePreference::En => Some("en"@),
        OutputLanguagePreference::Ja => Some("ja"@),
        OutputLanguagePreference::Ko => Some("ko"@),
        OutputLanguagePreference::Auto => None,
    }
}

/// The hint for the language that texts are written in.
pub fn foundry_language_hint_for_output_language(preference: OutputLanguagePreference) -> (r: Option<
    &'static str,
>)
    ensures
        text_of(r) == output_language_hint(preference),
{
    match preference {
        OutputLanguagePreference::ZhCn | OutputLanguagePreference::ZhTw => Some("zh"),
        OutputLanguagePreference::En => Some("en"),
        OutputLanguagePreference::Ja => Some("ja"),
        OutputLanguagePreference::Ko => Some("ko"),
        OutputLanguagePreference::Auto => None,
    }
}

/// Whether a description names a language by its code or its English name.
pub open spec fn names_language(
    description: Seq<char>,
    code: Seq<char>,
    tag: Seq<char>,
    english: Seq<char>,
) -> bool {
    let plain = ascii_lowered(trimmed(description));
    plain == code || tag.is_prefix_of(plain) || occurs_in(english, plain)
}

/// Whether a description speaks of Chinese.
pub open spec fn means_chinese(description: Seq<char>) -> bool {
    occurs_in("中文"@, description) || occurs_in("汉语"@, description) || occurs_in(
        "漢語"@,
        description,
    ) || occurs_in("简体"@, description) || occurs_in("簡體"@, description) || occurs_in(
        "繁体"@,
        description,
    ) || occurs_in("繁體"@, description) || names_language(description, "zh"@, "zh-"@, "chinese"@)
}

/// Whether a description speaks of Japanese.
pub open spec fn means_japanese(description: Seq<char>) -> bool {
    occurs_in("日本"@, description) || occurs_in("日语"@, description) || occurs_in(
        "日語"@,
        description,
    ) || names_language(description, "ja"@, "ja-"@, "japanese"@)
}

/// Whether a description speaks of Korean.
pub open spec fn means_korean(description: Seq<char>) -> bool {
    occurs_in("한국"@, description) || occurs_in("韩语"@, description) || occurs_in(
        "韓語"@,
        description,
    ) || names_language(description, "ko"@, "ko-"@, "korean"@)
}

/// The hint for a language that the user works in, as the user wrote it down.
pub open spec fn working_language_hint(description: Seq<char>) -> Option<Seq<char>> {
    if blank(description) {
        None
    } else if means_chinese(description) {
        Some("zh"@)
    } else if names_language(description, "en"@, "en-"@, "english"@) {
        Some("en"@)
    } else if means_japanese(description) {
        Some("ja"@)
    } else if means_korean(description) {
        Some("ko"@)
    } else {
        None
    }
}

fn language_is_named(plain: &str, code: &str, tag: &str, english: &str) -> (r: bool)
    ensures
        r == (plain@ == code@ || tag@.is_prefix_of(plain@) || occurs_in(english@, plain@)),
{
    same_text(plain, code) || starts_with(plain, tag) || contains_text(plain, english)
}

/// The hint for a language that the user works in.
pub fn foundry_language_hint_for_working_language(language: &str) -> (r: Option<&'static str>)
    ensures
        text_of(r) == working_language_hint(language@),
{
    if is_blank(language) {
        return None;
    }
    let normalized: String = to_ascii_lowercase(trim(language));
    let plain = normalized.as_str();
    if contains_text(language, "中文") || contains_text(language, "汉语") || contains_text(
        language,
        "漢語",
    ) || contains_text(language, "简体") || contains_text(language, "簡體") || contains_text(
        language,
        "繁体",
    ) || contains_text(language, "繁體") || language_is_named(plain, "zh", "zh-", "chinese") {
        return Some("zh");
    }
    if language_is_named(plain, "en", "en-", "english") {
        return Some("en");
    }
    if contains_text(language, "日本") || contains_text(language, "日语") || contains_text(
        language,
        "日語",
    ) || language_is_named(plain, "ja", "ja-", "japanese") {
        return Some("ja");
    }
    if contains_text(language, "한국") || contains_text(language, "韩语") || contains_text(
        language,
        "韓語",
    ) || language_is_named(plain, "ko", "ko-", "korean") {
        return Some("ko");
    }
    None
}

/// The hint for the first language of a list that has one.
pub open spec fn first_working_hint(languages: Seq<String>) -> Option<Seq<char>>
    decreases languages.len(),
{
    if languages.len() == 0 {
        None
    } else {
        match working_language_hint(languages[0]@) {
            Some(hint) => Some(hint),
            None => first_working_hint(languages.drop_first()),
        }
    }
}

/// The hint that the preferences lead to, and where it comes from: an explicit one, the output
/// language, the Chinese script, the languages the user works in, or none.
pub open spec fn preferred_hint(prefs: UserPreferences) -> (Option<Seq<char>>, Seq<char>) {
    if !blank(prefs.foundry_local_asr_language_hint@) {
        (Some(trimmed(prefs.foundry_local_asr_language_hint@)), "explicit"@)
    } else if output_language_hint(prefs.output_language_preference) is Some {
        (
            output_language_hint(prefs.output_language_preference),
            "output_language_preference"@,
        )
    } else if prefs.chinese_script_preference != ChineseScriptPreference::Auto {
        (Some("zh"@), "chinese_script_preference"@)
    } else if first_working_hint(prefs.working_languages@) is Some {
        (first_working_hint(prefs.working_languages@), "working_languages"@)
    } else {
        (None, "auto"@)
    }
}

/// Chooses the language that the local recogniser is told to expect.
pub fn foundry_language_hint_from_preferences(prefs: &UserPreferences) -> (r:
    FoundryLanguageHintSelection)
    ensures
        (string_of(r.hint), r.source@) == preferred_hint(*prefs),
{
    let explicit = trim(prefs.foundry_local_asr_language_hint.as_str());
    if !explicit.is_empty() {
        return FoundryLanguageHintSelection {
            hint: Some(explicit.to_owned()),
            source: "explicit",
        };
    }
    if let Some(hint) = foundry_language_hint_for_output_language(prefs.output_language_preference) {
        return FoundryLanguageHintSelection {
            hint: Some(hint.to_owned()),
            source: "output_language_preference",
        };
    }
    if prefs.chinese_script_preference != ChineseScriptPreference::Auto {
        return FoundryLanguageHintSelection {
            hint: Some("zh".to_owned()),
            source: "chinese_script_preference",
        };
    }
    let languages = &prefs.working_languages;
    let mut i: usize = 0;
    proof {
        assert(languages@.skip(0) == languages@);
    }
    while i < languages.len()
        invariant
            i <= languages@.len(),
            first_working_hint(languages@) == first_working_hint(languages@.skip(i as int)),
            languages@ == prefs.working_languages@,
            blank(prefs.foundry_local_asr_language_hint@),
            output_language_hint(prefs.output_language_preference) is None,
            prefs.chinese_script_preference == ChineseScriptPreference::Auto,
        decreases languages@.len() - i,
    {
        proof {
            assert(languages@.skip(i as int)[0] == languages@[i as int]);
            assert(languages@.skip(i as int).drop_first() == languages@.skip(i + 1));
        }
        if let Some(hint) = foundry_language_hint_for_working_language(languages[i].as_str()) {
            return FoundryLanguageHintSelection {
                hint: Some(hint.to_owned()),
                source: "working_languages",
            };
        }
        i = i + 1;
    }
    FoundryLanguageHintSelection { hint: None, source: "auto" }
}

/// The recogniser behind a provider.
pub open spec fn backend_of(active_asr: Seq<char>) -> Seq<char> {
    if active_asr == "local-qwen3"@ {
        "local-qwen3"@
    } else if active_asr == "foundry-local-whisper"@ {
        "foundry-local-whisper"@
    } else if active_asr == "bailian"@ {
        "bailian"@
    } else if whisper_compatible(active_asr) {
        "whisper-compatible"@
    } else {
        "volcengine"@
    }
}

/// The recogniser behind a provider.
pub fn dictation_asr_engine_backend_id(active_asr: &str) -> (r: &'static str)
    ensures
        r@ == backend_of(active_asr@),
{
    if is_local_qwen3(active_asr) {
        "local-qwen3"
    } else if is_foundry_local_whisper(active_asr) {
        "foundry-local-whisper"
    } else if is_bailian_provider(active_asr) {
        "bailian"
    } else if is_whisper_compatible_provider(active_asr) {
        "whisper-compatible"
    } else {
        "volcengine"
    }
}

/// The name of a recogniser as the user reads it.
pub open spec fn engine_label(active_asr: Seq<char>) -> Seq<char> {
    if active_asr == "local-qwen3"@ {
        "Local Qwen3-ASR"@
    } else if active_asr == "foundry-local-whisper"@ {
        "Foundry Local Whisper"@
    } else if active_asr == "bailian"@ {
        "Bailian"@
    } else if whisper_compatible(active_asr) {
        "Whisper-compatible ("@ + trimmed(active_asr) + ")"@
    } else {
        "Volcengine"@
    }
}

/// Whether a provider is served by the accurate core recogniser.
pub open spec fn core_accurate(active_asr: Seq<char>) -> bool {
    !(active_asr == "local-qwen3"@ || active_asr == "foundry-local-whisper"@ || active_asr
        == "bailian"@ || whisper_compatible(active_asr))
}

proof fn lemma_backends_differ()
    ensures
        "volcengine"@ != "local-qwen3"@,
        "volcengine"@ != "foundry-local-whisper"@,
        "volcengine"@ != "bailian"@,
        "volcengine"@ != "whisper-compatible"@,
        "local-qwen3"@ != "foundry-local-whisper"@,
        "local-qwen3"@ != "bailian"@,
        "local-qwen3"@ != "whisper-compatible"@,
        "foundry-local-whisper"@ != "bailian"@,
        "foundry-local-whisper"@ != "whisper-compatible"@,
        "bailian"@ != "whisper-compatible"@,
{
    reveal_strlit("volcengine");
    reveal_strlit("local-qwen3");
    reveal_strlit("foundry-local-whisper");
    reveal_strlit("bailian");
    reveal_strlit("whisper-compatible");
    assert("volcengine"@.len() == 10);
    assert("local-qwen3"@.len() == 11);
    assert("foundry-local-whisper"@.len() == 21);
    assert("bailian"@.len() == 7);
    assert("whisper-compatible"@.len() == 18);
}

/// The name of a recogniser as the user reads it.
pub fn dictation_asr_engine_label(active_asr: &str) -> (r: String)
    ensures
        r@ == engine_label(active_asr@),
{
    proof {
        lemma_backends_differ();
    }
    let backend = dictation_asr_engine_backend_id(active_asr);
    if same_text(backend, "volcengine") {
        "Volcengine".to_owned()
    } else if same_text(backend, "local-qwen3") {
        "Local Qwen3-ASR".to_owned()
    } else if same_text(backend, "foundry-local-whisper") {
        "Foundry Local Whisper".to_owned()
    } else if same_text(backend, "bailian") {
        "Bailian".to_owned()
    } else {
        "Whisper-compatible (".to_owned().concat(trim(active_asr)).concat(")")
    }
}

/// Whether a provider is served by the accurate core recogniser.
pub fn dictation_asr_uses_core_accurate_engine(active_asr: &str) -> (r: bool)
    ensures
        r == core_accurate(active_asr@),
{
    proof {
        lemma_backends_differ();
    }
    same_text(dictation_asr_engine_backend_id(active_asr), "volcengine")
}

/// The warning that the user reads with any other recogniser than the accurate core one.
pub open spec fn quality_warning(active_asr: Seq<char>) -> Option<Seq<char>> {
    if core_accurate(active_asr) {
        None
    } else {
        Some(
            "当前识别引擎为"@ + engine_label(active_asr)
                + "，不是核心 Volcengine 准确引擎，识别可能不准。"@,
        )
    }
}

/// The warning that the user reads with any other recogniser than the accurate core one.
pub fn dictation_asr_quality_warning(active_asr: &str) -> (r: Option<String>)
    ensures
        string_of(r) == quality_warning(active_asr@),
{
    if dictation_asr_uses_core_accurate_engine(active_asr) {
        return None;
    }
    Some(
        "当前识别引擎为".to_owned().concat(dictation_asr_engine_label(active_asr).as_str()).concat(
            "，不是核心 Volcengine 准确引擎，识别可能不准。",
        ),
    )
}

/// What is logged of the choice of a recogniser.
#[derive(Debug)]
pub struct EngineSelectionLog {
    pub info: String,
    pub warning: Option<String>,
}

/// What the log says of the choice of a recogniser.
pub open spec fn selection_info(session_id: SessionId, active_asr: Seq<char>) -> Seq<char> {
    "[coord] dictation ASR engine selected: session_id="@ + hyphenated(session_id.bits)
        + " provider="@ + trimmed(active_asr) + " backend="@ + backend_of(active_asr) + " label=\""@
        + engine_label(active_asr) + "\" core_accurate="@ + (if core_accurate(active_asr) {
        "true"@
    } else {
        "false"@
    })
}

/// What the log warns of with any other recogniser than the accurate core one.
pub open spec fn selection_warning(session_id: SessionId, active_asr: Seq<char>) -> Option<
    Seq<char>,
> {
    if core_accurate(active_asr) {
        None
    } else {
        Some(
            "[coord] dictation ASR non-core accuracy warning: session_id="@ + hyphenated(
                session_id.bits,
            ) + " provider="@ + trimmed(active_asr) + " backend="@ + backend_of(active_asr),
        )
    }
}

/// Puts the choice of a recogniser into words for the log; any other than the accurate core one
/// is warned about.
pub fn log_dictation_asr_engine_selection(session_id: SessionId, active_asr: &str) -> (r:
    EngineSelectionLog)
    ensures
        r.info@ == selection_info(session_id, active_asr@),
        string_of(r.warning) == selection_warning(session_id, active_asr@),
{
    let backend = dictation_asr_engine_backend_id(active_asr);
    let label: String = dictation_asr_engine_label(active_asr);
    let accurate: bool = dictation_asr_uses_core_accurate_engine(active_asr);
    let session: String = session_id.to_text();
    let provider = trim(active_asr);
    let accurate_text = if accurate {
        "true"
    } else {
        "false"
    };
    let info: String = "[coord] dictation ASR engine selected: session_id=".to_owned().concat(
        session.as_str(),
    ).concat(" provider=").concat(provider).concat(" backend=").concat(backend).concat(
        " label=\"",
    ).concat(label.as_str()).concat("\" core_accurate=").concat(accurate_text);
    let warning: Option<String> = if accurate {
        None
    } else {
        Some(
            "[coord] dictation ASR non-core accuracy warning: session_id=".to_owned().concat(
                session.as_str(),
            ).concat(" provider=").concat(provider).concat(" backend=").concat(backend),
        )
    };
    EngineSelectionLog { info, warning }
}

/// What the program knows of the recognisers beforehand.
#[derive(Clone, Copy, Debug)]
pub struct AsrDefaults {
    pub bailian_endpoint: &'static str,
    pub bailian_model: &'static str,
    pub volcengine_resource_id: &'static str,
    pub foundry_model_alias: &'static str,
}

/// How a recogniser is set up for a session.
#[derive(Debug)]
pub enum EmbeddedAsrPlan {
    FoundryLocalWhisper {
        model_alias: String,
        runtime_source: String,
        language: FoundryLanguageHintSelection,
    },
    Whisper(WhisperCredentials),
    Bailian(BailianCredentials),
    /// Without proxy settings the recogniser's own default applies.
    Volcengine { credentials: VolcengineCredentials, proxy: Option<StoredProxyConfig> },
}

/// The model of the local recogniser: the preferred one where it exists, or the default.
pub open spec fn foundry_alias(prefs: UserPreferences, known: bool, default: Seq<char>) -> Seq<char> {
    if known {
        prefs.foundry_local_asr_model@
    } else {
        default
    }
}

impl EmbeddedAsrPlan {
    /// Whether this is how the recogniser is set up.
    pub open spec fn holds(
        self,
        store: CredentialSnapshot,
        prefs: UserPreferences,
        platform: Platform,
        active_asr: Seq<char>,
        foundry_model_known: bool,
        defaults: AsrDefaults,
    ) -> bool {
        let foundry = platform == Platform::Windows && active_asr == "foundry-local-whisper"@;
        match self {
            EmbeddedAsrPlan::FoundryLocalWhisper { model_alias, runtime_source, language } => {
                &&& foundry
                &&& model_alias@ == foundry_alias(
                    prefs,
                    foundry_model_known,
                    defaults.foundry_model_alias@,
                )
                &&& runtime_source@ == prefs.foundry_local_runtime_source@
                &&& (string_of(language.hint), language.source@) == preferred_hint(prefs)
            },
            EmbeddedAsrPlan::Whisper(credentials) => {
                &&& !foundry
                &&& whisper_compatible(active_asr)
                &&& credentials.holds(store, active_asr)
            },
            EmbeddedAsrPlan::Bailian(credentials) => {
                &&& !foundry
                &&& !whisper_compatible(active_asr)
                &&& active_asr == "bailian"@
                &&& credentials.holds(
                    store,
                    defaults.bailian_endpoint@,
                    defaults.bailian_model@,
                )
            },
            EmbeddedAsrPlan::Volcengine { credentials, proxy } => {
                &&& !foundry
                &&& !whisper_compatible(active_asr)
                &&& active_asr != "bailian"@
                &&& credentials.holds(store, defaults.volcengine_resource_id@)
                &&& (proxy is None <==> proxy_failure(store.asr_proxy_mode, store.asr_proxy_url)
                    is Some)
                &&& proxy is Some ==> proxy->0.holds(
                    "volcengine"@,
                    store.asr_proxy_mode,
                    store.asr_proxy_url,
                )
            },
        }
    }
}

fn foundry_model_alias(prefs: &UserPreferences, known: bool, default: &str) -> (r: String)
    ensures
        r@ == foundry_alias(*prefs, known, default@),
{
    if known {
        prefs.foundry_local_asr_model.clone()
    } else {
        default.to_owned()
    }
}

/// Decides how the recogniser of a session is set up.  Only the OpenAI protocol insists on
/// readable proxy settings; Volcengine falls back to its own default.
pub fn build_embedded_audio_asr_consumer(
    store: &CredentialSnapshot,
    prefs: &UserPreferences,
    platform: Platform,
    active_asr: &str,
    foundry_model_known: bool,
    defaults: AsrDefaults,
) -> (r: Result<EmbeddedAsrPlan, ProviderConfigError>)
    ensures
        fails_with(
            r,
            if whisper_compatible(active_asr@) {
                proxy_failure(store.asr_proxy_mode, store.asr_proxy_url)
            } else {
                None
            },
        ),
        r matches Ok(plan) ==> plan.holds(
            *store,
            *prefs,
            platform,
            active_asr@,
            foundry_model_known,
            defaults,
        ),
{
    proof {
        reveal_strlit("foundry-local-whisper");
        reveal_strlit("whisper");
        reveal_strlit("siliconflow");
        reveal_strlit("zhipu");
        reveal_strlit("groq");
        assert("foundry-local-whisper"@.len() == 21);
        assert("whisper"@.len() == 7);
        assert("siliconflow"@.len() == 11);
        assert("zhipu"@.len() == 5);
        assert("groq"@.len() == 4);
    }
    if let Platform::Windows = platform {
        if is_foundry_local_whisper(active_asr) {
            return Ok(
                EmbeddedAsrPlan::FoundryLocalWhisper {
                    model_alias: foundry_model_alias(
                        prefs,
                        foundry_model_known,
                        defaults.foundry_model_alias,
                    ),
                    runtime_source: prefs.foundry_local_runtime_source.clone(),
                    language: foundry_language_hint_from_preferences(prefs),
                },
            );
        }
    }
    if is_whisper_compatible_provider(active_asr) {
        return match read_whisper_credentials(store, active_asr) {
            Ok(credentials) => Ok(EmbeddedAsrPlan::Whisper(credentials)),
            Err(error) => Err(error),
        };
    }
    if is_bailian_provider(active_asr) {
        return Ok(
            EmbeddedAsrPlan::Bailian(
                read_bailian_credentials(store, defaults.bailian_endpoint, defaults.bailian_model),
            ),
        );
    }
    let proxy: Option<StoredProxyConfig> = match read_asr_proxy_config(store, "volcengine") {
        Ok(config) => Some(config),
        Err(_) => None,
    };
    Ok(
        EmbeddedAsrPlan::Volcengine {
            credentials: read_volc_credentials(store, defaults.volcengine_resource_id),
            proxy,
        },
    )
}

/// What the last part of setting a recogniser up is reported with.  The OpenAI protocol needs its
/// client, and Bailian its connection; the others are ready once they are planned.
pub fn settle_asr_setup(plan: &EmbeddedAsrPlan, outcome: Result<(), String>) -> (r: Result<
    (),
    String,
>)
    ensures
        match (*plan, outcome) {
            (EmbeddedAsrPlan::Whisper(_), Err(reason)) => r is Err && r->Err_0@
                == "build Whisper HTTP client failed: "@ + reason@,
            (EmbeddedAsrPlan::Bailian(_), Err(reason)) => r is Err && r->Err_0@
                == "打开 Bailian ASR 连接失败: "@ + reason@,
            _ => r == Ok::<(), String>(()),
        },
{
    match (plan, outcome) {
        (EmbeddedAsrPlan::Whisper(_), Err(reason)) => Err(
            "build Whisper HTTP client failed: ".to_owned().concat(reason.as_str()),
        ),
        (EmbeddedAsrPlan::Bailian(_), Err(reason)) => Err(
            "打开 Bailian ASR 连接失败: ".to_owned().concat(reason.as_str()),
        ),
        _ => Ok(()),
    }
}

/// What happens to a connection to the recogniser that was opened in the background.
#[derive(Clone, Copy, Debug, PartialEq, Eq, Structural)]
pub enum VolcengineOpenStep {
    /// The audio that waited is handed over, and recognition goes on.
    Attach,
    /// The audio that waited is kept for one attempt at the end.
    RetainForReplay,
    /// The session is over; the connection is dropped.
    Discard,
}

/// Decides what happens to a connection to the recogniser once opening it has ended.
pub fn settle_volcengine_open(opened: bool, state: &SessionState, session_id: SessionId) -> (r:
    VolcengineOpenStep)
    ensures
        ({
            let current = state.session_id == session_id && !state.cancelled && state.phase
                != SessionPhase::Idle;
            r == (if !current {
                VolcengineOpenStep::Discard
            } else if opened {
                VolcengineOpenStep::Attach
            } else {
                VolcengineOpenStep::RetainForReplay
            })
        }),
{
    let current: bool = state.session_id == session_id && !state.cancelled && state.phase
        != SessionPhase::Idle;
    if !current {
        VolcengineOpenStep::Discard
    } else if opened {
        VolcengineOpenStep::Attach
    } else {
        VolcengineOpenStep::RetainForReplay
    }
}

/// When a local recogniser gives its memory back.
#[derive(Clone, Copy, Debug, PartialEq, Eq, Structural)]
pub enum ReleasePlan {
    Now,
    /// After this many seconds, unless it was used meanwhile.
    WhenIdleFor(u64),
}

/// Decides when the local recogniser gives its memory back.
pub fn schedule_local_asr_release(prefs: &UserPreferences) -> (r: ReleasePlan)
    ensures
        r == (if prefs.local_asr_keep_loaded_secs == 0 {
            ReleasePlan::Now
        } else {
            ReleasePlan::WhenIdleFor(prefs.local_asr_keep_loaded_secs as u64)
        }),
{
    if prefs.local_asr_keep_loaded_secs == 0 {
        return ReleasePlan::Now;
    }
    ReleasePlan::WhenIdleFor(prefs.local_asr_keep_loaded_secs as u64)
}

/// Whether the Foundry recogniser is released once `waited_secs` have passed since the session
/// ended: the time is up, and no other session has begun.
pub fn schedule_foundry_local_asr_release(
    prefs: &UserPreferences,
    waited_secs: u64,
    state: &SessionState,
    session_id: SessionId,
) -> (r: bool)
    ensures
        r == (waited_secs >= prefs.foundry_local_asr_keep_loaded_secs && state.session_id
            == session_id),
{
    waited_secs >= prefs.foundry_local_asr_keep_loaded_secs as u64 && state.session_id == session_id
}

/// The model of the local recogniser that is loaded ahead of its use.
pub fn preload_local_asr_in_background(platform: Platform, model: &LocalModelState) -> (r: Option<
    String,
>)
    ensures
        string_of(r) == (match *model {
            LocalModelState::Known { id, downloaded: true } if platform == Platform::MacOs => Some(
                id@,
            ),
            _ => None,
        }),
{
    match platform {
        Platform::MacOs => match model {
            LocalModelState::Known { id, downloaded } => {
                if *downloaded {
                    Some(id.clone())
                } else {
                    None
                }
            },
            _ => None,
        },
        _ => None,
    }
}

/// What is loaded ahead of its use for the Foundry recogniser.
#[derive(Debug)]
pub struct FoundryPreload {
    /// The helper that confirms a wake phrase.
    pub helper: bool,
    /// The model and where it comes from.
    pub model: Option<(String, String)>,
}

/// Decides what is loaded ahead for the Foundry recogniser: on Windows always the helper, and
/// the model where this recogniser is the preferred one.
pub fn preload_foundry_local_asr_in_background(
    platform: Platform,
    prefs: &UserPreferences,
    foundry_model_known: bool,
    defaults: AsrDefaults,
) -> (r: FoundryPreload)
    ensures
        r.helper == (platform == Platform::Windows),
        r.model is Some <==> platform == Platform::Windows && prefs.active_asr_provider@
            == "foundry-local-whisper"@,
        r.model matches Some(m) ==> m.0@ == foundry_alias(
            *prefs,
            foundry_model_known,
            defaults.foundry_model_alias@,
        ) && m.1@ == prefs.foundry_local_runtime_source@,
{
    match platform {
        Platform::Windows => {
            if !is_foundry_local_whisper(prefs.active_asr_provider.as_str()) {
                return FoundryPreload { helper: true, model: None };
            }
            FoundryPreload {
                helper: true,
                model: Some(
                    (
                        foundry_model_alias(
                            prefs,
                            foundry_model_known,
                            defaults.foundry_model_alias,
                        ),
                        prefs.foundry_local_runtime_source.clone(),
                    ),
                ),
            }
        },
        _ => FoundryPreload { helper: false, model: None },
    }
}

/// The user's choice is used as it is written, without white space around it; only where there is
/// none the stored one is.
pub proof fn the_users_recogniser_comes_first(prefs: UserPreferences, store: CredentialSnapshot)
    ensures
        !blank(prefs.active_asr_provider@) ==> preferred_asr(prefs, store) == trimmed(
            prefs.active_asr_provider@,
        ),
        blank(prefs.active_asr_provider@) ==> preferred_asr(prefs, store) == store.active_asr@,
{
}

/// Exactly four recognisers speak the way Whisper does.
pub proof fn four_recognisers_speak_like_whisper(id: Seq<char>)
    ensures
        whisper_compatible("whisper"@),
        whisper_compatible("siliconflow"@),
        whisper_compatible("zhipu"@),
        whisper_compatible("groq"@),
        whisper_compatible(id) ==> id == "whisper"@ || id == "siliconflow"@ || id == "zhipu"@ || id
            == "groq"@,
{
}

proof fn lemma_recognisers_differ()
    ensures
        "local-qwen3"@ != "foundry-local-whisper"@,
        !whisper_compatible("local-qwen3"@),
        !whisper_compatible("foundry-local-whisper"@),
        !whisper_compatible("bailian"@),
        "bailian"@ != "local-qwen3"@,
        "bailian"@ != "foundry-local-whisper"@,
{
    reveal_strlit("local-qwen3");
    reveal_strlit("foundry-local-whisper");
    reveal_strlit("bailian");
    reveal_strlit("whisper");
    reveal_strlit("siliconflow");
    reveal_strlit("zhipu");
    reveal_strlit("groq");
    assert("local-qwen3"@.len() == 11);
    assert("foundry-local-whisper"@.len() == 21);
    assert("bailian"@.len() == 7);
    assert("local-qwen3"@[0] == 'l');
    assert("siliconflow"@[0] == 's');
    assert("bailian"@[0] == 'b');
    assert("whisper"@[0] == 'w');
}

/// A recogniser with what it needs may go on, and each is asked for its own needs alone: a local one
/// for its desktop and its model, one behind a key for that key, Volcengine for both of its keys.
pub proof fn each_recogniser_needs_its_own(
    store: CredentialSnapshot,
    active_asr: Seq<char>,
    platform: Platform,
    model: LocalModelState,
)
    ensures
        ({
            let failure = asr_failure(store, active_asr, platform, model);
            let keyed = active_asr == "whisper"@ || active_asr == "siliconflow"@ || active_asr
                == "zhipu"@ || active_asr == "groq"@ || active_asr == "bailian"@;
            let local = active_asr == "local-qwen3"@ || active_asr == "foundry-local-whisper"@;
            &&& active_asr == "local-qwen3"@ ==> (failure is None <==> platform == Platform::MacOs
                && (model matches LocalModelState::Known { downloaded: true, .. }))
            &&& active_asr == "foundry-local-whisper"@ ==> (failure is None <==> platform
                == Platform::Windows)
            &&& keyed ==> (failure is None <==> !blank(stored_or_empty(store.asr_api_key)))
            &&& !keyed && !local ==> (failure is None <==> !blank(
                stored_or_empty(store.volcengine_app_key),
            ) && !blank(stored_or_empty(store.volcengine_access_key)))
        }),
{
    lemma_recognisers_differ();
}

/// A local model is ready exactly where it is known and downloaded; what is said otherwise names the
/// model or the reason.
pub proof fn a_local_model_must_be_downloaded(model: LocalModelState)
    ensures
        ({
            let failure = local_model_failure(model);
            &&& failure is None <==> (model matches LocalModelState::Known {
                downloaded: true,
                ..
            })
            &&& model matches LocalModelState::PreferencesUnreadable(reason) ==> failure == Some(
                reason@,
            )
            &&& model matches LocalModelState::Unknown(id) ==> failure->0.len() >= id@.len()
                && failure->0.skip(failure->0.len() - id@.len()) == id@
        }),
{
    if let LocalModelState::Unknown(id) = model {
        let words = local_model_failure(model)->0;
        assert(words.skip(words.len() - id@.len()) =~= id@);
    }
}

/// A permission that was granted or is not asked for suffices, and no other does.
pub proof fn a_withheld_permission_does_not_suffice(status: PermissionStatus)
    ensures
        status is Granted ==> status.suffices(),
        status is NotApplicable ==> status.suffices(),
        status is Withheld ==> !status.suffices(),
{
}

/// Every output language but "automatic" has its hint, both forms of Chinese the same one.
pub proof fn an_output_language_is_a_hint(preference: OutputLanguagePreference)
    ensures
        output_language_hint(preference) is None <==> preference == OutputLanguagePreference::Auto,
        output_language_hint(OutputLanguagePreference::ZhCn) == Some("zh"@),
        output_language_hint(OutputLanguagePreference::ZhTw) == Some("zh"@),
        output_language_hint(OutputLanguagePreference::En) == Some("en"@),
        output_language_hint(OutputLanguagePreference::Ja) == Some("ja"@),
        output_language_hint(OutputLanguagePreference::Ko) == Some("ko"@),
{
}

proof fn lemma_holds_a_word(before: Seq<char>, word: Seq<char>, after: Seq<char>)
    requires
        word.len() > 0,
        !crate::text::is_white_space(word[0]),
    ensures
        occurs_in(word, before + word + after),
        !blank(before + word + after),
{
    crate::text::a_contained_text_occurs(before, word, after);
    let whole = before + word + after;
    assert(whole[before.len() as int] == word[0]);
    crate::text::a_blank_text_is_all_white_space(whole);
}

/// A language whose own name stands anywhere in its description is recognised by it, Chinese before
/// all others.
pub proof fn a_language_is_known_by_its_own_name(before: Seq<char>, after: Seq<char>)
    ensures
        working_language_hint(before + "中文"@ + after) == Some("zh"@),
        working_language_hint(before + "汉语"@ + after) == Some("zh"@),
        working_language_hint(before + "漢語"@ + after) == Some("zh"@),
        working_language_hint(before + "简体"@ + after) == Some("zh"@),
        working_language_hint(before + "簡體"@ + after) == Some("zh"@),
        working_language_hint(before + "繁体"@ + after) == Some("zh"@),
        working_language_hint(before + "繁體"@ + after) == Some("zh"@),
        means_japanese(before + "日本"@ + after),
        means_japanese(before + "日语"@ + after),
        means_japanese(before + "日語"@ + after),
        means_korean(before + "한국"@ + after),
        means_korean(before + "韩语"@ + after),
        means_korean(before + "韓語"@ + after),
{
    reveal_strlit("中文");
    reveal_strlit("汉语");
    reveal_strlit("漢語");
    reveal_strlit("简体");
    reveal_strlit("簡體");
    reveal_strlit("繁体");
    reveal_strlit("繁體");
    lemma_holds_a_word(before, "中文"@, after);
    lemma_holds_a_word(before, "汉语"@, after);
    lemma_holds_a_word(before, "漢語"@, after);
    lemma_holds_a_word(before, "简体"@, after);
    lemma_holds_a_word(before, "簡體"@, after);
    lemma_holds_a_word(before, "繁体"@, after);
    lemma_holds_a_word(before, "繁體"@, after);
    crate::text::a_contained_text_occurs(before, "日本"@, after);
    crate::text::a_contained_text_occurs(before, "日语"@, after);
    crate::text::a_contained_text_occurs(before, "日語"@, after);
    crate::text::a_contained_text_occurs(before, "한국"@, after);
    crate::text::a_contained_text_occurs(before, "韩语"@, after);
    crate::text::a_contained_text_occurs(before, "韓語"@, after);
}

/// A description means a language only by its code, a tag that begins with it, or a name that stands
/// in it; case and white space around it do not matter to the code, the tag and the English name.
pub proof fn a_language_is_known_by_code_tag_or_name(description: Seq<char>)
    ensures
        ({
            let plain = ascii_lowered(trimmed(description));
            let hint = working_language_hint(description);
            let chinese = occurs_in("中文"@, description) || occurs_in("汉语"@, description)
                || occurs_in("漢語"@, description) || occurs_in("简体"@, description) || occurs_in(
                "簡體"@,
                description,
            ) || occurs_in("繁体"@, description) || occurs_in("繁體"@, description) || plain
                == "zh"@ || "zh-"@.is_prefix_of(plain) || occurs_in("chinese"@, plain);
            let english = plain == "en"@ || "en-"@.is_prefix_of(plain) || occurs_in(
                "english"@,
                plain,
            );
            let japanese = occurs_in("日本"@, description) || occurs_in("日语"@, description)
                || occurs_in("日語"@, description) || plain == "ja"@ || "ja-"@.is_prefix_of(plain)
                || occurs_in("japanese"@, plain);
            let korean = occurs_in("한국"@, description) || occurs_in("韩语"@, description)
                || occurs_in("韓語"@, description) || plain == "ko"@ || "ko-"@.is_prefix_of(plain)
                || occurs_in("korean"@, plain);
            &&& blank(description) ==> hint is None
            &&& !blank(description) && chinese ==> hint == Some("zh"@)
            &&& !blank(description) && !chinese && english ==> hint == Some("en"@)
            &&& !blank(description) && !chinese && !english && japanese ==> hint == Some("ja"@)
            &&& !blank(description) && !chinese && !english && !japanese && korean ==> hint
                == Some("ko"@)
            &&& !chinese && !english && !japanese && !korean ==> hint is None
        }),
{
}

/// The first working language that means anything decides: those before it mean nothing, and those
/// behind it do not count.
pub proof fn the_first_known_language_decides(
    unknown: Seq<String>,
    known: String,
    others: Seq<String>,
)
    requires
        forall|i: int|
            0 <= i < unknown.len() ==> working_language_hint((#[trigger] unknown[i])@) is None,
    ensures
        first_working_hint(unknown) is None,
        working_language_hint(known@) is Some ==> first_working_hint(
            unknown + seq![known] + others,
        ) == working_language_hint(known@),
    decreases unknown.len(),
{
    let all = unknown + seq![known] + others;
    if unknown.len() == 0 {
        assert(all[0] == known);
    } else {
        let fewer = unknown.drop_first();
        assert forall|i: int| 0 <= i < fewer.len() implies working_language_hint(
            (#[trigger] fewer[i])@,
        ) is None by {
            assert(fewer[i] == unknown[i + 1]);
        }
        the_first_known_language_decides(fewer, known, others);
        assert(all[0] == unknown[0]);
        assert(all.drop_first() =~= fewer + seq![known] + others);
    }
}

/// The hint comes from what the user said most plainly: the hint itself, then the language of the
/// text, then a Chinese script, then the languages they work in.  The source that is named is the one
/// that was used.
pub proof fn the_plainest_wish_gives_the_hint(prefs: UserPreferences)
    ensures
        ({
            let (hint, source) = preferred_hint(prefs);
            let said = !blank(prefs.foundry_local_asr_language_hint@);
            let output = prefs.output_language_preference != OutputLanguagePreference::Auto;
            let script = prefs.chinese_script_preference != ChineseScriptPreference::Auto;
            let working = first_working_hint(prefs.working_languages@);
            &&& said ==> hint == Some(trimmed(prefs.foundry_local_asr_language_hint@)) && source
                == "explicit"@
            &&& !said && output ==> hint == output_language_hint(prefs.output_language_preference)
                && source == "output_language_preference"@
            &&& !said && !output && script ==> hint == Some("zh"@) && source
                == "chinese_script_preference"@
            &&& !said && !output && !script && working is Some ==> hint == working && source
                == "working_languages"@
            &&& !said && !output && !script && working is None ==> hint is None && source
                == "auto"@
        }),
{
}

/// Each recogniser runs on its own backend, and everything that is not named otherwise on
/// Volcengine, the only one that counts as accurate and is not warned about.
pub proof fn only_volcengine_is_not_warned_about(active_asr: Seq<char>)
    ensures
        ({
            let backend = backend_of(active_asr);
            let named = active_asr == "local-qwen3"@ || active_asr == "foundry-local-whisper"@
                || active_asr == "bailian"@;
            let compatible = active_asr == "whisper"@ || active_asr == "siliconflow"@ || active_asr
                == "zhipu"@ || active_asr == "groq"@;
            &&& named ==> backend == active_asr
            &&& compatible ==> backend == "whisper-compatible"@
            &&& !named && !compatible ==> backend == "volcengine"@
            &&& core_accurate(active_asr) <==> backend == "volcengine"@
            &&& quality_warning(active_asr) is None <==> backend == "volcengine"@
        }),
{
    lemma_backends_differ();
    lemma_recognisers_differ();
}

/// A warning names the recogniser it is about, and a Whisper-like one under the name the user knows.
pub proof fn a_warning_names_the_recogniser(active_asr: Seq<char>, session_id: SessionId)
    ensures
        quality_warning(active_asr) is Some ==> quality_warning(active_asr) == Some(
            "当前识别引擎为"@ + engine_label(active_asr)
                + "，不是核心 Volcengine 准确引擎，识别可能不准。"@,
        ),
        selection_warning(session_id, active_asr) is Some <==> quality_warning(active_asr) is Some,
        whisper_compatible(active_asr) ==> engine_label(active_asr) == "Whisper-compatible ("@
            + trimmed(active_asr) + ")"@,
        active_asr == "local-qwen3"@ ==> engine_label(active_asr) == "Local Qwen3-ASR"@,
        active_asr == "foundry-local-whisper"@ ==> engine_label(active_asr)
            == "Foundry Local Whisper"@,
        active_asr == "bailian"@ ==> engine_label(active_asr) == "Bailian"@,
        core_accurate(active_asr) ==> engine_label(active_asr) == "Volcengine"@,
{
    lemma_recognisers_differ();
}

/// A chosen model is used where it is known, and the default where it is not.
pub proof fn a_known_model_is_used(prefs: UserPreferences, default: Seq<char>)
    ensures
        foundry_alias(prefs, true, default) == prefs.foundry_local_asr_model@,
        foundry_alias(prefs, false, default) == default,
{
}

/// The plan is made for the recogniser that was chosen, with the credentials that are stored for it.
pub proof fn a_plan_is_for_the_chosen_recogniser(
    plan: EmbeddedAsrPlan,
    store: CredentialSnapshot,
    prefs: UserPreferences,
    platform: Platform,
    active_asr: Seq<char>,
    known: bool,
    defaults: AsrDefaults,
)
    requires
        plan.holds(store, prefs, platform, active_asr, known, defaults),
    ensures
        plan is FoundryLocalWhisper <==> platform == Platform::Windows && active_asr
            == "foundry-local-whisper"@,
        plan is Whisper <==> active_asr == "whisper"@ || active_asr == "siliconflow"@ || active_asr
            == "zhipu"@ || active_asr == "groq"@,
        plan is Bailian <==> active_asr == "bailian"@,
        plan matches EmbeddedAsrPlan::Whisper(credentials) ==> credentials.holds(store, active_asr),
        plan matches EmbeddedAsrPlan::Bailian(credentials) ==> credentials.holds(
            store,
            defaults.bailian_endpoint@,
            defaults.bailian_model@,
        ),
        plan matches EmbeddedAsrPlan::Volcengine { credentials, .. } ==> credentials.holds(
            store,
            defaults.volcengine_resource_id@,
        ),
        plan matches EmbeddedAsrPlan::FoundryLocalWhisper { model_alias, runtime_source, .. }
            ==> model_alias@ == (if known {
            prefs.foundry_local_asr_model@
        } else {
            defaults.foundry_model_alias@
        }) && runtime_source@ == prefs.foundry_local_runtime_source@,
{
    lemma_recognisers_differ();
}

/// A result that says what failed fails exactly where there is something to say.
pub proof fn a_failure_is_said(result: Result<(), String>, words: Option<Seq<char>>)
    requires
        fails_saying(result, words),
    ensures
        result is Ok <==> words is None,
        result is Err ==> result->Err_0@ == words->0,
{
}

} // verus!
