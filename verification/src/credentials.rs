//! What the credential store holds, and how providers are configured from it.

use vstd::prelude::*;
use vstd::string::*;
use crate::text::{blank, is_blank, same_text, trim_end_matches, trim_trailing};

verus! {

/// What reading one account of the credential store gave: a value, nothing, or a failure.
pub type StoredCredential = Result<Option<String>, String>;

/// What the credential store held when a rule consulted it.
#[derive(Debug)]
pub struct CredentialSnapshot {
    pub active_llm: String,
    pub active_asr: String,
    pub ark_api_key: StoredCredential,
    pub ark_model_id: StoredCredential,
    pub ark_endpoint: StoredCredential,
    pub asr_api_key: StoredCredential,
    pub asr_endpoint: StoredCredential,
    pub asr_model: StoredCredential,
    pub asr_vocabulary_id: StoredCredential,
    pub volcengine_app_key: StoredCredential,
    pub volcengine_access_key: StoredCredential,
    pub volcengine_resource_id: StoredCredential,
    pub llm_proxy_mode: StoredCredential,
    pub llm_proxy_url: StoredCredential,
    pub asr_proxy_mode: StoredCredential,
    pub asr_proxy_url: StoredCredential,
}

/// The characters of a stored value; nothing where none is stored or reading failed.
pub open spec fn stored(credential: StoredCredential) -> Option<Seq<char>> {
    match credential {
        Ok(Some(value)) => Some(value@),
        _ => None,
    }
}

/// A stored value, or the empty text.
pub open spec fn stored_or_empty(credential: StoredCredential) -> Seq<char> {
    match stored(credential) {
        Some(value) => value,
        None => Seq::empty(),
    }
}

/// A stored value that holds more than white space, or `default`.
pub open spec fn stored_or(credential: StoredCredential, default: Seq<char>) -> Seq<char> {
    match stored(credential) {
        Some(value) if !blank(value) => value,
        _ => default,
    }
}

/// A stored value that holds more than white space.
pub open spec fn stored_text(credential: StoredCredential) -> Option<Seq<char>> {
    match stored(credential) {
        Some(value) if !blank(value) => Some(value),
        _ => None,
    }
}

/// A stored value that holds anything at all, or `default`.
pub open spec fn nonempty_or(credential: StoredCredential, default: Seq<char>) -> Seq<char> {
    match stored(credential) {
        Some(value) if value.len() > 0 => value,
        _ => default,
    }
}

fn value_or_empty(credential: &StoredCredential) -> (r: String)
    ensures
        r@ == stored_or_empty(*credential),
{
    match credential {
        Ok(Some(value)) => value.clone(),
        _ => String::new(),
    }
}

fn value_or(credential: &StoredCredential, default: &str) -> (r: String)
    ensures
        r@ == stored_or(*credential, default@),
{
    if let Ok(Some(value)) = credential {
        if !is_blank(value.as_str()) {
            return value.clone();
        }
    }
    default.to_owned()
}

fn nonempty_value_or(credential: &StoredCredential, default: &str) -> (r: String)
    ensures
        r@ == nonempty_or(*credential, default@),
{
    if let Ok(Some(value)) = credential {
        if !value.as_str().is_empty() {
            return value.clone();
        }
    }
    default.to_owned()
}

/// Why a provider could not be configured.
#[derive(Debug)]
pub enum ProviderConfigError {
    /// The credential store could not be read.
    StoreUnreadable(String),
    /// The provider needs a key, and there is none.
    ApiKeyEmpty,
}

impl ProviderConfigError {
    /// The words of the error.
    pub fn message(&self) -> (r: String)
        ensures
            r@ == (match *self {
                ProviderConfigError::StoreUnreadable(reason) => reason@,
                ProviderConfigError::ApiKeyEmpty => "API Key 为空"@,
            }),
    {
        match self {
            ProviderConfigError::StoreUnreadable(reason) => reason.clone(),
            ProviderConfigError::ApiKeyEmpty => "API Key 为空".to_owned(),
        }
    }
}

/// The failure of an account that could not be read.
pub open spec fn unreadable(credential: StoredCredential) -> Option<ProviderConfigError> {
    match credential {
        Ok(_) => None,
        Err(reason) => Some(ProviderConfigError::StoreUnreadable(reason)),
    }
}

/// The first of two failures, where there is one.
pub open spec fn first_of(
    one: Option<ProviderConfigError>,
    other: Option<ProviderConfigError>,
) -> Option<ProviderConfigError> {
    if one is Some {
        one
    } else {
        other
    }
}

/// Whether a result fails with `failure`, and succeeds where there is none.
pub open spec fn fails_with<T>(
    result: Result<T, ProviderConfigError>,
    failure: Option<ProviderConfigError>,
) -> bool {
    match result {
        Ok(_) => failure is None,
        Err(error) => failure == Some(error),
    }
}

/// Reads a value that must be readable, though it may be absent.
pub fn read_stored(credential: &StoredCredential) -> (r: Result<Option<String>, ProviderConfigError>)
    ensures
        fails_with(r, unreadable(*credential)),
        r matches Ok(value) ==> value == credential->Ok_0,
{
    match credential {
        Ok(Some(value)) => Ok(Some(value.clone())),
        Ok(None) => Ok(None),
        Err(reason) => Err(ProviderConfigError::StoreUnreadable(reason.clone())),
    }
}

/// The stored proxy settings of a provider, as they are handed to the proxy parser.
#[derive(Debug)]
pub struct StoredProxyConfig {
    pub provider_id: String,
    pub mode: Option<String>,
    pub url: Option<String>,
}

/// What can go wrong when the proxy settings of a provider are read.
pub open spec fn proxy_failure(mode: StoredCredential, url: StoredCredential) -> Option<
    ProviderConfigError,
> {
    first_of(unreadable(mode), unreadable(url))
}

impl StoredProxyConfig {
    /// Whether these are the stored settings of a provider.
    pub open spec fn holds(
        self,
        provider_id: Seq<char>,
        mode: StoredCredential,
        url: StoredCredential,
    ) -> bool {
        &&& self.provider_id@ == provider_id
        &&& self.mode == mode->Ok_0
        &&& self.url == url->Ok_0
    }
}

/// Collects the stored proxy settings of a provider.  Both accounts must be readable.
pub fn read_provider_proxy_config(
    provider_id: &str,
    mode: &StoredCredential,
    url: &StoredCredential,
) -> (r: Result<StoredProxyConfig, ProviderConfigError>)
    ensures
        fails_with(r, proxy_failure(*mode, *url)),
        r matches Ok(config) ==> config.holds(provider_id@, *mode, *url),
{
    let mode_value: Option<String> = match read_stored(mode) {
        Ok(value) => value,
        Err(error) => {
            return Err(error);
        },
    };
    match read_stored(url) {
        Ok(value) => Ok(
            StoredProxyConfig { provider_id: provider_id.to_owned(), mode: mode_value, url: value },
        ),
        Err(error) => Err(error),
    }
}

/// Collects the stored proxy settings of a language model.
pub fn read_llm_proxy_config(store: &CredentialSnapshot, provider_id: &str) -> (r: Result<
    StoredProxyConfig,
    ProviderConfigError,
>)
    ensures
        fails_with(r, proxy_failure(store.llm_proxy_mode, store.llm_proxy_url)),
        r matches Ok(config) ==> config.holds(
            provider_id@,
            store.llm_proxy_mode,
            store.llm_proxy_url,
        ),
{
    read_provider_proxy_config(provider_id, &store.llm_proxy_mode, &store.llm_proxy_url)
}

/// Collects the stored proxy settings of a recogniser.
pub fn read_asr_proxy_config(store: &CredentialSnapshot, provider_id: &str) -> (r: Result<
    StoredProxyConfig,
    ProviderConfigError,
>)
    ensures
        fails_with(r, proxy_failure(store.asr_proxy_mode, store.asr_proxy_url)),
        r matches Ok(config) ==> config.holds(
            provider_id@,
            store.asr_proxy_mode,
            store.asr_proxy_url,
        ),
{
    read_provider_proxy_config(provider_id, &store.asr_proxy_mode, &store.asr_proxy_url)
}

/// The settings of a recogniser that speaks the OpenAI protocol.
#[derive(Debug)]
pub struct WhisperCredentials {
    pub api_key: String,
    pub base_url: String,
    pub model: String,
    pub proxy: StoredProxyConfig,
}

impl WhisperCredentials {
    /// Whether these are the stored settings of a recogniser.
    pub open spec fn holds(self, store: CredentialSnapshot, provider_id: Seq<char>) -> bool {
        &&& self.api_key@ == stored_or_empty(store.asr_api_key)
        &&& self.base_url@ == stored_or_empty(store.asr_endpoint)
        &&& self.model@ == nonempty_or(store.asr_model, "whisper-1"@)
        &&& self.proxy.holds(provider_id, store.asr_proxy_mode, store.asr_proxy_url)
    }
}

/// Reads the settings of a recogniser that speaks the OpenAI protocol.  Unreadable accounts
/// count as empty; only the proxy settings must be readable.
pub fn read_whisper_credentials(store: &CredentialSnapshot, active_asr: &str) -> (r: Result<
    WhisperCredentials,
    ProviderConfigError,
>)
    ensures
        fails_with(r, proxy_failure(store.asr_proxy_mode, store.asr_proxy_url)),
        r matches Ok(c) ==> c.holds(*store, active_asr@),
{
    let api_key: String = value_or_empty(&store.asr_api_key);
    let base_url: String = value_or_empty(&store.asr_endpoint);
    let model: String = nonempty_value_or(&store.asr_model, "whisper-1");
    match read_asr_proxy_config(store, active_asr) {
        Ok(proxy) => Ok(WhisperCredentials { api_key, base_url, model, proxy }),
        Err(error) => Err(error),
    }
}

/// The settings of the Bailian recogniser.
#[derive(Debug)]
pub struct BailianCredentials {
    pub api_key: String,
    pub endpoint: String,
    pub model: String,
    pub vocabulary_id: Option<String>,
}

impl BailianCredentials {
    /// Whether these are the stored settings of the recogniser, or its defaults.
    pub open spec fn holds(
        self,
        store: CredentialSnapshot,
        default_endpoint: Seq<char>,
        default_model: Seq<char>,
    ) -> bool {
        &&& self.api_key@ == stored_or_empty(store.asr_api_key)
        &&& self.endpoint@ == stored_or(store.asr_endpoint, default_endpoint)
        &&& self.model@ == stored_or(store.asr_model, default_model)
        &&& crate::delivery::string_of(self.vocabulary_id) == stored_text(store.asr_vocabulary_id)
    }
}

/// Reads the settings of the Bailian recogniser, with the defaults of its client where nothing
/// usable is stored.
pub fn read_bailian_credentials(
    store: &CredentialSnapshot,
    default_endpoint: &str,
    default_model: &str,
) -> (r: BailianCredentials)
    ensures
        r.holds(*store, default_endpoint@, default_model@),
{
    let vocabulary_id: Option<String> = match &store.asr_vocabulary_id {
        Ok(Some(value)) => if is_blank(value.as_str()) {
            None
        } else {
            Some(value.clone())
        },
        _ => None,
    };
    BailianCredentials {
        api_key: value_or_empty(&store.asr_api_key),
        endpoint: value_or(&store.asr_endpoint, default_endpoint),
        model: value_or(&store.asr_model, default_model),
        vocabulary_id,
    }
}

/// The settings of the Volcengine recogniser.
#[derive(Debug)]
pub struct VolcengineCredentials {
    pub app_id: String,
    pub access_token: String,
    pub resource_id: String,
}

impl VolcengineCredentials {
    /// Whether these are the stored settings of the recogniser.
    pub open spec fn holds(self, store: CredentialSnapshot, default_resource_id: Seq<char>) -> bool {
        &&& self.app_id@ == stored_or_empty(store.volcengine_app_key)
        &&& self.access_token@ == stored_or_empty(store.volcengine_access_key)
        &&& self.resource_id@ == nonempty_or(store.volcengine_resource_id, default_resource_id)
    }
}

/// Reads the settings of the Volcengine recogniser.
pub fn read_volc_credentials(store: &CredentialSnapshot, default_resource_id: &str) -> (r:
    VolcengineCredentials)
    ensures
        r.holds(*store, default_resource_id@),
{
    VolcengineCredentials {
        app_id: value_or_empty(&store.volcengine_app_key),
        access_token: value_or_empty(&store.volcengine_access_key),
        resource_id: nonempty_value_or(&store.volcengine_resource_id, default_resource_id),
    }
}

/// The settings of the Gemini model.
#[derive(Debug)]
pub struct GeminiCredentials {
    pub api_key: String,
    pub model: String,
    pub base_url: String,
}

/// What can go wrong when the settings of the Gemini model are read.
pub open spec fn gemini_failure(store: CredentialSnapshot) -> Option<ProviderConfigError> {
    first_of(
        unreadable(store.ark_api_key),
        first_of(
            unreadable(store.ark_model_id),
            first_of(
                unreadable(store.ark_endpoint),
                if blank(stored_or_empty(store.ark_api_key)) {
                    Some(ProviderConfigError::ApiKeyEmpty)
                } else {
                    None
                },
            ),
        ),
    )
}

impl GeminiCredentials {
    /// Whether these are the stored settings of the model, or its defaults.
    pub open spec fn holds(self, store: CredentialSnapshot) -> bool {
        &&& self.api_key@ == stored_or_empty(store.ark_api_key)
        &&& self.model@ == stored_or(store.ark_model_id, "gemini-2.5-flash"@)
        &&& self.base_url@ == trim_trailing(
            stored_or(store.ark_endpoint, "https://generativelanguage.googleapis.com/v1beta"@),
            "/"@,
        )
    }
}

/// Reads the settings of the Gemini model.  Slashes at the end of its address go, and a key is
/// indispensable.
pub fn read_gemini_credentials(store: &CredentialSnapshot) -> (r: Result<
    GeminiCredentials,
    ProviderConfigError,
>)
    ensures
        fails_with(r, gemini_failure(*store)),
        r matches Ok(c) ==> c.holds(*store),
{
    if let Err(reason) = &store.ark_api_key {
        return Err(ProviderConfigError::StoreUnreadable(reason.clone()));
    }
    if let Err(reason) = &store.ark_model_id {
        return Err(ProviderConfigError::StoreUnreadable(reason.clone()));
    }
    if let Err(reason) = &store.ark_endpoint {
        return Err(ProviderConfigError::StoreUnreadable(reason.clone()));
    }
    let api_key: String = value_or_empty(&store.ark_api_key);
    let model: String = value_or(&store.ark_model_id, "gemini-2.5-flash");
    let base_url: String = value_or(
        &store.ark_endpoint,
        "https://generativelanguage.googleapis.com/v1beta",
    );
    if is_blank(api_key.as_str()) {
        return Err(ProviderConfigError::ApiKeyEmpty);
    }
    proof {
        reveal_strlit("/");
    }
    let base_url: String = trim_end_matches(base_url.as_str(), "/").to_owned();
    Ok(GeminiCredentials { api_key, model, base_url })
}

/// Whether the stored active recogniser has to be brought in line with the preferences.
pub fn sync_active_asr_provider_to_credentials_for_runtime(
    store: &CredentialSnapshot,
    active_asr: &str,
) -> (r: bool)
    ensures
        r == (store.active_asr@ != active_asr@),
{
    !same_text(store.active_asr.as_str(), active_asr)
}

/// What is stored is what is used: a stored text that holds more than white space is never replaced,
/// and a default stands in only where nothing usable can be read.
pub proof fn a_stored_text_is_used(credential: StoredCredential, default: Seq<char>)
    ensures
        credential matches Ok(Some(value)) ==> {
            &&& stored_or_empty(credential) == value@
            &&& !blank(value@) ==> stored_or(credential, default) == value@ && stored_text(
                credential,
            ) == Some(value@)
            &&& blank(value@) ==> stored_or(credential, default) == default && stored_text(
                credential,
            ) is None
            &&& value@.len() > 0 ==> nonempty_or(credential, default) == value@
            &&& value@.len() == 0 ==> nonempty_or(credential, default) == default
        },
        credential is Err || credential == Ok::<Option<String>, String>(None) ==> {
            &&& stored_or_empty(credential).len() == 0
            &&& stored_or(credential, default) == default
            &&& stored_text(credential) is None
            &&& nonempty_or(credential, default) == default
        },
{
}

/// Only an account that cannot be read is a failure, under its own reason, and of two failures the
/// first is reported.
pub proof fn an_unreadable_account_is_reported(one: StoredCredential, other: StoredCredential)
    ensures
        unreadable(one) is Some <==> one is Err,
        one matches Err(reason) ==> unreadable(one) == Some(
            ProviderConfigError::StoreUnreadable(reason),
        ),
        one is Err ==> proxy_failure(one, other) == unreadable(one),
        one is Ok ==> proxy_failure(one, other) == unreadable(other),
{
}

/// The recogniser of the OpenAI protocol is asked with what the user stored for it.
pub proof fn a_whisper_recogniser_is_asked_as_stored(
    credentials: WhisperCredentials,
    store: CredentialSnapshot,
    provider_id: Seq<char>,
)
    requires
        credentials.holds(store, provider_id),
    ensures
        store.asr_api_key matches Ok(Some(key)) ==> credentials.api_key@ == key@,
        store.asr_endpoint matches Ok(Some(address)) ==> credentials.base_url@ == address@,
        store.asr_model matches Ok(Some(model)) ==> model@.len() > 0 ==> credentials.model@
            == model@,
        store.asr_model == Ok::<Option<String>, String>(None) ==> credentials.model@
            == "whisper-1"@,
        credentials.proxy.provider_id@ == provider_id,
        store.asr_proxy_mode matches Ok(mode) ==> credentials.proxy.mode == mode,
        store.asr_proxy_url matches Ok(url) ==> credentials.proxy.url == url,
{
}

/// The Bailian recogniser is asked with what the user stored for it, or with its defaults.
pub proof fn a_bailian_recogniser_is_asked_as_stored(
    credentials: BailianCredentials,
    store: CredentialSnapshot,
    default_endpoint: Seq<char>,
    default_model: Seq<char>,
)
    requires
        credentials.holds(store, default_endpoint, default_model),
    ensures
        store.asr_api_key matches Ok(Some(key)) ==> credentials.api_key@ == key@,
        store.asr_endpoint matches Ok(Some(address)) ==> !blank(address@) ==> credentials.endpoint@
            == address@,
        store.asr_endpoint == Ok::<Option<String>, String>(None) ==> credentials.endpoint@
            == default_endpoint,
        store.asr_model matches Ok(Some(model)) ==> !blank(model@) ==> credentials.model@
            == model@,
        store.asr_model == Ok::<Option<String>, String>(None) ==> credentials.model@
            == default_model,
        store.asr_vocabulary_id == Ok::<Option<String>, String>(None)
            ==> credentials.vocabulary_id is None,
        store.asr_vocabulary_id matches Ok(Some(id)) ==> !blank(id@)
            ==> credentials.vocabulary_id is Some && credentials.vocabulary_id->0@ == id@,
{
}

/// The Volcengine recogniser is asked with the account that the user stored for it.
pub proof fn a_volcengine_recogniser_is_asked_as_stored(
    credentials: VolcengineCredentials,
    store: CredentialSnapshot,
    default_resource_id: Seq<char>,
)
    requires
        credentials.holds(store, default_resource_id),
    ensures
        store.volcengine_app_key matches Ok(Some(key)) ==> credentials.app_id@ == key@,
        store.volcengine_access_key matches Ok(Some(key)) ==> credentials.access_token@ == key@,
        store.volcengine_resource_id matches Ok(Some(id)) ==> id@.len() > 0
            ==> credentials.resource_id@ == id@,
        store.volcengine_resource_id == Ok::<Option<String>, String>(None)
            ==> credentials.resource_id@ == default_resource_id,
{
}

/// Gemini needs a key, and nothing but readable accounts besides; it is asked with what is stored,
/// at an address without a slash at its end.
pub proof fn gemini_is_asked_as_stored(credentials: GeminiCredentials, store: CredentialSnapshot)
    ensures
        store.ark_api_key is Ok && store.ark_model_id is Ok && store.ark_endpoint is Ok ==> (
        gemini_failure(store) is None <==> store.ark_api_key->Ok_0 is Some && !blank(
            store.ark_api_key->Ok_0->0@,
        )),
        store.ark_api_key is Err || store.ark_model_id is Err || store.ark_endpoint is Err
            ==> gemini_failure(store) is Some && !(gemini_failure(store)->0 is ApiKeyEmpty),
        credentials.holds(store) ==> {
            &&& store.ark_api_key matches Ok(Some(key)) ==> credentials.api_key@ == key@
            &&& store.ark_model_id matches Ok(Some(model)) ==> !blank(model@)
                ==> credentials.model@ == model@
            &&& store.ark_endpoint matches Ok(Some(address)) ==> !blank(address@) && !("/"@.is_suffix_of(
                address@,
            )) ==> credentials.base_url@ == address@
        },
{
    reveal_strlit("/");
    assert(blank(Seq::empty())) by {
        assert(crate::text::trimmed(Seq::empty()) == Seq::<char>::empty());
    }
}

} // verus!
