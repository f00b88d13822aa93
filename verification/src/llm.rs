//! The language model that polishes texts: where it is, when it is left alone, what its
//! failures mean.

use vstd::prelude::*;
use vstd::string::*;
use std::collections::hash_map::DefaultHasher;
use std::hash::Hasher;
use vstd::std_specs::hash::DefaultHasherAdditionalSpecFns;
use vstd::utf8::encode_utf8;
use crate::credentials::{
    fails_with,
    first_of,
    gemini_failure,
    proxy_failure,
    read_gemini_credentials,
    read_llm_proxy_config,
    read_stored,
    stored,
    stored_or_empty,
    stored_text,
    unreadable,
    CredentialSnapshot,
    GeminiCredentials,
    ProviderConfigError,
    StoredCredential,
    StoredProxyConfig,
};
use crate::delivery::{string_of, text_of};
use crate::preferences::{PolishMode, StylePack, StylePackKind};
use crate::text::{
    ascii_lowered,
    blank,
    contains_text,
    eq_ignore_ascii_case,
    is_blank,
    occurs_in,
    same_text,
    starts_with,
    strip_prefix,
    trim,
    trim_end_matches,
    trim_quotes,
    trim_trailing,
    trimmed,
    unquoted_end,
    unquoted_start,
};

verus! {

/// What is known of refused credentials: the ones refused last, and every set of credentials
/// whose refusal the user was told about.
pub struct RefusalRecord {
    pub rejected: Option<u64>,
    pub announced: Seq<u64>,
}

impl RefusalRecord {
    /// Whether the user is to be told now that these credentials were refused.
    pub open spec fn due(self, fingerprint: u64) -> bool {
        self.rejected == Some(fingerprint) && !self.announced.contains(fingerprint)
    }

    /// The record after a refusal.
    pub open spec fn refused(self, fingerprint: u64) -> RefusalRecord {
        RefusalRecord { rejected: Some(fingerprint), ..self }
    }

    /// The record after somebody asked whether the user is to be told.
    pub open spec fn asked(self, fingerprint: u64) -> RefusalRecord {
        if self.due(fingerprint) {
            RefusalRecord { announced: self.announced.push(fingerprint), ..self }
        } else {
            self
        }
    }
}

/// Remembers credentials that the provider refused, so that they are not tried again.
#[derive(Debug)]
pub struct LlmAuthFailureCircuit {
    pub rejected_fingerprint: Option<u64>,
    /// The credentials whose refusal the user was told about.
    pub announced: Vec<u64>,
}

impl Default for LlmAuthFailureCircuit {
    fn default() -> (r: LlmAuthFailureCircuit)
        ensures
            r.rejected_fingerprint is None,
            r.announced@ == Seq::<u64>::empty(),
    {
        LlmAuthFailureCircuit { rejected_fingerprint: None, announced: Vec::new() }
    }
}

impl LlmAuthFailureCircuit {
    /// What the circuit knows.
    pub open spec fn record(self) -> RefusalRecord {
        RefusalRecord { rejected: self.rejected_fingerprint, announced: self.announced@ }
    }

    /// A circuit that has seen no refusal.
    pub fn new() -> (r: LlmAuthFailureCircuit)
        ensures
            r.rejected_fingerprint is None,
            r.announced@ == Seq::<u64>::empty(),
    {
        LlmAuthFailureCircuit { rejected_fingerprint: None, announced: Vec::new() }
    }

    /// Whether these credentials were refused.
    pub fn rejects(&self, fingerprint: u64) -> (r: bool)
        ensures
            r == (self.rejected_fingerprint == Some(fingerprint)),
    {
        match self.rejected_fingerprint {
            Some(rejected) => rejected == fingerprint,
            None => false,
        }
    }

    /// Remembers that these credentials were refused.
    pub fn reject(&mut self, fingerprint: u64)
        ensures
            *final(self) == (LlmAuthFailureCircuit {
                rejected_fingerprint: Some(fingerprint),
                ..*old(self)
            }),
            final(self).record() == old(self).record().refused(fingerprint),
    {
        self.rejected_fingerprint = Some(fingerprint);
    }

    fn was_announced(&self, fingerprint: u64) -> (r: bool)
        ensures
            r == self.announced@.contains(fingerprint),
    {
        let mut i: usize = 0;
        while i < self.announced.len()
            invariant
                i <= self.announced@.len(),
                forall|j: int| 0 <= j < i ==> (#[trigger] self.announced@[j]) != fingerprint,
            decreases self.announced@.len() - i,
        {
            if self.announced[i] == fingerprint {
                return true;
            }
            i = i + 1;
        }
        false
    }

    /// Takes the one notice that is due for refused credentials.
    pub fn take_notice(&mut self, fingerprint: u64) -> (r: bool)
        ensures
            r == (old(self).rejected_fingerprint == Some(fingerprint) && !old(
                self,
            ).announced@.contains(fingerprint)),
            final(self).rejected_fingerprint == old(self).rejected_fingerprint,
            final(self).announced@ == (if r {
                old(self).announced@.push(fingerprint)
            } else {
                old(self).announced@
            }),
            final(self).record() == old(self).record().asked(fingerprint),
    {
        if self.rejects(fingerprint) && !self.was_announced(fingerprint) {
            self.announced.push(fingerprint);
            return true;
        }
        false
    }
}

/// Whether these credentials were refused.
pub fn current_llm_auth_is_rejected(circuit: &LlmAuthFailureCircuit, fingerprint: u64) -> (r: bool)
    ensures
        r == (circuit.rejected_fingerprint == Some(fingerprint)),
{
    circuit.rejects(fingerprint)
}

/// Remembers that these credentials were refused.
pub fn note_llm_auth_rejection(circuit: &mut LlmAuthFailureCircuit, fingerprint: u64)
    ensures
        *final(circuit) == (LlmAuthFailureCircuit {
            rejected_fingerprint: Some(fingerprint),
            ..*old(circuit)
        }),
        final(circuit).record() == old(circuit).record().refused(fingerprint),
{
    circuit.reject(fingerprint);
}

/// Takes the one notice that is due for refused credentials; new credentials get a new one.
pub fn take_llm_auth_rejection_notice(circuit: &mut LlmAuthFailureCircuit, fingerprint: u64) -> (r:
    bool)
    ensures
        r == old(circuit).record().due(fingerprint),
        final(circuit).record() == old(circuit).record().asked(fingerprint),
{
    circuit.take_notice(fingerprint)
}

/// What can happen to the record of refusals.
pub enum RefusalEvent {
    Refused(u64),
    Asked(u64),
}

/// The record after a series of events.
pub open spec fn after_refusal_events(
    record: RefusalRecord,
    events: Seq<RefusalEvent>,
) -> RefusalRecord
    decreases events.len(),
{
    if events.len() == 0 {
        record
    } else {
        let before = after_refusal_events(record, events.drop_last());
        match events.last() {
            RefusalEvent::Refused(fingerprint) => before.refused(fingerprint),
            RefusalEvent::Asked(fingerprint) => before.asked(fingerprint),
        }
    }
}

/// The user is told once about each set of refused credentials: after the notice for one was
/// given, none is due for it again, whatever is refused or asked afterwards.
pub proof fn a_refusal_is_announced_once(
    record: RefusalRecord,
    fingerprint: u64,
    later: Seq<RefusalEvent>,
)
    requires
        record.due(fingerprint),
    ensures
        !after_refusal_events(record.asked(fingerprint), later).due(fingerprint),
{
    assert(record.announced.push(fingerprint).last() == fingerprint);
    lemma_announced_stays(record.asked(fingerprint), fingerprint, later);
}

proof fn lemma_announced_stays(record: RefusalRecord, fingerprint: u64, later: Seq<RefusalEvent>)
    requires
        record.announced.contains(fingerprint),
    ensures
        after_refusal_events(record, later).announced.contains(fingerprint),
    decreases later.len(),
{
    if later.len() > 0 {
        lemma_announced_stays(record, fingerprint, later.drop_last());
        let before = after_refusal_events(record, later.drop_last()).announced;
        let at = choose|i: int| 0 <= i < before.len() && before[i] == fingerprint;
        if let RefusalEvent::Asked(other) = later.last() {
            assert(before.push(other)[at] == fingerprint);
        }
    }
}

/// Other credentials get their own notice: once they are refused, it is due unless it was given
/// before.
pub proof fn other_credentials_get_their_own_notice(
    record: RefusalRecord,
    one: u64,
    other: u64,
)
    requires
        record.due(one),
        !record.announced.contains(other),
        one != other,
    ensures
        record.asked(one).refused(other).due(other),
{
    let after = record.announced.push(one);
    if after.contains(other) {
        let at = choose|i: int| 0 <= i < after.len() && after[i] == other;
        assert(record.announced[at] == other);
    }
}

/// What is hashed for a text: its characters and an end mark that no character starts with.
pub open spec fn hashed_text(text: Seq<char>) -> Seq<Seq<u8>> {
    seq![encode_utf8(text), seq![0xffu8]]
}

/// What is hashed for one stored value: whether it is there, and its characters.
pub open spec fn hashed_value(value: Option<Seq<char>>) -> Seq<Seq<u8>> {
    match value {
        Some(text) => seq![seq![1u8]] + hashed_text(text),
        None => seq![seq![0u8]],
    }
}

/// What is hashed for the credentials that a provider would be asked with.
pub open spec fn hashed_credentials(
    provider: Seq<char>,
    api_key: Option<Seq<char>>,
    model: Option<Seq<char>>,
    endpoint: Option<Seq<char>>,
) -> Seq<Seq<u8>> {
    hashed_text(provider) + hashed_value(api_key) + hashed_value(model) + hashed_value(endpoint)
}

fn hash_text(hasher: &mut DefaultHasher, text: &str)
    ensures
        final(hasher)@ == old(hasher)@ + hashed_text(text@),
{
    let end: [u8; 1] = [0xff];
    hasher.write(text.as_bytes());
    hasher.write(end.as_slice());
    proof {
        assert(end@ == seq![0xffu8]);
        assert(hasher@ == old(hasher)@ + hashed_text(text@));
    }
}

fn hash_value(hasher: &mut DefaultHasher, value: Option<&str>)
    ensures
        final(hasher)@ == old(hasher)@ + hashed_value(text_of(value)),
{
    match value {
        Some(text) => {
            let present: [u8; 1] = [1];
            hasher.write(present.as_slice());
            hash_text(hasher, text);
            proof {
                assert(present@ == seq![1u8]);
                assert(hasher@ == old(hasher)@ + hashed_value(Some(text@)));
            }
        },
        None => {
            let absent: [u8; 1] = [0];
            hasher.write(absent.as_slice());
            proof {
                assert(absent@ == seq![0u8]);
                assert(hasher@ == old(hasher)@ + hashed_value(None));
            }
        },
    }
}

fn value_text(credential: &StoredCredential) -> (r: Option<&str>)
    ensures
        text_of(r) == stored(*credential),
{
    match credential {
        Ok(Some(value)) => Some(value.as_str()),
        _ => None,
    }
}

/// What can go wrong when the credentials are fingerprinted.
pub open spec fn fingerprint_failure(store: CredentialSnapshot) -> Option<ProviderConfigError> {
    first_of(
        unreadable(store.ark_api_key),
        first_of(unreadable(store.ark_model_id), unreadable(store.ark_endpoint)),
    )
}

/// The fingerprint of readable credentials.
pub open spec fn fingerprint_of(store: CredentialSnapshot) -> u64 {
    DefaultHasher::spec_finish(
        hashed_credentials(
            store.active_llm@,
            stored(store.ark_api_key),
            stored(store.ark_model_id),
            stored(store.ark_endpoint),
        ),
    )
}

/// The fingerprint of the stored credentials; unreadable ones have none.  Which number the
/// hasher makes of what it is handed is its own affair.
pub fn current_llm_auth_fingerprint(store: &CredentialSnapshot) -> (r: Result<
    u64,
    ProviderConfigError,
>)
    ensures
        fails_with(r, fingerprint_failure(*store)),
        r matches Ok(fingerprint) ==> fingerprint == fingerprint_of(*store),
{
    let mut hasher: DefaultHasher = DefaultHasher::new();
    hash_text(&mut hasher, store.active_llm.as_str());
    if let Err(error) = read_stored(&store.ark_api_key) {
        return Err(error);
    }
    hash_value(&mut hasher, value_text(&store.ark_api_key));
    if let Err(error) = read_stored(&store.ark_model_id) {
        return Err(error);
    }
    hash_value(&mut hasher, value_text(&store.ark_model_id));
    if let Err(error) = read_stored(&store.ark_endpoint) {
        return Err(error);
    }
    hash_value(&mut hasher, value_text(&store.ark_endpoint));
    proof {
        assert(hasher@ == hashed_credentials(
            store.active_llm@,
            stored(store.ark_api_key),
            stored(store.ark_model_id),
            stored(store.ark_endpoint),
        ));
    }
    Ok(hasher.finish())
}

proof fn lemma_texts_are_told_apart(a: Seq<char>, b: Seq<char>)
    requires
        encode_utf8(a) == encode_utf8(b),
    ensures
        a == b,
{
    broadcast use vstd::utf8::encode_utf8_decode_utf8;

    assert(vstd::utf8::decode_utf8(encode_utf8(a)) == a);
    assert(vstd::utf8::decode_utf8(encode_utf8(b)) == b);
}

proof fn lemma_values_are_told_apart(
    a: Option<Seq<char>>,
    b: Option<Seq<char>>,
    rest_a: Seq<Seq<u8>>,
    rest_b: Seq<Seq<u8>>,
)
    requires
        hashed_value(a) + rest_a == hashed_value(b) + rest_b,
    ensures
        a == b,
        rest_a == rest_b,
{
    let all_a = hashed_value(a) + rest_a;
    let all_b = hashed_value(b) + rest_b;
    assert(all_a[0] == hashed_value(a)[0]);
    assert(all_b[0] == hashed_value(b)[0]);
    assert(hashed_value(a)[0][0] == if a is Some {
        1u8
    } else {
        0u8
    });
    assert(hashed_value(b)[0][0] == if b is Some {
        1u8
    } else {
        0u8
    });
    assert(a is Some <==> b is Some);
    if a is Some {
        assert(all_a[1] == encode_utf8(a->0));
        assert(all_b[1] == encode_utf8(b->0));
        lemma_texts_are_told_apart(a->0, b->0);
        assert(rest_a == all_a.skip(3));
        assert(rest_b == all_b.skip(3));
    } else {
        assert(rest_a == all_a.skip(1));
        assert(rest_b == all_b.skip(1));
    }
}

proof fn lemma_parts_follow(
    provider: Seq<Seq<u8>>,
    api_key: Seq<Seq<u8>>,
    model: Seq<Seq<u8>>,
    endpoint: Seq<Seq<u8>>,
)
    requires
        provider.len() == 2,
    ensures
        (provider + api_key + model + endpoint)[0] == provider[0],
        (provider + api_key + model + endpoint).skip(2) == api_key + (model + (endpoint + Seq::<
            Seq<u8>,
        >::empty())),
{
    assert((provider + api_key + model + endpoint).skip(2) =~= api_key + (model + (endpoint
        + Seq::<Seq<u8>>::empty())));
}

/// Different credentials are handed to the hasher differently: changing the provider, the key,
/// the model or the address, or removing one of them, never leaves the hashed input the same.
pub proof fn different_credentials_are_hashed_differently(
    provider_a: Seq<char>,
    api_key_a: Option<Seq<char>>,
    model_a: Option<Seq<char>>,
    endpoint_a: Option<Seq<char>>,
    provider_b: Seq<char>,
    api_key_b: Option<Seq<char>>,
    model_b: Option<Seq<char>>,
    endpoint_b: Option<Seq<char>>,
)
    requires
        hashed_credentials(provider_a, api_key_a, model_a, endpoint_a) == hashed_credentials(
            provider_b,
            api_key_b,
            model_b,
            endpoint_b,
        ),
    ensures
        provider_a == provider_b,
        api_key_a == api_key_b,
        model_a == model_b,
        endpoint_a == endpoint_b,
{
    let none = Seq::<Seq<u8>>::empty();
    lemma_parts_follow(
        hashed_text(provider_a),
        hashed_value(api_key_a),
        hashed_value(model_a),
        hashed_value(endpoint_a),
    );
    lemma_parts_follow(
        hashed_text(provider_b),
        hashed_value(api_key_b),
        hashed_value(model_b),
        hashed_value(endpoint_b),
    );
    assert(hashed_text(provider_a)[0] == encode_utf8(provider_a));
    assert(hashed_text(provider_b)[0] == encode_utf8(provider_b));
    lemma_texts_are_told_apart(provider_a, provider_b);
    let last_a = hashed_value(endpoint_a) + none;
    let last_b = hashed_value(endpoint_b) + none;
    let two_a = hashed_value(model_a) + last_a;
    let two_b = hashed_value(model_b) + last_b;
    lemma_values_are_told_apart(api_key_a, api_key_b, two_a, two_b);
    lemma_values_are_told_apart(model_a, model_b, last_a, last_b);
    lemma_values_are_told_apart(endpoint_a, endpoint_b, none, none);
}

/// A failure of the language model.
#[derive(Debug)]
pub enum LlmError {
    /// The provider answered with an HTTP status that is no success.
    InvalidResponse { status: u16, detail: String },
    /// Anything else.
    Other(String),
}

/// Whether the provider refused the credentials.
pub fn llm_error_is_auth_rejection(error: &LlmError) -> (r: bool)
    ensures
        r == (error matches LlmError::InvalidResponse { status, .. } && (*status == 401 || *status
            == 403)),
{
    match error {
        LlmError::InvalidResponse { status, detail: _ } => *status == 401 || *status == 403,
        LlmError::Other(_) => false,
    }
}

/// Failures in a row after which the model is left alone for a while.
pub const LLM_STALL_OPEN_AFTER_FAILURES: u32 = 2;
/// How long the model is left alone.
pub const LLM_STALL_OPEN_DURATION_MS: u64 = 120_000;

/// Leaves a model alone that failed several times in a row for other reasons than credentials.
#[derive(Clone, Copy, Debug, PartialEq, Eq, Structural)]
pub struct LlmStallCircuit {
    pub consecutive_failures: u32,
    pub open_until: Option<u64>,
}

impl LlmStallCircuit {
    /// Whether the model is left alone at `now`.
    pub open spec fn open_at(self, now: u64) -> bool {
        self.open_until matches Some(until) && until > now
    }

    /// The circuit after a success.
    pub open spec fn succeeded(self) -> LlmStallCircuit {
        LlmStallCircuit { consecutive_failures: 0, open_until: None }
    }

    /// The circuit after a failure at `now`.
    pub open spec fn failed(self, now: u64) -> LlmStallCircuit {
        let failures = crate::release::one_more(self.consecutive_failures);
        LlmStallCircuit {
            consecutive_failures: failures,
            open_until: if failures >= LLM_STALL_OPEN_AFTER_FAILURES {
                Some(crate::endpoint::capped_sum(now, LLM_STALL_OPEN_DURATION_MS) as u64)
            } else {
                self.open_until
            },
        }
    }

    /// A circuit that has seen no failure.
    pub fn new() -> (r: LlmStallCircuit)
        ensures
            r == (LlmStallCircuit { consecutive_failures: 0, open_until: None }),
    {
        LlmStallCircuit { consecutive_failures: 0, open_until: None }
    }

    /// Whether the model is left alone at `now`.
    pub fn is_open(&self, now: u64) -> (r: bool)
        ensures
            r == self.open_at(now),
    {
        match self.open_until {
            Some(until) => until > now,
            None => false,
        }
    }

    /// Forgets the failures so far.
    pub fn note_success(&mut self)
        ensures
            *final(self) == old(self).succeeded(),
    {
        self.consecutive_failures = 0;
        self.open_until = None;
    }

    /// Counts a failure.
    pub fn note_failure(&mut self, now: u64)
        ensures
            *final(self) == old(self).failed(now),
    {
        self.consecutive_failures = self.consecutive_failures.saturating_add(1);
        if self.consecutive_failures >= LLM_STALL_OPEN_AFTER_FAILURES {
            self.open_until = Some(now.saturating_add(LLM_STALL_OPEN_DURATION_MS));
        }
    }
}

/// Whether the model is left alone at `now`.
pub fn llm_stall_circuit_open(circuit: &LlmStallCircuit, now: u64) -> (r: bool)
    ensures
        r == circuit.open_at(now),
{
    circuit.is_open(now)
}

/// Forgets the failures so far.
pub fn note_llm_polish_success(circuit: &mut LlmStallCircuit)
    ensures
        *final(circuit) == old(circuit).succeeded(),
{
    circuit.note_success();
}

/// Counts a failure, and tells whether it is the one that makes the model be left alone.
pub fn note_llm_polish_stall_failure(circuit: &mut LlmStallCircuit, now: u64) -> (r: bool)
    ensures
        *final(circuit) == old(circuit).failed(now),
        r == (!old(circuit).open_at(now) && old(circuit).failed(now).open_at(now)),
{
    let before: bool = circuit.is_open(now);
    circuit.note_failure(now);
    !before && circuit.is_open(now)
}

/// The first failure is forgiven; the second in a row has the model left alone for two minutes,
/// and not a moment longer unless it fails again.
pub proof fn two_failures_open_the_circuit(first: u64, second: u64, later: u64)
    requires
        first <= second <= later,
    ensures
        ({
            let start = LlmStallCircuit { consecutive_failures: 0, open_until: None };
            &&& !start.failed(first).open_at(later)
            &&& start.failed(first).failed(second).open_at(later) <==> later
                < crate::endpoint::capped_sum(second, 120_000)
        }),
{
}

/// A success in between makes the count start over.
pub proof fn a_success_closes_the_circuit(circuit: LlmStallCircuit, now: u64, later: u64)
    ensures
        !circuit.succeeded().open_at(now),
        !circuit.succeeded().failed(now).open_at(later),
{
}

/// After the pause one attempt is allowed, and its failure alone opens the circuit again.
pub proof fn a_failure_after_the_pause_opens_the_circuit_again(
    circuit: LlmStallCircuit,
    now: u64,
)
    requires
        circuit.consecutive_failures >= 2,
        !circuit.open_at(now),
        now < u64::MAX,
    ensures
        circuit.failed(now).open_at(now),
{
}

/// The address at which a known provider is reached.
pub open spec fn default_endpoint(provider: Seq<char>) -> Option<Seq<char>> {
    if provider == "ark"@ {
        Some("https://ark.cn-beijing.volces.com/api/v3"@)
    } else if provider == "deepseek"@ {
        Some("https://api.deepseek.com/v1"@)
    } else if provider == "siliconflow"@ {
        Some("https://api.siliconflow.cn/v1"@)
    } else if provider == "openai"@ {
        Some("https://api.openai.com/v1"@)
    } else if provider == "gemini"@ {
        Some("https://generativelanguage.googleapis.com/v1beta"@)
    } else if provider == "mimo"@ {
        Some("https://api.xiaomimimo.com/v1"@)
    } else if provider == "cometapi"@ {
        Some("https://api.cometapi.com/v1"@)
    } else if provider == "openrouterFree"@ {
        Some("https://openrouter.ai/api/v1"@)
    } else if provider == "alibabaCoding"@ {
        Some("https://coding-intl.dashscope.aliyuncs.com/v1"@)
    } else if provider == "codingPlanX"@ {
        Some("https://api.codingplanx.ai/v1"@)
    } else {
        None
    }
}

/// The address at which a known provider is reached.
pub fn llm_provider_default_endpoint(provider_id: &str) -> (r: Option<&'static str>)
    ensures
        text_of(r) == default_endpoint(provider_id@),
{
    if same_text(provider_id, "ark") {
        Some("https://ark.cn-beijing.volces.com/api/v3")
    } else if same_text(provider_id, "deepseek") {
        Some("https://api.deepseek.com/v1")
    } else if same_text(provider_id, "siliconflow") {
        Some("https://api.siliconflow.cn/v1")
    } else if same_text(provider_id, "openai") {
        Some("https://api.openai.com/v1")
    } else if same_text(provider_id, "gemini") {
        Some("https://generativelanguage.googleapis.com/v1beta")
    } else if same_text(provider_id, "mimo") {
        Some("https://api.xiaomimimo.com/v1")
    } else if same_text(provider_id, "cometapi") {
        Some("https://api.cometapi.com/v1")
    } else if same_text(provider_id, "openrouterFree") {
        Some("https://openrouter.ai/api/v1")
    } else if same_text(provider_id, "alibabaCoding") {
        Some("https://coding-intl.dashscope.aliyuncs.com/v1")
    } else if same_text(provider_id, "codingPlanX") {
        Some("https://api.codingplanx.ai/v1")
    } else {
        None
    }
}

/// An address without what does not matter for comparing it: white space around it, slashes and
/// the path of the completion call at its end, and the case of ASCII letters.
pub open spec fn endpoint_key(address: Seq<char>) -> Seq<char> {
    ascii_lowered(
        trim_trailing(
            trim_trailing(trim_trailing(trimmed(address), "/"@), "/chat/completions"@),
            "/"@,
        ),
    )
}

fn bare_endpoint<'a>(address: &'a str) -> (r: &'a str)
    ensures
        ascii_lowered(r@) == endpoint_key(address@),
{
    proof {
        reveal_strlit("/");
        reveal_strlit("/chat/completions");
    }
    trim_end_matches(
        trim_end_matches(trim_end_matches(trim(address), "/"), "/chat/completions"),
        "/",
    )
}

/// Whether two addresses lead to the same place.
pub fn same_llm_endpoint(a: &str, b: &str) -> (r: bool)
    ensures
        r == (endpoint_key(a@) == endpoint_key(b@)),
{
    eq_ignore_ascii_case(bare_endpoint(a), bare_endpoint(b))
}

/// Whether an address is the known one of a provider, which never works without a key.
pub open spec fn needs_key(provider: Seq<char>, endpoint: Seq<char>) -> bool {
    default_endpoint(provider) matches Some(default) && endpoint_key(endpoint) == endpoint_key(
        default,
    )
}

/// Whether an address is the known one of a provider, which never works without a key.
pub fn llm_default_endpoint_requires_api_key(provider_id: &str, endpoint: &str) -> (r: bool)
    ensures
        r == needs_key(provider_id@, endpoint@),
{
    match llm_provider_default_endpoint(provider_id) {
        Some(default) => same_llm_endpoint(endpoint, default),
        None => false,
    }
}

/// A key as it is sent: without white space, quotation marks or a leading `Bearer`.
pub open spec fn clean_key(raw: Seq<char>) -> Seq<char> {
    let bare = trimmed(unquoted_end(unquoted_start(trimmed(raw))));
    trimmed(
        if "Bearer "@.is_prefix_of(bare) {
            bare.skip("Bearer "@.len() as int)
        } else if "bearer "@.is_prefix_of(bare) {
            bare.skip("bearer "@.len() as int)
        } else {
            bare
        },
    )
}

/// Cleans a key that was pasted with quotation marks, white space or a leading `Bearer`.
pub fn sanitize_llm_api_key(raw: &str) -> (r: String)
    ensures
        r@ == clean_key(raw@),
{
    let bare = trim(trim_quotes(trim(raw)));
    let rest = match strip_prefix(bare, "Bearer ") {
        Some(rest) => rest,
        None => match strip_prefix(bare, "bearer ") {
            Some(rest) => rest,
            None => bare,
        },
    };
    trim(rest).to_owned()
}

/// The address that goes with a key: a key of one vendor is never sent to the other's host.
pub open spec fn reconciled(provider: Seq<char>, api_key: Seq<char>, base_url: Seq<char>) -> Seq<
    char,
> {
    let key = trimmed(api_key);
    let deepseek_key = "sk-"@.is_prefix_of(key);
    let openai_key = "sk-proj-"@.is_prefix_of(key) || "sk-or-"@.is_prefix_of(key);
    let ark_host = occurs_in("volces.com"@, base_url) || occurs_in("volcengine"@, base_url);
    let deepseek_host = occurs_in("api.deepseek.com"@, base_url);
    if ark_host && (provider == "deepseek"@ || (deepseek_key && (!openai_key || provider
        == "ark"@))) {
        "https://api.deepseek.com/v1"@
    } else if provider == "ark"@ && deepseek_host && !deepseek_key {
        "https://ark.cn-beijing.volces.com/api/v3"@
    } else {
        base_url
    }
}

/// Chooses the address that goes with a key.
pub fn reconcile_llm_base_url_for_key(provider_id: &str, api_key: &str, base_url: &str) -> (r:
    String)
    ensures
        r@ == reconciled(provider_id@, api_key@, base_url@),
{
    proof {
        lemma_vendor_names_differ();
    }
    let key = trim(api_key);
    let deepseek_key: bool = starts_with(key, "sk-");
    let openai_key: bool = starts_with(key, "sk-proj-") || starts_with(key, "sk-or-");
    let ark_host: bool = contains_text(base_url, "volces.com") || contains_text(
        base_url,
        "volcengine",
    );
    let deepseek_host: bool = contains_text(base_url, "api.deepseek.com");
    let is_ark: bool = same_text(provider_id, "ark");
    let is_deepseek: bool = same_text(provider_id, "deepseek");
    let wants_deepseek: bool = (deepseek_key && !openai_key && ark_host) || (is_ark && deepseek_key
        && ark_host) || (is_deepseek && ark_host);
    if wants_deepseek {
        if let Some(default) = llm_provider_default_endpoint("deepseek") {
            return default.to_owned();
        }
    }
    if is_ark && deepseek_host && !deepseek_key {
        if let Some(default) = llm_provider_default_endpoint("ark") {
            return default.to_owned();
        }
    }
    base_url.to_owned()
}

proof fn lemma_vendor_names_differ()
    ensures
        "ark"@ != "deepseek"@,
        default_endpoint("deepseek"@) == Some("https://api.deepseek.com/v1"@),
        default_endpoint("ark"@) == Some("https://ark.cn-beijing.volces.com/api/v3"@),
{
    reveal_strlit("ark");
    reveal_strlit("deepseek");
    assert("ark"@.len() != "deepseek"@.len());
}

/// A key that reads like DeepSeek's is not sent to the Volcengine host, unless it also reads
/// like an OpenAI key and belongs to neither vendor.
pub proof fn a_deepseek_key_never_reaches_ark(
    provider: Seq<char>,
    api_key: Seq<char>,
    base_url: Seq<char>,
)
    requires
        "sk-"@.is_prefix_of(trimmed(api_key)),
        provider == "ark"@ || provider == "deepseek"@ || !("sk-proj-"@.is_prefix_of(
            trimmed(api_key),
        ) || "sk-or-"@.is_prefix_of(trimmed(api_key))),
        occurs_in("volces.com"@, base_url) || occurs_in("volcengine"@, base_url),
    ensures
        reconciled(provider, api_key, base_url) == "https://api.deepseek.com/v1"@,
{
}

/// A lacking key: a known address needs one, and so does the lack of any.
pub open spec fn key_failure(
    provider: Seq<char>,
    api_key: Seq<char>,
    endpoint: Option<Seq<char>>,
) -> Option<ProviderConfigError> {
    if blank(api_key) && (endpoint is None || needs_key(provider, endpoint->0)) {
        Some(ProviderConfigError::ApiKeyEmpty)
    } else {
        None
    }
}

/// The address that is used: a stored one, or the Volcengine one.
pub open spec fn address_or_default(endpoint: Option<Seq<char>>) -> Seq<char> {
    match endpoint {
        Some(address) => address,
        None => "https://ark.cn-beijing.volces.com/api/v3/chat/completions"@,
    }
}

/// The address of a model: the one given, or the Volcengine one.
pub fn resolve_ark_endpoint_with_policy(
    provider_id: &str,
    api_key: &str,
    endpoint: Option<String>,
) -> (r: Result<String, ProviderConfigError>)
    ensures
        fails_with(r, key_failure(provider_id@, api_key@, string_of(endpoint))),
        r matches Ok(address) ==> address@ == address_or_default(string_of(endpoint)),
{
    if is_blank(api_key) {
        match &endpoint {
            Some(value) => {
                if llm_default_endpoint_requires_api_key(provider_id, value.as_str()) {
                    return Err(ProviderConfigError::ApiKeyEmpty);
                }
            },
            None => {
                return Err(ProviderConfigError::ApiKeyEmpty);
            },
        }
    }
    match endpoint {
        Some(value) => Ok(value),
        None => Ok("https://ark.cn-beijing.volces.com/api/v3/chat/completions".to_owned()),
    }
}

fn nonblank(value: Option<String>) -> (r: Option<String>)
    ensures
        r == (match value {
            Some(v) if !blank(v@) => Some(v),
            _ => None,
        }),
{
    match value {
        Some(v) => if is_blank(v.as_str()) {
            None
        } else {
            Some(v)
        },
        None => None,
    }
}

/// The address of a model as it is stored, or the Volcengine one.
pub fn resolve_ark_endpoint(store: &CredentialSnapshot, provider_id: &str, api_key: &str) -> (r:
    Result<String, ProviderConfigError>)
    ensures
        fails_with(
            r,
            first_of(
                unreadable(store.ark_endpoint),
                key_failure(provider_id@, api_key@, stored_text(store.ark_endpoint)),
            ),
        ),
        r matches Ok(address) ==> address@ == address_or_default(stored_text(store.ark_endpoint)),
{
    match read_stored(&store.ark_endpoint) {
        Ok(value) => resolve_ark_endpoint_with_policy(provider_id, api_key, nonblank(value)),
        Err(error) => Err(error),
    }
}

/// The name under which the program presents itself to a model.
pub const LLM_DISPLAY_NAME: &'static str = "Listener Type LLM";

/// How a model is reached.
#[derive(Debug)]
pub enum ActiveLlmConfig {
    /// Through the user's account with the provider.
    Codex { codex_model: String, codex_proxy: StoredProxyConfig, codex_thinking: bool },
    /// Through the OpenAI protocol.
    OpenAi {
        provider_id: String,
        display_name: &'static str,
        base_url: String,
        api_key: String,
        model: String,
        proxy: StoredProxyConfig,
        thinking_enabled: bool,
    },
}

/// What the program knows of the provider that is reached through the user's account.
#[derive(Clone, Copy, Debug)]
pub struct CodexProvider {
    pub id: &'static str,
    pub default_model: &'static str,
}

/// The base of an address: without the path of the completion call and slashes at its end.
pub open spec fn base_of(endpoint: Seq<char>) -> Seq<char> {
    trim_trailing(trim_trailing(endpoint, "/chat/completions"@), "/"@)
}

/// A stored name of a model, or `default`.
pub open spec fn model_or(store: CredentialSnapshot, default: Seq<char>) -> Seq<char> {
    match stored_text(store.ark_model_id) {
        Some(name) => name,
        None => default,
    }
}

/// What can go wrong when the model in use is configured.
pub open spec fn active_failure(store: CredentialSnapshot, codex: CodexProvider) -> Option<
    ProviderConfigError,
> {
    let proxy = proxy_failure(store.llm_proxy_mode, store.llm_proxy_url);
    first_of(
        unreadable(store.ark_model_id),
        if store.active_llm@ == codex.id@ {
            proxy
        } else {
            first_of(
                unreadable(store.ark_api_key),
                first_of(
                    first_of(
                        unreadable(store.ark_endpoint),
                        key_failure(
                            store.active_llm@,
                            clean_key(stored_or_empty(store.ark_api_key)),
                            stored_text(store.ark_endpoint),
                        ),
                    ),
                    proxy,
                ),
            )
        },
    )
}

impl ActiveLlmConfig {
    /// Whether this is how the model in use is reached.
    pub open spec fn holds(
        self,
        store: CredentialSnapshot,
        codex: CodexProvider,
        thinking: bool,
    ) -> bool {
        let key = clean_key(stored_or_empty(store.ark_api_key));
        match self {
            ActiveLlmConfig::Codex { codex_model, codex_proxy, codex_thinking } => {
                &&& store.active_llm@ == codex.id@
                &&& codex_model@ == model_or(store, codex.default_model@)
                &&& codex_proxy.holds(
                    store.active_llm@,
                    store.llm_proxy_mode,
                    store.llm_proxy_url,
                )
                &&& codex_thinking == thinking
            },
            ActiveLlmConfig::OpenAi {
                provider_id,
                display_name,
                base_url,
                api_key,
                model,
                proxy,
                thinking_enabled,
            } => {
                &&& store.active_llm@ != codex.id@
                &&& provider_id@ == store.active_llm@
                &&& display_name@ == "Listener Type LLM"@
                &&& base_url@ == reconciled(
                    store.active_llm@,
                    key,
                    base_of(address_or_default(stored_text(store.ark_endpoint))),
                )
                &&& api_key@ == key
                &&& model@ == model_or(store, "deepseek-v3-2"@)
                &&& proxy.holds(store.active_llm@, store.llm_proxy_mode, store.llm_proxy_url)
                &&& thinking_enabled == thinking
            },
        }
    }

    /// Whether the model can type while it writes; the user's account cannot.
    pub fn supports_streaming_polish(&self) -> (r: bool)
        ensures
            r == (*self is OpenAi),
    {
        match self {
            ActiveLlmConfig::Codex { .. } => false,
            ActiveLlmConfig::OpenAi { .. } => true,
        }
    }
}

/// Configures the model that is in use.
pub fn build_active_llm_provider(
    store: &CredentialSnapshot,
    codex: CodexProvider,
    llm_thinking_enabled: bool,
) -> (r: Result<ActiveLlmConfig, ProviderConfigError>)
    ensures
        fails_with(r, active_failure(*store, codex)),
        r matches Ok(config) ==> config.holds(*store, codex, llm_thinking_enabled),
{
    let active = store.active_llm.as_str();
    let model: Option<String> = match read_stored(&store.ark_model_id) {
        Ok(value) => nonblank(value),
        Err(error) => {
            return Err(error);
        },
    };
    if same_text(active, codex.id) {
        let model: String = match model {
            Some(m) => m,
            None => codex.default_model.to_owned(),
        };
        return match read_llm_proxy_config(store, active) {
            Ok(proxy) => Ok(
                ActiveLlmConfig::Codex {
                    codex_model: model,
                    codex_proxy: proxy,
                    codex_thinking: llm_thinking_enabled,
                },
            ),
            Err(error) => Err(error),
        };
    }
    let stored_key: Option<String> = match read_stored(&store.ark_api_key) {
        Ok(value) => value,
        Err(error) => {
            return Err(error);
        },
    };
    let raw_key: String = match stored_key {
        Some(k) => k,
        None => String::new(),
    };
    let api_key: String = sanitize_llm_api_key(raw_key.as_str());
    let model: String = match model {
        Some(m) => m,
        None => "deepseek-v3-2".to_owned(),
    };
    let endpoint: String = match resolve_ark_endpoint(store, active, api_key.as_str()) {
        Ok(e) => e,
        Err(error) => {
            return Err(error);
        },
    };
    proof {
        reveal_strlit("/");
        reveal_strlit("/chat/completions");
    }
    let base = trim_end_matches(trim_end_matches(endpoint.as_str(), "/chat/completions"), "/");
    let base_url: String = reconcile_llm_base_url_for_key(active, api_key.as_str(), base);
    match read_llm_proxy_config(store, active) {
        Ok(proxy) => Ok(
            ActiveLlmConfig::OpenAi {
                provider_id: store.active_llm.clone(),
                display_name: LLM_DISPLAY_NAME,
                base_url,
                api_key,
                model,
                proxy,
                thinking_enabled: llm_thinking_enabled,
            },
        ),
        Err(error) => Err(error),
    }
}

/// Whether a raw style is more than the built-in one, and so needs a model.
pub fn raw_style_pack_uses_llm(pack: &StylePack, builtin_raw_id: &str, builtin_raw_prompt: &str) -> (r:
    bool)
    ensures
        r == !is_builtin_raw(*pack, builtin_raw_id@, builtin_raw_prompt@),
{
    !(pack.kind == StylePackKind::Builtin && same_text(pack.id.as_str(), builtin_raw_id)
        && same_text(pack.prompt.as_str(), builtin_raw_prompt))
}

/// Whether a style is the raw one that came with the program, unchanged.
pub open spec fn is_builtin_raw(pack: StylePack, id: Seq<char>, prompt: Seq<char>) -> bool {
    pack.kind == StylePackKind::Builtin && pack.id@ == id && pack.prompt@ == prompt
}

/// Whether a raw prompt is more than the built-in one, and so needs a model.
pub fn raw_mode_uses_llm(style_system_prompt: &str, builtin_raw_prompt: &str) -> (r: bool)
    ensures
        r == (style_system_prompt@ != builtin_raw_prompt@),
{
    !same_text(style_system_prompt, builtin_raw_prompt)
}

/// Whether a text goes out as it was spoken: the style is raw, and its prompt is the built-in
/// one.
pub open spec fn passes_through(
    mode: PolishMode,
    style_system_prompt: Seq<char>,
    builtin_raw_prompt: Seq<char>,
) -> bool {
    mode == PolishMode::Raw && style_system_prompt == builtin_raw_prompt
}

/// What became of a polish that types while the model writes.
#[derive(Debug)]
pub enum StreamingPolishOutcome {
    /// The whole text went out while it was written.
    Streamed(String),
    /// This configuration does not stream; the text is polished in one piece.
    UnsupportedFallback,
    /// The model failed; the reason is given.
    Failed(String),
}

/// Where a polish that types while the model writes stands once everything is known but the
/// model's answer.
#[derive(Debug)]
pub enum StreamingPolishStart {
    /// Nobody is asked.
    Settled(StreamingPolishOutcome),
    /// The model is asked, under the fingerprint of its credentials.
    Ask { config: ActiveLlmConfig, fingerprint: Option<u64> },
}

/// The fingerprint of readable credentials.
pub open spec fn known_fingerprint(store: CredentialSnapshot) -> Option<u64> {
    if fingerprint_failure(store) is None {
        Some(fingerprint_of(store))
    } else {
        None
    }
}

/// Whether the credentials in use were refused before.
pub open spec fn refused_before(store: CredentialSnapshot, circuit: LlmAuthFailureCircuit) -> bool {
    known_fingerprint(store) is Some && circuit.rejected_fingerprint == known_fingerprint(store)
}

/// The words for credentials that were refused before.
pub open spec fn refused_words() -> Seq<char> {
    "current LLM credentials were already rejected"@
}

/// The words of a failure to configure a model.
pub open spec fn config_words(error: ProviderConfigError) -> Seq<char> {
    match error {
        ProviderConfigError::StoreUnreadable(reason) => reason@,
        ProviderConfigError::ApiKeyEmpty => "API Key 为空"@,
    }
}

/// Begins a polish that types while the model writes.  A text that goes out as it was spoken,
/// the Gemini protocol and the user's account do not stream; refused credentials are not tried
/// again.
pub fn polish_or_passthrough_streaming(
    store: &CredentialSnapshot,
    circuit: &LlmAuthFailureCircuit,
    mode: PolishMode,
    style_system_prompt: &str,
    builtin_raw_prompt: &str,
    codex: CodexProvider,
    llm_thinking_enabled: bool,
) -> (r: StreamingPolishStart)
    ensures
        ({
            let unsupported = passes_through(mode, style_system_prompt@, builtin_raw_prompt@)
                || store.active_llm@ == "gemini"@;
            let refused = refused_before(*store, *circuit);
            let failure = active_failure(*store, codex);
            if unsupported {
                r == StreamingPolishStart::Settled(StreamingPolishOutcome::UnsupportedFallback)
            } else if refused {
                r matches StreamingPolishStart::Settled(
                    StreamingPolishOutcome::Failed(reason),
                ) && reason@ == refused_words()
            } else if failure is Some {
                r matches StreamingPolishStart::Settled(
                    StreamingPolishOutcome::Failed(reason),
                ) && reason@ == config_words(failure->0)
            } else if store.active_llm@ == codex.id@ {
                r == StreamingPolishStart::Settled(StreamingPolishOutcome::UnsupportedFallback)
            } else {
                r matches StreamingPolishStart::Ask { config, fingerprint } && config.holds(
                    *store,
                    codex,
                    llm_thinking_enabled,
                ) && config is OpenAi && fingerprint == known_fingerprint(*store)
            }
        }),
{
    if mode == PolishMode::Raw && !raw_mode_uses_llm(style_system_prompt, builtin_raw_prompt) {
        return StreamingPolishStart::Settled(StreamingPolishOutcome::UnsupportedFallback);
    }
    if same_text(store.active_llm.as_str(), "gemini") {
        return StreamingPolishStart::Settled(StreamingPolishOutcome::UnsupportedFallback);
    }
    let fingerprint: Option<u64> = match current_llm_auth_fingerprint(store) {
        Ok(known) => Some(known),
        Err(_) => None,
    };
    if let Some(known) = fingerprint {
        if current_llm_auth_is_rejected(circuit, known) {
            return StreamingPolishStart::Settled(
                StreamingPolishOutcome::Failed(
                    "current LLM credentials were already rejected".to_owned(),
                ),
            );
        }
    }
    match build_active_llm_provider(store, codex, llm_thinking_enabled) {
        Err(error) => StreamingPolishStart::Settled(
            StreamingPolishOutcome::Failed(error.message()),
        ),
        Ok(config) => {
            if config.supports_streaming_polish() {
                StreamingPolishStart::Ask { config, fingerprint }
            } else {
                StreamingPolishStart::Settled(StreamingPolishOutcome::UnsupportedFallback)
            }
        },
    }
}

/// Whether a failure refuses the credentials.
pub open spec fn refuses_credentials(error: LlmError) -> bool {
    error matches LlmError::InvalidResponse { status, .. } && (status == 401 || status == 403)
}

/// The words of a failure.
pub open spec fn failure_words(error: LlmError) -> Seq<char> {
    match error {
        LlmError::InvalidResponse { status, detail } => detail@,
        LlmError::Other(detail) => detail@,
    }
}

fn words_of(error: LlmError) -> (r: String)
    ensures
        r@ == failure_words(error),
{
    match error {
        LlmError::InvalidResponse { status: _, detail } => detail,
        LlmError::Other(detail) => detail,
    }
}

/// The circuit after an answer of the model: a refusal of known credentials is remembered.
pub open spec fn circuit_after(
    circuit: LlmAuthFailureCircuit,
    fingerprint: Option<u64>,
    answer: Result<String, LlmError>,
) -> LlmAuthFailureCircuit {
    if answer is Err && refuses_credentials(answer->Err_0) && fingerprint is Some {
        LlmAuthFailureCircuit { rejected_fingerprint: fingerprint, ..circuit }
    } else {
        circuit
    }
}

fn note_answer(
    circuit: &mut LlmAuthFailureCircuit,
    fingerprint: Option<u64>,
    answer: &Result<String, LlmError>,
)
    ensures
        *final(circuit) == circuit_after(*old(circuit), fingerprint, *answer),
{
    if let Err(error) = answer {
        if llm_error_is_auth_rejection(error) {
            if let Some(known) = fingerprint {
                note_llm_auth_rejection(circuit, known);
            }
        }
    }
}

/// What a streamed answer of the model means.
pub fn settle_streaming_polish(
    circuit: &mut LlmAuthFailureCircuit,
    fingerprint: Option<u64>,
    answer: Result<String, LlmError>,
) -> (r: StreamingPolishOutcome)
    ensures
        *final(circuit) == circuit_after(*old(circuit), fingerprint, answer),
        answer matches Ok(text) ==> r == StreamingPolishOutcome::Streamed(text),
        answer matches Err(error) ==> (r matches StreamingPolishOutcome::Failed(reason) && reason@
            == failure_words(error)),
{
    note_answer(circuit, fingerprint, &answer);
    match answer {
        Ok(text) => StreamingPolishOutcome::Streamed(text),
        Err(error) => StreamingPolishOutcome::Failed(words_of(error)),
    }
}

/// A question that is put to a model.
#[derive(Debug)]
pub enum LlmCall {
    /// Through Gemini's own protocol.
    Gemini { credentials: GeminiCredentials, gemini_proxy: StoredProxyConfig, gemini_thinking: bool },
    /// Through the model in use.
    Active(ActiveLlmConfig),
}

/// What can go wrong when a question is prepared.
pub open spec fn call_failure(store: CredentialSnapshot, codex: CodexProvider) -> Option<
    ProviderConfigError,
> {
    if store.active_llm@ == "gemini"@ {
        first_of(gemini_failure(store), proxy_failure(store.llm_proxy_mode, store.llm_proxy_url))
    } else {
        active_failure(store, codex)
    }
}

impl LlmCall {
    /// Whether this is how the model in use is asked.
    pub open spec fn holds(
        self,
        store: CredentialSnapshot,
        codex: CodexProvider,
        thinking: bool,
    ) -> bool {
        match self {
            LlmCall::Gemini { credentials, gemini_proxy, gemini_thinking } => {
                &&& store.active_llm@ == "gemini"@
                &&& credentials.holds(store)
                &&& gemini_proxy.holds(
                    store.active_llm@,
                    store.llm_proxy_mode,
                    store.llm_proxy_url,
                )
                &&& gemini_thinking == thinking
            },
            LlmCall::Active(config) => {
                &&& store.active_llm@ != "gemini"@
                &&& config.holds(store, codex, thinking)
            },
        }
    }
}

fn prepare_call(store: &CredentialSnapshot, codex: CodexProvider, llm_thinking_enabled: bool) -> (r:
    Result<LlmCall, ProviderConfigError>)
    ensures
        fails_with(r, call_failure(*store, codex)),
        r matches Ok(call) ==> call.holds(*store, codex, llm_thinking_enabled),
{
    let active = store.active_llm.as_str();
    if same_text(active, "gemini") {
        let credentials: GeminiCredentials = match read_gemini_credentials(store) {
            Ok(c) => c,
            Err(error) => {
                return Err(error);
            },
        };
        return match read_llm_proxy_config(store, active) {
            Ok(proxy) => Ok(
                LlmCall::Gemini {
                    credentials,
                    gemini_proxy: proxy,
                    gemini_thinking: llm_thinking_enabled,
                },
            ),
            Err(error) => Err(error),
        };
    }
    match build_active_llm_provider(store, codex, llm_thinking_enabled) {
        Ok(config) => Ok(LlmCall::Active(config)),
        Err(error) => Err(error),
    }
}

/// Prepares a translation.
pub fn translate_text(
    store: &CredentialSnapshot,
    codex: CodexProvider,
    llm_thinking_enabled: bool,
) -> (r: Result<LlmCall, ProviderConfigError>)
    ensures
        fails_with(r, call_failure(*store, codex)),
        r matches Ok(call) ==> call.holds(*store, codex, llm_thinking_enabled),
{
    prepare_call(store, codex, llm_thinking_enabled)
}

/// Prepares an answer to a spoken question.
pub fn answer_chat_dispatch(
    store: &CredentialSnapshot,
    codex: CodexProvider,
    llm_thinking_enabled: bool,
) -> (r: Result<LlmCall, ProviderConfigError>)
    ensures
        fails_with(r, call_failure(*store, codex)),
        r matches Ok(call) ==> call.holds(*store, codex, llm_thinking_enabled),
{
    prepare_call(store, codex, llm_thinking_enabled)
}

/// Why a polish was not put to a model.
#[derive(Debug)]
pub enum PolishRefusal {
    Config(ProviderConfigError),
    /// The credentials were refused before; nobody is asked again.
    RefusedBefore,
}

impl PolishRefusal {
    /// The words of the refusal.
    pub open spec fn words(self) -> Seq<char> {
        match self {
            PolishRefusal::Config(error) => config_words(error),
            PolishRefusal::RefusedBefore => refused_words(),
        }
    }

    /// The words of the refusal.
    pub fn message(&self) -> (r: String)
        ensures
            r@ == self.words(),
    {
        match self {
            PolishRefusal::Config(error) => error.message(),
            PolishRefusal::RefusedBefore => "current LLM credentials were already rejected".to_owned(),
        }
    }
}

/// What keeps a polish from being put to a model.
pub open spec fn polish_refusal(
    store: CredentialSnapshot,
    circuit: LlmAuthFailureCircuit,
    codex: CodexProvider,
) -> Option<PolishRefusal> {
    let guarded = store.active_llm@ != "gemini"@;
    if guarded && fingerprint_failure(store) is Some {
        Some(PolishRefusal::Config(fingerprint_failure(store)->0))
    } else if guarded && refused_before(store, circuit) {
        Some(PolishRefusal::RefusedBefore)
    } else if call_failure(store, codex) is Some {
        Some(PolishRefusal::Config(call_failure(store, codex)->0))
    } else {
        None
    }
}

/// Prepares a one-piece polish.  Gemini's credentials are not watched; those of every other
/// provider are, and refused ones are not tried again.
pub fn polish_text(
    store: &CredentialSnapshot,
    circuit: &LlmAuthFailureCircuit,
    codex: CodexProvider,
    llm_thinking_enabled: bool,
) -> (r: Result<(LlmCall, Option<u64>), PolishRefusal>)
    ensures
        match r {
            Ok((call, fingerprint)) => {
                &&& polish_refusal(*store, *circuit, codex) is None
                &&& call.holds(*store, codex, llm_thinking_enabled)
                &&& fingerprint == (if store.active_llm@ == "gemini"@ {
                    None
                } else {
                    known_fingerprint(*store)
                })
            },
            Err(refusal) => polish_refusal(*store, *circuit, codex) == Some(refusal),
        },
{
    let mut fingerprint: Option<u64> = None;
    if !same_text(store.active_llm.as_str(), "gemini") {
        match current_llm_auth_fingerprint(store) {
            Ok(known) => {
                if current_llm_auth_is_rejected(circuit, known) {
                    return Err(PolishRefusal::RefusedBefore);
                }
                fingerprint = Some(known);
            },
            Err(error) => {
                return Err(PolishRefusal::Config(error));
            },
        }
    }
    match prepare_call(store, codex, llm_thinking_enabled) {
        Ok(call) => Ok((call, fingerprint)),
        Err(error) => Err(PolishRefusal::Config(error)),
    }
}

/// What came back from an attempt to polish or to translate.
#[derive(Debug)]
pub enum LlmAttempt {
    /// Nobody was asked.
    NotAsked(PolishRefusal),
    /// The model answered.
    Answered(Result<String, LlmError>),
}

/// The text after an attempt, and why it is not the model's.
pub open spec fn attempt_text(raw: Seq<char>, attempt: LlmAttempt) -> (Seq<char>, Option<Seq<char>>) {
    match attempt {
        LlmAttempt::NotAsked(refusal) => (raw, Some(refusal.words())),
        LlmAttempt::Answered(Ok(text)) => (text@, None),
        LlmAttempt::Answered(Err(error)) => (raw, Some(failure_words(error))),
    }
}

fn settle_attempt(raw: &str, attempt: LlmAttempt) -> (r: (String, Option<String>))
    ensures
        (r.0@, string_of(r.1)) == attempt_text(raw@, attempt),
{
    match attempt {
        LlmAttempt::NotAsked(refusal) => (raw.to_owned(), Some(refusal.message())),
        LlmAttempt::Answered(Ok(text)) => (text, None),
        LlmAttempt::Answered(Err(error)) => (raw.to_owned(), Some(words_of(error))),
    }
}

/// The text of a one-piece polish: the model's, or the words as they were spoken together with
/// the reason.  A text that goes out as it was spoken is no failure.  `fingerprint` names the
/// credentials that the model was asked with.
pub fn polish_or_passthrough(
    circuit: &mut LlmAuthFailureCircuit,
    raw: &str,
    mode: PolishMode,
    style_system_prompt: &str,
    builtin_raw_prompt: &str,
    fingerprint: Option<u64>,
    attempt: LlmAttempt,
) -> (r: (String, Option<String>))
    ensures
        ({
            let through = passes_through(mode, style_system_prompt@, builtin_raw_prompt@);
            &&& (r.0@, string_of(r.1)) == (if through {
                (raw@, None)
            } else {
                attempt_text(raw@, attempt)
            })
            &&& *final(circuit) == (if through || attempt is NotAsked {
                *old(circuit)
            } else {
                circuit_after(*old(circuit), fingerprint, attempt->Answered_0)
            })
        }),
{
    if mode == PolishMode::Raw && !raw_mode_uses_llm(style_system_prompt, builtin_raw_prompt) {
        return (raw.to_owned(), None);
    }
    if let LlmAttempt::Answered(answer) = &attempt {
        note_answer(circuit, fingerprint, answer);
    }
    settle_attempt(raw, attempt)
}

/// The text of a translation: the model's, or the words as they were spoken together with the
/// reason.
pub fn translate_or_passthrough(raw: &str, attempt: LlmAttempt) -> (r: (String, Option<String>))
    ensures
        (r.0@, string_of(r.1)) == attempt_text(raw@, attempt),
{
    settle_attempt(raw, attempt)
}

/// No word is lost: whenever the model's text cannot be had, the spoken words remain and the
/// reason is known; a model's text comes without a reason.
pub proof fn no_word_is_lost(raw: Seq<char>, attempt: LlmAttempt)
    ensures
        attempt_text(raw, attempt).1 is Some ==> attempt_text(raw, attempt).0 == raw,
        attempt_text(raw, attempt).1 is None <==> attempt matches LlmAttempt::Answered(Ok(_)),
{
}

/// Once a refusal of known credentials is remembered, the same credentials are not tried again,
/// neither in one piece nor while the model writes.
pub proof fn refused_credentials_are_not_tried_again(
    store: CredentialSnapshot,
    circuit: LlmAuthFailureCircuit,
    codex: CodexProvider,
    answer: Result<String, LlmError>,
)
    requires
        store.active_llm@ != "gemini"@,
        fingerprint_failure(store) is None,
        answer is Err,
        refuses_credentials(answer->Err_0),
    ensures
        ({
            let after = circuit_after(circuit, known_fingerprint(store), answer);
            &&& refused_before(store, after)
            &&& polish_refusal(store, after, codex) == Some(PolishRefusal::RefusedBefore)
        }),
{
}

/// A text of the history that is to be polished again.
#[derive(Debug)]
pub enum RepolishStep {
    /// The style needs no model; the text stays as it is.
    Unchanged(String),
    /// The text goes to a model in this mode, without other texts as context.
    Polish { raw_text: String, mode: PolishMode },
}

/// Decides how a text of the history is polished again: in the mode of the active style, alone.
pub fn repolish(
    raw_text: String,
    pack: &StylePack,
    builtin_raw_id: &str,
    builtin_raw_prompt: &str,
) -> (r: RepolishStep)
    ensures
        r == (if pack.base_mode == PolishMode::Raw && is_builtin_raw(
            *pack,
            builtin_raw_id@,
            builtin_raw_prompt@,
        ) {
            RepolishStep::Unchanged(raw_text)
        } else {
            RepolishStep::Polish { raw_text, mode: pack.base_mode }
        }),
{
    if pack.base_mode == PolishMode::Raw && !raw_style_pack_uses_llm(
        pack,
        builtin_raw_id,
        builtin_raw_prompt,
    ) {
        return RepolishStep::Unchanged(raw_text);
    }
    RepolishStep::Polish { raw_text, mode: pack.base_mode }
}

/// The parts of a prompt that was put together.
#[derive(Debug)]
pub struct AssembledPrompt {
    pub context_premise: String,
    pub hotword_block: String,
    pub history_instruction: String,
    pub effective_system_prompt: String,
    pub includes_context_premise: bool,
    pub includes_hotword_block: bool,
    pub includes_history_instruction: bool,
}

/// What the settings show of a style as it would be used.
#[derive(Debug)]
pub struct StylePackRuntimeDiagnostics {
    pub pack_id: String,
    pub pack_name: String,
    pub pack_prompt: String,
    pub pack_prompt_chars: usize,
    pub context_premise: String,
    pub context_premise_chars: usize,
    pub hotword_block: String,
    pub hotword_block_chars: usize,
    pub history_instruction: String,
    pub history_instruction_chars: usize,
    pub single_turn_prompt: String,
    pub single_turn_prompt_chars: usize,
    pub multi_turn_prompt: String,
    pub multi_turn_prompt_chars: usize,
    pub working_languages: Vec<String>,
    pub hotwords: Vec<String>,
    pub context_window_minutes: u32,
    pub includes_context_premise: bool,
    pub includes_hotword_block: bool,
    pub includes_history_instruction: bool,
    pub preview_omits_front_app: bool,
}

/// Shows a style as it would be used: the prompt for a single text, the one for a text with its
/// history, their parts, and how long they are.
pub fn preview_style_pack_runtime(
    pack: &StylePack,
    single_turn: AssembledPrompt,
    multi_turn: AssembledPrompt,
    working_languages: Vec<String>,
    hotwords: Vec<String>,
    context_window_minutes: u32,
) -> (r: StylePackRuntimeDiagnostics)
    ensures
        r.pack_id == pack.id,
        r.pack_name == pack.name,
        r.pack_prompt == pack.prompt,
        r.pack_prompt_chars == pack.prompt@.len(),
        r.context_premise == single_turn.context_premise,
        r.context_premise_chars == single_turn.context_premise@.len(),
        r.hotword_block == single_turn.hotword_block,
        r.hotword_block_chars == single_turn.hotword_block@.len(),
        r.history_instruction == multi_turn.history_instruction,
        r.history_instruction_chars == multi_turn.history_instruction@.len(),
        r.single_turn_prompt == single_turn.effective_system_prompt,
        r.single_turn_prompt_chars == single_turn.effective_system_prompt@.len(),
        r.multi_turn_prompt == multi_turn.effective_system_prompt,
        r.multi_turn_prompt_chars == multi_turn.effective_system_prompt@.len(),
        r.working_languages == working_languages,
        r.hotwords == hotwords,
        r.context_window_minutes == context_window_minutes,
        r.includes_context_premise == single_turn.includes_context_premise,
        r.includes_hotword_block == single_turn.includes_hotword_block,
        r.includes_history_instruction == multi_turn.includes_history_instruction,
        r.preview_omits_front_app,
{
    StylePackRuntimeDiagnostics {
        pack_id: pack.id.clone(),
        pack_name: pack.name.clone(),
        pack_prompt_chars: pack.prompt.as_str().unicode_len(),
        pack_prompt: pack.prompt.clone(),
        context_premise_chars: single_turn.context_premise.as_str().unicode_len(),
        context_premise: single_turn.context_premise,
        hotword_block_chars: single_turn.hotword_block.as_str().unicode_len(),
        hotword_block: single_turn.hotword_block,
        history_instruction_chars: multi_turn.history_instruction.as_str().unicode_len(),
        history_instruction: multi_turn.history_instruction,
        single_turn_prompt_chars: single_turn.effective_system_prompt.as_str().unicode_len(),
        single_turn_prompt: single_turn.effective_system_prompt,
        multi_turn_prompt_chars: multi_turn.effective_system_prompt.as_str().unicode_len(),
        multi_turn_prompt: multi_turn.effective_system_prompt,
        working_languages,
        hotwords,
        context_window_minutes,
        includes_context_premise: single_turn.includes_context_premise,
        includes_hotword_block: single_turn.includes_hotword_block,
        includes_history_instruction: multi_turn.includes_history_instruction,
        preview_omits_front_app: true,
    }
}

/// Comparing addresses is an equivalence.
pub proof fn sameness_of_addresses_is_an_equivalence(a: Seq<char>, b: Seq<char>, c: Seq<char>)
    ensures
        endpoint_key(a) == endpoint_key(a),
        endpoint_key(a) == endpoint_key(b) ==> endpoint_key(b) == endpoint_key(a),
        endpoint_key(a) == endpoint_key(b) && endpoint_key(b) == endpoint_key(c) ==> endpoint_key(
            a,
        ) == endpoint_key(c),
{
}

/// A cleaned key has no white space at its ends.
pub proof fn a_cleaned_key_is_trimmed(raw: Seq<char>)
    ensures
        trimmed(clean_key(raw)) == clean_key(raw),
{
    let bare = trimmed(unquoted_end(unquoted_start(trimmed(raw))));
    let rest = if "Bearer "@.is_prefix_of(bare) {
        bare.skip("Bearer "@.len() as int)
    } else if "bearer "@.is_prefix_of(bare) {
        bare.skip("bearer "@.len() as int)
    } else {
        bare
    };
    crate::text::trimming_settles(rest);
}

/// Choosing the address for a key a second time changes nothing: what was chosen goes with the key.
pub proof fn choosing_an_address_again_changes_nothing(
    provider: Seq<char>,
    api_key: Seq<char>,
    base_url: Seq<char>,
)
    ensures
        reconciled(provider, api_key, reconciled(provider, api_key, base_url)) == reconciled(
            provider,
            api_key,
            base_url,
        ),
{
    lemma_vendor_names_differ();
    lemma_deepseek_is_not_ark();
}

proof fn lemma_deepseek_is_not_ark()
    ensures
        !occurs_in("volces.com"@, "https://api.deepseek.com/v1"@),
        !occurs_in("volcengine"@, "https://api.deepseek.com/v1"@),
{
    reveal_strlit("https://api.deepseek.com/v1");
    reveal_strlit("volces.com");
    reveal_strlit("volcengine");
    let address = "https://api.deepseek.com/v1"@;
    assert forall|i: int| 0 <= i <= 17 implies #[trigger] address[i] != 'v' by {
        assert(i == 0 || i == 1 || i == 2 || i == 3 || i == 4 || i == 5 || i == 6 || i == 7 || i
            == 8 || i == 9 || i == 10 || i == 11 || i == 12 || i == 13 || i == 14 || i == 15 || i
            == 16 || i == 17);
    }
    assert forall|needle: Seq<char>| needle.len() == 10 && needle[0] == 'v' implies !(
    #[trigger] occurs_in(needle, address)) by {
        assert forall|i: int|
            0 <= i && i + needle.len() <= address.len() implies #[trigger] address.subrange(
            i,
            i + needle.len(),
        ) != needle by {
            assert(address.subrange(i, i + needle.len())[0] == address[i]);
        }
    }
}

/// `text` so many times over.
pub open spec fn repeated(text: Seq<char>, times: nat) -> Seq<char>
    decreases times,
{
    if times == 0 {
        Seq::empty()
    } else {
        repeated(text, (times - 1) as nat) + text
    }
}

/// All ways to write the address of one service lead to the same place: behind its bare form any
/// number of slashes, of paths of the completion call, and of slashes again may follow, with
/// white space around the whole.  Nor does the case of ASCII letters matter.
pub proof fn an_address_may_be_written_in_several_ways(
    address: Seq<char>,
    base: Seq<char>,
    slashes: nat,
    calls: nat,
    more_slashes: nat,
)
    requires
        trimmed(address) == base + repeated("/"@, slashes) + repeated("/chat/completions"@, calls)
            + repeated("/"@, more_slashes),
        !"/"@.is_suffix_of(base),
        !"/chat/completions"@.is_suffix_of(base),
    ensures
        endpoint_key(address) == ascii_lowered(base),
{
    reveal_strlit("/");
    reveal_strlit("/chat/completions");
    let slash = "/"@;
    let call = "/chat/completions"@;
    let with_slashes = base + repeated(slash, slashes);
    let with_calls = with_slashes + repeated(call, calls);
    if calls == 0 {
        lemma_repeated_adds(slash, slashes, more_slashes);
        assert(trimmed(address) =~= base + repeated(slash, slashes + more_slashes));
        lemma_trims_repeated(base, slash, slashes + more_slashes);
    } else {
        assert(repeated(call, calls) == repeated(call, (calls - 1) as nat) + call);
        assert(with_calls.last() == call.last());
        assert(slash.is_suffix_of(with_calls) ==> with_calls.subrange(
            with_calls.len() - 1,
            with_calls.len() as int,
        )[0] == slash[0]);
        lemma_trims_repeated(with_calls, slash, more_slashes);
        if slashes == 0 {
            assert(with_slashes =~= base);
        } else {
            assert(repeated(slash, slashes) == repeated(slash, (slashes - 1) as nat) + slash);
            assert(with_slashes.last() == slash.last());
            assert(call.is_suffix_of(with_slashes) ==> with_slashes.subrange(
                with_slashes.len() - call.len(),
                with_slashes.len() as int,
            )[call.len() - 1] == call[call.len() - 1]);
        }
        lemma_trims_repeated(with_slashes, call, calls);
        lemma_trims_repeated(base, slash, slashes);
    }
}

proof fn lemma_repeated_adds(text: Seq<char>, a: nat, b: nat)
    ensures
        repeated(text, a) + repeated(text, b) == repeated(text, a + b),
    decreases b,
{
    if b == 0 {
        assert(repeated(text, a) + repeated(text, b) =~= repeated(text, a));
    } else {
        lemma_repeated_adds(text, a, (b - 1) as nat);
        assert(repeated(text, a) + repeated(text, b) =~= (repeated(text, a) + repeated(
            text,
            (b - 1) as nat,
        )) + text);
    }
}

proof fn lemma_trims_repeated(s: Seq<char>, text: Seq<char>, times: nat)
    requires
        text.len() > 0,
        !text.is_suffix_of(s),
    ensures
        trim_trailing(s + repeated(text, times), text) == s,
    decreases times,
{
    let all = s + repeated(text, times);
    if times == 0 {
        assert(all =~= s);
    } else {
        let fewer = s + repeated(text, (times - 1) as nat);
        assert(all =~= fewer + text);
        assert(text.is_suffix_of(all)) by {
            assert(all.subrange(all.len() - text.len(), all.len() as int) =~= text);
        }
        assert(all.take(all.len() - text.len()) =~= fewer);
        lemma_trims_repeated(s, text, (times - 1) as nat);
    }
}

/// An address that is on no Volcengine and no DeepSeek host stays the user's own, for every provider
/// and every key.
pub proof fn a_foreign_address_is_kept(
    provider: Seq<char>,
    api_key: Seq<char>,
    base_url: Seq<char>,
)
    requires
        !occurs_in("volces.com"@, base_url),
        !occurs_in("volcengine"@, base_url),
        !occurs_in("api.deepseek.com"@, base_url),
    ensures
        reconciled(provider, api_key, base_url) == base_url,
{
}

/// An address is replaced only to bring a key to its own vendor: a Volcengine address by the DeepSeek
/// one for the DeepSeek provider or a key that starts with `sk-`, and a DeepSeek address by the
/// Volcengine one for the Volcengine provider with any other key.
pub proof fn an_address_is_replaced_only_for_its_vendor(
    provider: Seq<char>,
    api_key: Seq<char>,
    base_url: Seq<char>,
)
    ensures
        ({
            let r = reconciled(provider, api_key, base_url);
            let sk = "sk-"@.is_prefix_of(trimmed(api_key));
            &&& r != base_url ==> r == "https://api.deepseek.com/v1"@ || r
                == "https://ark.cn-beijing.volces.com/api/v3"@
            &&& r != base_url && r == "https://api.deepseek.com/v1"@ ==> (occurs_in(
                "volces.com"@,
                base_url,
            ) || occurs_in("volcengine"@, base_url)) && (sk || provider == "deepseek"@)
            &&& r != base_url && r == "https://ark.cn-beijing.volces.com/api/v3"@ ==> occurs_in(
                "api.deepseek.com"@,
                base_url,
            ) && provider == "ark"@ && !sk
            &&& provider != "ark"@ && provider != "deepseek"@ && !sk ==> r == base_url
            &&& provider != "ark"@ && provider != "deepseek"@ && ("sk-proj-"@.is_prefix_of(
                trimmed(api_key),
            ) || "sk-or-"@.is_prefix_of(trimmed(api_key))) ==> r == base_url
        }),
{
    lemma_addresses_differ();
}

/// The DeepSeek provider never stays on a Volcengine host, and the Volcengine provider with a key of
/// its own never goes to DeepSeek.
pub proof fn a_key_reaches_its_vendor(
    provider: Seq<char>,
    api_key: Seq<char>,
    base_url: Seq<char>,
)
    ensures
        provider == "deepseek"@ && (occurs_in("volces.com"@, base_url) || occurs_in(
            "volcengine"@,
            base_url,
        )) ==> reconciled(provider, api_key, base_url) == "https://api.deepseek.com/v1"@,
        provider == "ark"@ && !"sk-"@.is_prefix_of(trimmed(api_key)) && occurs_in(
            "api.deepseek.com"@,
            base_url,
        ) ==> reconciled(provider, api_key, base_url)
            == "https://ark.cn-beijing.volces.com/api/v3"@,
        provider == "ark"@ && !"sk-"@.is_prefix_of(trimmed(api_key)) && !occurs_in(
            "api.deepseek.com"@,
            base_url,
        ) ==> reconciled(provider, api_key, base_url) == base_url,
        provider == "deepseek"@ && occurs_in("api.deepseek.com"@, base_url) && !occurs_in(
            "volces.com"@,
            base_url,
        ) && !occurs_in("volcengine"@, base_url) ==> reconciled(provider, api_key, base_url)
            == base_url,
{
    lemma_vendor_names_differ();
}

proof fn lemma_addresses_differ()
    ensures
        "https://api.deepseek.com/v1"@ != "https://ark.cn-beijing.volces.com/api/v3"@,
{
    reveal_strlit("https://api.deepseek.com/v1");
    reveal_strlit("https://ark.cn-beijing.volces.com/api/v3");
    assert("https://api.deepseek.com/v1"@.len() != "https://ark.cn-beijing.volces.com/api/v3"@.len());
}

/// Only the known address of a provider needs a key, and so does the lack of any address; a stored
/// address is the one that is used.
pub proof fn only_a_known_address_needs_a_key(
    provider: Seq<char>,
    endpoint: Seq<char>,
    api_key: Seq<char>,
)
    ensures
        default_endpoint(provider) matches Some(known) ==> needs_key(provider, known),
        default_endpoint(provider) is None ==> !needs_key(provider, endpoint),
        !blank(api_key) ==> key_failure(provider, api_key, Some(endpoint)) is None
            && key_failure(provider, api_key, None) is None,
        blank(api_key) ==> key_failure(provider, api_key, None) == Some(
            ProviderConfigError::ApiKeyEmpty,
        ),
        blank(api_key) && default_endpoint(provider) is None ==> key_failure(
            provider,
            api_key,
            Some(endpoint),
        ) is None,
        blank(api_key) && default_endpoint(provider) == Some(endpoint) ==> key_failure(
            provider,
            api_key,
            Some(endpoint),
        ) == Some(ProviderConfigError::ApiKeyEmpty),
        address_or_default(Some(endpoint)) == endpoint,
{
}

/// A key that needs no cleaning is sent as it is.
pub proof fn a_clean_key_is_kept(key: Seq<char>)
    requires
        trimmed(key) == key,
        key.len() > 0 ==> key[0] != '"' && key[0] != '\'' && key.last() != '"' && key.last()
            != '\'',
        !"Bearer "@.is_prefix_of(key),
        !"bearer "@.is_prefix_of(key),
    ensures
        clean_key(key) == key,
{
}

/// A refusal is remembered exactly where the model answered 401 or 403 to credentials that are
/// known, and then for those alone; every other answer leaves the record alone.
pub proof fn only_a_refusal_is_remembered(
    circuit: LlmAuthFailureCircuit,
    fingerprint: Option<u64>,
    answer: Result<String, LlmError>,
)
    ensures
        ({
            let refused = answer matches Err(LlmError::InvalidResponse { status, .. }) && (status
                == 401 || status == 403);
            let after = circuit_after(circuit, fingerprint, answer);
            &&& refused && fingerprint is Some ==> after.rejected_fingerprint == fingerprint
            &&& !refused || fingerprint is None ==> after == circuit
            &&& after.announced == circuit.announced
        }),
{
}

/// A model's text is used as it came; without one the spoken words stand, with the model's own
/// reason or the reason it was not asked for.
pub proof fn a_models_text_is_used(raw: Seq<char>, text: String, error: LlmError)
    ensures
        attempt_text(raw, LlmAttempt::Answered(Ok(text))) == (text@, None::<Seq<char>>),
        attempt_text(raw, LlmAttempt::Answered(Err(error))).0 == raw,
        error matches LlmError::Other(detail) ==> attempt_text(
            raw,
            LlmAttempt::Answered(Err(error)),
        ).1 == Some(detail@),
        error matches LlmError::InvalidResponse { detail, .. } ==> attempt_text(
            raw,
            LlmAttempt::Answered(Err(error)),
        ).1 == Some(detail@),
{
}

/// A text goes out as it was spoken exactly in the raw mode with the prompt that came with the
/// program.
pub proof fn only_the_builtin_raw_style_skips_the_model(
    mode: PolishMode,
    prompt: Seq<char>,
    builtin: Seq<char>,
)
    ensures
        mode != PolishMode::Raw ==> !passes_through(mode, prompt, builtin),
        prompt != builtin ==> !passes_through(mode, prompt, builtin),
        passes_through(PolishMode::Raw, builtin, builtin),
{
}

/// A complete configuration is usable: readable accounts with a key, or with an address of the
/// user's own, do not fail; and an unreadable account always does.
pub proof fn a_complete_configuration_is_usable(store: CredentialSnapshot, codex: CodexProvider)
    ensures
        ({
            let readable = store.ark_model_id is Ok && store.llm_proxy_mode is Ok
                && store.llm_proxy_url is Ok;
            let all = readable && store.ark_api_key is Ok && store.ark_endpoint is Ok;
            &&& store.active_llm@ == codex.id@ ==> (active_failure(store, codex) is None <==> readable)
            &&& store.active_llm@ != codex.id@ && !all ==> active_failure(store, codex) is Some
            &&& store.active_llm@ != codex.id@ && all && !blank(
                clean_key(stored_or_empty(store.ark_api_key)),
            ) ==> active_failure(store, codex) is None
            &&& store.active_llm@ != codex.id@ && all && default_endpoint(store.active_llm@) is None
                && stored_text(store.ark_endpoint) is Some ==> active_failure(store, codex) is None
        }),
{
}

/// The model in use is asked as the user configured it: by name, with the cleaned key, and at the
/// stored address where that is a bare one on neither vendor's host.
pub proof fn the_configured_model_is_asked(
    config: ActiveLlmConfig,
    store: CredentialSnapshot,
    codex: CodexProvider,
    thinking: bool,
)
    requires
        config.holds(store, codex, thinking),
    ensures
        config is Codex <==> store.active_llm@ == codex.id@,
        config matches ActiveLlmConfig::OpenAi {
            provider_id,
            base_url,
            api_key,
            model,
            proxy,
            thinking_enabled,
            ..
        } ==> {
            &&& provider_id@ == store.active_llm@
            &&& thinking_enabled == thinking
            &&& store.ark_api_key matches Ok(Some(key)) ==> api_key@ == clean_key(key@)
            &&& store.ark_model_id matches Ok(Some(name)) ==> !blank(name@) ==> model@ == name@
            &&& store.ark_model_id == Ok::<Option<String>, String>(None) ==> model@
                == "deepseek-v3-2"@
            &&& store.ark_endpoint matches Ok(Some(address)) ==> !blank(address@)
                && !"/"@.is_suffix_of(address@) && !"/chat/completions"@.is_suffix_of(address@)
                && !occurs_in("volces.com"@, address@) && !occurs_in("volcengine"@, address@)
                && !occurs_in("api.deepseek.com"@, address@) ==> base_url@ == address@
            &&& proxy.provider_id@ == store.active_llm@
        },
        config matches ActiveLlmConfig::Codex { codex_model, codex_thinking, .. } ==> {
            &&& codex_thinking == thinking
            &&& store.ark_model_id matches Ok(Some(name)) ==> !blank(name@) ==> codex_model@
                == name@
            &&& store.ark_model_id == Ok::<Option<String>, String>(None) ==> codex_model@
                == codex.default_model@
        },
{
}

/// Only Gemini is asked through its own protocol, and a polish is kept from the model exactly by
/// credentials that cannot be read or were refused before, or by a configuration that fails.
pub proof fn a_polish_is_refused_only_with_cause(
    store: CredentialSnapshot,
    circuit: LlmAuthFailureCircuit,
    codex: CodexProvider,
    call: LlmCall,
    thinking: bool,
)
    ensures
        call.holds(store, codex, thinking) ==> (call is Gemini <==> store.active_llm@
            == "gemini"@),
        polish_refusal(store, circuit, codex) == Some(PolishRefusal::RefusedBefore)
            <==> store.active_llm@ != "gemini"@ && fingerprint_failure(store) is None
            && circuit.rejected_fingerprint == Some(fingerprint_of(store)),
        circuit.rejected_fingerprint is None && store.active_llm@ != "gemini"@
            && fingerprint_failure(store) is None && active_failure(store, codex) is None
            ==> polish_refusal(store, circuit, codex) is None,
        store.active_llm@ == "gemini"@ && gemini_failure(store) is None && store.llm_proxy_mode
            is Ok && store.llm_proxy_url is Ok ==> polish_refusal(store, circuit, codex) is None,
{
}

/// A model that failed is left alone only from the second failure in a row on, for two minutes from
/// the last one, and a failure never shortens a pause.
pub proof fn a_failure_never_shortens_a_pause(circuit: LlmStallCircuit, now: u64, later: u64)
    requires
        circuit.open_until matches Some(until) ==> until <= now + 120_000,
    ensures
        circuit.open_at(later) ==> circuit.failed(now).open_at(later),
        circuit.consecutive_failures == 0 ==> circuit.failed(now).open_until == circuit.open_until,
        circuit.consecutive_failures >= 1 && now + 120_000 <= u64::MAX ==> circuit.failed(
            now,
        ).open_until == Some((now + 120_000) as u64),
        circuit.open_at(later) <==> circuit.open_until is Some && later < circuit.open_until->0,
{
}

/// Every known provider is reached at its own address, and no other name has one.
pub proof fn a_known_provider_has_its_address(provider: Seq<char>)
    ensures
        default_endpoint("ark"@) == Some("https://ark.cn-beijing.volces.com/api/v3"@),
        default_endpoint("deepseek"@) == Some("https://api.deepseek.com/v1"@),
        default_endpoint("siliconflow"@) == Some("https://api.siliconflow.cn/v1"@),
        default_endpoint("openai"@) == Some("https://api.openai.com/v1"@),
        default_endpoint("gemini"@) == Some("https://generativelanguage.googleapis.com/v1beta"@),
        default_endpoint("mimo"@) == Some("https://api.xiaomimimo.com/v1"@),
        default_endpoint("cometapi"@) == Some("https://api.cometapi.com/v1"@),
        default_endpoint("openrouterFree"@) == Some("https://openrouter.ai/api/v1"@),
        default_endpoint("alibabaCoding"@) == Some("https://coding-intl.dashscope.aliyuncs.com/v1"@),
        default_endpoint("codingPlanX"@) == Some("https://api.codingplanx.ai/v1"@),
        default_endpoint(provider) is Some ==> provider == "ark"@ || provider == "deepseek"@
            || provider == "siliconflow"@ || provider == "openai"@ || provider == "gemini"@
            || provider == "mimo"@ || provider == "cometapi"@ || provider == "openrouterFree"@
            || provider == "alibabaCoding"@ || provider == "codingPlanX"@,
{
    reveal_strlit("ark");
    reveal_strlit("deepseek");
    reveal_strlit("siliconflow");
    reveal_strlit("openai");
    reveal_strlit("gemini");
    reveal_strlit("mimo");
    reveal_strlit("cometapi");
    reveal_strlit("openrouterFree");
    reveal_strlit("alibabaCoding");
    reveal_strlit("codingPlanX");
    assert("ark"@.len() == 3 && "ark"@[0] == 'a' && "ark"@[1] == 'r');
    assert("deepseek"@.len() == 8 && "deepseek"@[0] == 'd' && "deepseek"@[1] == 'e');
    assert("siliconflow"@.len() == 11 && "siliconflow"@[0] == 's' && "siliconflow"@[1] == 'i');
    assert("openai"@.len() == 6 && "openai"@[0] == 'o' && "openai"@[1] == 'p');
    assert("gemini"@.len() == 6 && "gemini"@[0] == 'g' && "gemini"@[1] == 'e');
    assert("mimo"@.len() == 4 && "mimo"@[0] == 'm' && "mimo"@[1] == 'i');
    assert("cometapi"@.len() == 8 && "cometapi"@[0] == 'c' && "cometapi"@[1] == 'o');
    assert("openrouterFree"@.len() == 14 && "openrouterFree"@[0] == 'o' && "openrouterFree"@[1] == 'p');
    assert("alibabaCoding"@.len() == 13 && "alibabaCoding"@[0] == 'a' && "alibabaCoding"@[1] == 'l');
    assert("codingPlanX"@.len() == 11 && "codingPlanX"@[0] == 'c' && "codingPlanX"@[1] == 'o');
}

/// A model that is asked over the common protocol is asked under the stored name, with the stored
/// key, model and thinking, and shown under the name of this program.
pub proof fn a_model_is_asked_under_its_own_name(
    config: ActiveLlmConfig,
    store: CredentialSnapshot,
    codex: CodexProvider,
    thinking: bool,
)
    requires
        config.holds(store, codex, thinking),
    ensures
        config is Codex <==> store.active_llm@ == codex.id@,
        config matches ActiveLlmConfig::OpenAi {
            provider_id,
            display_name,
            api_key,
            model,
            thinking_enabled,
            ..
        } ==> provider_id@ == store.active_llm@ && display_name@ == "Listener Type LLM"@ && api_key@
            == clean_key(stored_or_empty(store.ark_api_key)) && model@ == model_or(
            store,
            "deepseek-v3-2"@,
        ) && thinking_enabled == thinking,
        config matches ActiveLlmConfig::Codex { codex_model, codex_thinking, .. } ==> codex_model@
            == model_or(store, codex.default_model@) && codex_thinking == thinking,
{
}

/// A style is the plain one only as it came: built in, under its own name and with its own prompt; a
/// custom copy, another name or a changed prompt makes it another.
pub proof fn a_changed_style_is_no_longer_plain(pack: StylePack, id: Seq<char>, prompt: Seq<char>)
    ensures
        pack.kind == StylePackKind::Custom ==> !is_builtin_raw(pack, id, prompt),
        pack.id@ != id ==> !is_builtin_raw(pack, id, prompt),
        pack.prompt@ != prompt ==> !is_builtin_raw(pack, id, prompt),
        pack.kind == StylePackKind::Builtin ==> is_builtin_raw(pack, pack.id@, pack.prompt@),
{
}

/// Gemini is asked through its own protocol, every other model through its configuration, and each
/// as the user wants it to think.
pub proof fn each_model_is_asked_in_its_protocol(
    call: LlmCall,
    store: CredentialSnapshot,
    codex: CodexProvider,
    thinking: bool,
)
    requires
        call.holds(store, codex, thinking),
    ensures
        call is Gemini <==> store.active_llm@ == "gemini"@,
        call is Gemini ==> call->gemini_thinking == thinking && call->credentials.holds(store),
        call is Active ==> call->Active_0.holds(store, codex, thinking),
{
}

/// A refusal of the credentials is one that the provider answers with 401 or 403, and the words of a
/// failure are its own.
pub proof fn a_refusal_is_told_from_a_failure(status: u16, detail: String)
    ensures
        refuses_credentials(LlmError::InvalidResponse { status, detail }) <==> status == 401
            || status == 403,
        !refuses_credentials(LlmError::Other(detail)),
        failure_words(LlmError::InvalidResponse { status, detail }) == detail@,
        failure_words(LlmError::Other(detail)) == detail@,
{
}

} // verus!
