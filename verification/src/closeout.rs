//! Closing a session: what is sent in the end, what is recorded, what the user is told.

use vstd::prelude::*;
use vstd::string::*;
use crate::completion::EarlyText;
use crate::delivery::{
    DeliveryDispatchPolicy,
    DeliveryRoute,
    DeliverySubmission,
    InsertStatus,
};
use crate::llm::{
    current_llm_auth_is_rejected,
    take_llm_auth_rejection_notice,
    LlmAuthFailureCircuit,
};
use crate::preferences::{PolishMode, PostDictationKey, ShortcutBinding, UserPreferences};
use crate::recording::SessionStats;
use crate::session::{hyphenated, SessionId, SessionState};
use crate::text::{blank, contains_text, is_blank, occurs_in, same_text};

verus! {

/// How the final text relates to the early text: the part that is left to send after a prefix
/// that still matches, or else the tail that can be recovered after a rewrite.
#[derive(Debug)]
pub struct EarlyDelivery {
    /// The text that is on screen already.
    pub display: String,
    /// What follows the early text, where it still is a prefix of the final text.
    pub remainder: Option<String>,
    /// What can be saved where it no longer is.
    pub recovery: Option<String>,
}

/// The kind of an early delivery.
pub open spec fn early_kind(early: Option<EarlyDelivery>) -> EarlyText {
    match early {
        None => EarlyText::Nothing,
        Some(e) => match e.remainder {
            Some(r) => if r@.len() == 0 {
                EarlyText::Covered
            } else {
                EarlyText::Remainder
            },
            None => match e.recovery {
                Some(r) if r@.len() > 0 => EarlyText::Recovered,
                _ => EarlyText::Rewritten,
            },
        },
    }
}

/// The part of the final text that is still to be sent.
pub open spec fn text_to_send(early: Option<EarlyDelivery>, polished: Seq<char>) -> Seq<char> {
    match early_kind(early) {
        EarlyText::Remainder => early->0.remainder->0@,
        EarlyText::Recovered => early->0.recovery->0@,
        _ => polished,
    }
}

/// Classifies an early delivery.
pub fn classify_early_delivery(early: &Option<EarlyDelivery>) -> (r: EarlyText)
    ensures
        r == early_kind(*early),
{
    match early {
        None => EarlyText::Nothing,
        Some(e) => match &e.remainder {
            Some(rest) => if rest.as_str().is_empty() {
                EarlyText::Covered
            } else {
                EarlyText::Remainder
            },
            None => match &e.recovery {
                Some(tail) => if tail.as_str().is_empty() {
                    EarlyText::Rewritten
                } else {
                    EarlyText::Recovered
                },
                None => EarlyText::Rewritten,
            },
        },
    }
}

/// The part of the final text that is still to be sent: the remainder after a matching early
/// text, the recovered tail after a rewritten one, and the whole text otherwise.
pub fn final_insert_text(early: &Option<EarlyDelivery>, polished: &str) -> (r: String)
    ensures
        r@ == text_to_send(*early, polished@),
{
    match early {
        Some(e) => match &e.remainder {
            Some(rest) => if !rest.as_str().is_empty() {
                return rest.clone();
            },
            None => if let Some(tail) = &e.recovery {
                if !tail.as_str().is_empty() {
                    return tail.clone();
                }
            },
        },
        None => {},
    }
    polished.to_owned()
}

/// What an open composition is to be committed with; nothing where it is to be cancelled.
pub fn composition_commit_text(
    early: &Option<EarlyDelivery>,
    ever_delivered: bool,
    polished: &str,
) -> (r: Option<String>)
    ensures
        r is None <==> early_kind(*early) == EarlyText::Rewritten || (early_kind(*early)
            == EarlyText::Nothing && ever_delivered),
        r matches Some(s) ==> s@ == (if early_kind(*early) == EarlyText::Covered {
            Seq::<char>::empty()
        } else {
            text_to_send(*early, polished@)
        }),
{
    match classify_early_delivery(early) {
        EarlyText::Covered => Some(String::new()),
        EarlyText::Remainder | EarlyText::Recovered => Some(final_insert_text(early, polished)),
        EarlyText::Rewritten => None,
        EarlyText::Nothing => if ever_delivered {
            None
        } else {
            Some(polished.to_owned())
        },
    }
}

/// The outcome that is recorded when a composition took the text.  What is on screen is the
/// early text followed by what was sent.
pub fn composition_submission(early: &Option<EarlyDelivery>, insert_text: &str) -> (r:
    DeliverySubmission)
    ensures
        r.status == InsertStatus::Inserted,
        r.target_confirmed,
        r.route == DeliveryRoute::Streaming,
        r.submitted_text is Some,
        r.submitted_text->0@ == (match *early {
            Some(e) => e.display@ + insert_text@,
            None => insert_text@,
        }),
{
    let shown: String = match early {
        Some(e) => e.display.clone().concat(insert_text),
        None => insert_text.to_owned(),
    };
    DeliverySubmission {
        status: InsertStatus::Inserted,
        target_confirmed: true,
        route: DeliveryRoute::Streaming,
        submitted_text: Some(shown),
    }
}

/// The outcome that is recorded when nothing more was sent and the early text stands.
pub fn early_text_submission(early: &Option<EarlyDelivery>) -> (r: DeliverySubmission)
    ensures
        r.status == InsertStatus::PasteSent,
        !r.target_confirmed,
        r.route == DeliveryRoute::Paste,
        r.submitted_text == (match *early {
            Some(e) => Some(e.display),
            None => None,
        }),
{
    DeliverySubmission {
        status: InsertStatus::PasteSent,
        target_confirmed: false,
        route: DeliveryRoute::Paste,
        submitted_text: match early {
            Some(e) => Some(e.display.clone()),
            None => None,
        },
    }
}

/// Whether an ordinary dictation is also kept on the clipboard.
pub fn retains_plain_dictation(
    prefs: &UserPreferences,
    translation_active: bool,
    polished: &str,
) -> (r: bool)
    ensures
        r == (prefs.copy_dictation_to_clipboard && !translation_active && !blank(polished@)),
{
    prefs.copy_dictation_to_clipboard && !translation_active && !is_blank(polished)
}

/// The circumstances under which the route of a final text is chosen.  The clipboard may carry a
/// translation, and a dictation that is kept there anyway; another window takes the text only
/// where a setting of the process says `1`.
pub fn final_dispatch_policy(
    already_streamed: bool,
    wayland_session: bool,
    focus_ready_for_paste: bool,
    translation_active: bool,
    retain_plain_dictation: bool,
    foreground_setting: Option<&str>,
) -> (r: DeliveryDispatchPolicy)
    ensures
        r == (DeliveryDispatchPolicy {
            already_streamed,
            wayland_session,
            allow_clipboard_fallback: translation_active || retain_plain_dictation,
            focus_ready_for_paste,
            allow_foreground_insert_fallback: crate::delivery::text_of(foreground_setting) == Some(
                "1"@,
            ),
        }),
{
    DeliveryDispatchPolicy {
        already_streamed,
        wayland_session,
        allow_clipboard_fallback: translation_active || retain_plain_dictation,
        focus_ready_for_paste,
        allow_foreground_insert_fallback: match foreground_setting {
            Some(value) => same_text(value, "1"),
            None => false,
        },
    }
}

/// The reason under which the device shows a good end.
pub fn device_success_reason(error_code: Option<&str>) -> (r: &'static str)
    ensures
        r@ == (if crate::delivery::text_of(error_code) == Some("polishFailed"@) {
            "dictation_processing_done_raw_inserted"@
        } else {
            "dictation_processing_done"@
        }),
{
    if let Some(code) = error_code {
        if same_text(code, "polishFailed") {
            return "dictation_processing_done_raw_inserted";
        }
    }
    "dictation_processing_done"
}

/// The words when the credentials of the model were refused.
pub const AUTH_NOTICE: &'static str = "润色 API key 失效，已改用原文上屏；请到设置更新 key";

/// Whether the user is told now that the credentials of the model were refused: the session
/// needed the model, and these credentials were not spoken of before.
pub fn auth_notice_due(
    circuit: &mut LlmAuthFailureCircuit,
    needs_llm_polish: bool,
    translation_active: bool,
    fingerprint: Option<u64>,
) -> (r: bool)
    ensures
        r == (needs_llm_polish && !translation_active && fingerprint is Some && old(
            circuit,
        ).record().due(fingerprint->0)),
        final(circuit).record() == (if r {
            old(circuit).record().asked(fingerprint->0)
        } else {
            old(circuit).record()
        }),
{
    if !needs_llm_polish || translation_active {
        return false;
    }
    match fingerprint {
        Some(known) => current_llm_auth_is_rejected(circuit, known)
            && take_llm_auth_rejection_notice(circuit, known),
        None => false,
    }
}

/// Whether the clipboard gets its former content back after a paste.
pub fn should_restore_clipboard_after_dictation(
    prefs: &UserPreferences,
    final_retention_applies: bool,
) -> (r: bool)
    ensures
        r == (prefs.restore_clipboard_after_paste && !final_retention_applies),
{
    prefs.restore_clipboard_after_paste && !final_retention_applies
}

/// Whether a key may follow the delivery: only behind a text that the original target took.
pub open spec fn post_key_allowed(
    enabled: bool,
    status: InsertStatus,
    has_nonempty_final_text: bool,
    original_target_restored: bool,
    clipboard_retention_satisfied: bool,
    translation_active: bool,
) -> bool {
    enabled && has_nonempty_final_text && original_target_restored && clipboard_retention_satisfied
        && !translation_active && status == InsertStatus::Inserted
}

/// The key that follows a delivery, if one may.
pub fn should_send_post_dictation_key(
    enabled: bool,
    key: PostDictationKey,
    status: InsertStatus,
    has_nonempty_final_text: bool,
    original_target_restored: bool,
    clipboard_retention_satisfied: bool,
    translation_active: bool,
) -> (r: Option<ShortcutBinding>)
    ensures
        r is Some <==> post_key_allowed(
            enabled,
            status,
            has_nonempty_final_text,
            original_target_restored,
            clipboard_retention_satisfied,
            translation_active,
        ),
        r matches Some(binding) ==> {
            &&& binding.primary@ == "Enter"@
            &&& key == PostDictationKey::Enter ==> binding.modifiers@.len() == 0
            &&& key == PostDictationKey::CtrlEnter ==> binding.modifiers@.len() == 1
                && binding.modifiers@[0]@ == "ctrl"@
        },
{
    if !enabled || !has_nonempty_final_text || !original_target_restored
        || !clipboard_retention_satisfied || translation_active || status != InsertStatus::Inserted {
        return None;
    }
    let mut modifiers: Vec<String> = Vec::new();
    match key {
        PostDictationKey::Enter => {},
        PostDictationKey::CtrlEnter => {
            modifiers.push("ctrl".to_owned());
        },
    }
    Some(ShortcutBinding { primary: "Enter".to_owned(), modifiers })
}

/// Claims the one key that may follow a session.  A second claim, or one for a session that is
/// no longer current, is refused.
pub fn claim_post_dictation_key(state: &mut SessionState, session_id: SessionId) -> (r: bool)
    ensures
        r == (old(state).session_id == session_id && !old(state).post_dictation_key_claimed),
        *final(state) == (SessionState {
            post_dictation_key_claimed: old(state).post_dictation_key_claimed || r,
            ..*old(state)
        }),
{
    if state.session_id != session_id || state.post_dictation_key_claimed {
        return false;
    }
    state.post_dictation_key_claimed = true;
    true
}

/// The outcome of the key that follows a delivery.
#[derive(Clone, Copy, Debug, PartialEq, Eq, Structural)]
pub enum PostKeyOutcome {
    OriginalTargetLost,
    AlreadyClaimedOrStale,
    Sent,
    Failed,
}

/// Decides whether the key is sent once its delay has passed: the original target must have the
/// focus again, and nobody may have claimed the key before.
pub fn settle_post_dictation_key(
    state: &mut SessionState,
    session_id: SessionId,
    target_restored: bool,
) -> (r: Option<PostKeyOutcome>)
    ensures
        !target_restored ==> r == Some(PostKeyOutcome::OriginalTargetLost) && *final(state)
            == *old(state),
        target_restored ==> {
            let claimed = old(state).session_id == session_id
                && !old(state).post_dictation_key_claimed;
            &&& r == (if claimed {
                None
            } else {
                Some(PostKeyOutcome::AlreadyClaimedOrStale)
            })
            &&& *final(state) == (SessionState {
                post_dictation_key_claimed: old(state).post_dictation_key_claimed || claimed,
                ..*old(state)
            })
        },
{
    if !target_restored {
        return Some(PostKeyOutcome::OriginalTargetLost);
    }
    if claim_post_dictation_key(state, session_id) {
        None
    } else {
        Some(PostKeyOutcome::AlreadyClaimedOrStale)
    }
}

/// The error code of a delivery.
pub open spec fn error_code(
    status: InsertStatus,
    polish_failed: bool,
    focus_ready_for_paste: bool,
    allow_non_tsf_insertion_fallback: bool,
    wayland_session: bool,
    windows: bool,
) -> Option<Seq<char>> {
    if status == InsertStatus::SubmittedUnconfirmed {
        Some("insertUnconfirmed"@)
    } else if status == InsertStatus::Failed && wayland_session {
        Some("waylandClipboardWriteFailed"@)
    } else if status == InsertStatus::Failed && !focus_ready_for_paste {
        Some("focusRestoreFailed"@)
    } else if status == InsertStatus::Failed && windows && !allow_non_tsf_insertion_fallback {
        Some("windowsImeTsfRequired"@)
    } else if polish_failed {
        Some("polishFailed"@)
    } else {
        None
    }
}

/// The error code that is recorded for a delivery.
pub fn dictation_error_code(
    status: InsertStatus,
    polish_failed: bool,
    focus_ready_for_paste: bool,
    allow_non_tsf_insertion_fallback: bool,
    wayland_session: bool,
    windows: bool,
) -> (r: Option<&'static str>)
    ensures
        crate::delivery::text_of(r) == error_code(
            status,
            polish_failed,
            focus_ready_for_paste,
            allow_non_tsf_insertion_fallback,
            wayland_session,
            windows,
        ),
{
    if status == InsertStatus::SubmittedUnconfirmed {
        Some("insertUnconfirmed")
    } else if wayland_session && status == InsertStatus::Failed {
        Some("waylandClipboardWriteFailed")
    } else if !focus_ready_for_paste && status == InsertStatus::Failed {
        Some("focusRestoreFailed")
    } else if windows && focus_ready_for_paste && !allow_non_tsf_insertion_fallback && status
        == InsertStatus::Failed {
        Some("windowsImeTsfRequired")
    } else if polish_failed {
        Some("polishFailed")
    } else {
        None
    }
}

/// What is shown when a session is done.
#[derive(Clone, Copy, Debug, PartialEq, Eq, Structural)]
pub enum DoneNotice {
    /// Nothing needs saying.
    Silent,
    /// The text service did not insert, and the text is on the clipboard.
    TextServiceFailedTextOnClipboard,
    /// The text service did not insert, and no other route is allowed.
    TextServiceFailed,
    /// The notice for a Wayland desktop.
    Wayland,
    /// The notice for the insertion status.
    ByStatus,
}

/// Chooses what is shown when a session is done.
pub fn done_notice(
    status: InsertStatus,
    polish_failed: bool,
    text_service_required: bool,
    wayland_session: bool,
    text_on_clipboard: bool,
) -> (r: DoneNotice)
    ensures
        r == (if text_service_required {
            if text_on_clipboard {
                DoneNotice::TextServiceFailedTextOnClipboard
            } else {
                DoneNotice::TextServiceFailed
            }
        } else if wayland_session {
            DoneNotice::Wayland
        } else if status == InsertStatus::Inserted && !polish_failed {
            DoneNotice::Silent
        } else {
            DoneNotice::ByStatus
        }),
{
    if status == InsertStatus::Inserted && !polish_failed && !text_service_required
        && !wayland_session {
        DoneNotice::Silent
    } else if text_service_required {
        if text_on_clipboard {
            DoneNotice::TextServiceFailedTextOnClipboard
        } else {
            DoneNotice::TextServiceFailed
        }
    } else if wayland_session {
        DoneNotice::Wayland
    } else {
        DoneNotice::ByStatus
    }
}

impl DoneNotice {
    /// The fixed words of a notice, where it has any.
    pub fn words(self) -> (r: Option<&'static str>)
        ensures
            crate::delivery::text_of(r) == (match self {
                DoneNotice::TextServiceFailedTextOnClipboard => Some(
                    "TSF 未上屏，内容在剪贴板，请 Ctrl+V"@,
                ),
                DoneNotice::TextServiceFailed => Some("TSF 未上屏，已禁止非 TSF 兜底"@),
                _ => None,
            }),
    {
        match self {
            DoneNotice::TextServiceFailedTextOnClipboard => Some(
                "TSF 未上屏，内容在剪贴板，请 Ctrl+V",
            ),
            DoneNotice::TextServiceFailed => Some("TSF 未上屏，已禁止非 TSF 兜底"),
            _ => None,
        }
    }
}

/// A history entry.
#[derive(Debug)]
pub struct DictationSession {
    pub id: String,
    pub created_at: String,
    pub raw_transcript: String,
    pub final_text: String,
    pub mode: PolishMode,
    pub app_bundle_id: Option<String>,
    pub app_name: Option<String>,
    pub insert_status: InsertStatus,
    pub error_code: Option<String>,
    pub duration_ms: Option<u64>,
    pub dictionary_entry_count: Option<u32>,
    pub has_audio_recording: Option<bool>,
    pub embedded_audio_stats: Option<SessionStats>,
}

/// What is handed back to whoever submitted the audio.
#[derive(Debug)]
pub struct EmbeddedAudioTranscriptResult {
    pub session_id: String,
    pub raw_transcript: String,
    pub final_text: String,
    pub error_code: Option<String>,
}

/// The circumstances that every history entry carries.
#[derive(Debug)]
pub struct EntryContext {
    pub session_id: SessionId,
    pub created_at: String,
    pub mode: PolishMode,
    pub duration_ms: Option<u64>,
    pub audio_archived: bool,
    pub audio_stats: Option<SessionStats>,
}

/// The history entry and the result of a session whose audio source was refused: it delivered
/// nothing, and says so.
pub fn finish_source_integrity_blocked(context: EntryContext, enabled_phrases: u32) -> (r: (
    DictationSession,
    EmbeddedAudioTranscriptResult,
))
    ensures
        failed_entry(r.0, context, "source_integrity_blocked"@, Seq::empty(), enabled_phrases),
        r.1.session_id@ == hyphenated(context.session_id.bits),
        r.1.raw_transcript@ == Seq::<char>::empty(),
        r.1.final_text@ == Seq::<char>::empty(),
        r.1.error_code is Some,
        r.1.error_code->0@ == "source_integrity_blocked"@,
{
    failed_session(context, "source_integrity_blocked", String::new(), enabled_phrases)
}

/// The history entry and the result of a session in which nothing was recognised.
pub fn empty_transcript_closeout(context: EntryContext, raw: String, enabled_phrases: u32) -> (r: (
    DictationSession,
    EmbeddedAudioTranscriptResult,
))
    ensures
        failed_entry(r.0, context, "emptyTranscript"@, raw@, enabled_phrases),
        r.1.session_id@ == hyphenated(context.session_id.bits),
        r.1.raw_transcript@ == raw@,
        r.1.final_text@ == Seq::<char>::empty(),
        r.1.error_code is Some,
        r.1.error_code->0@ == "emptyTranscript"@,
{
    failed_session(context, "emptyTranscript", raw, enabled_phrases)
}

/// The result of a wake that was followed by nothing: no text, and no error either.
pub fn wake_only_result(session_id: SessionId) -> (r: EmbeddedAudioTranscriptResult)
    ensures
        r.session_id@ == hyphenated(session_id.bits),
        r.raw_transcript@ == Seq::<char>::empty(),
        r.final_text@ == Seq::<char>::empty(),
        r.error_code is None,
{
    EmbeddedAudioTranscriptResult {
        session_id: session_id.to_text(),
        raw_transcript: String::new(),
        final_text: String::new(),
        error_code: None,
    }
}

/// An entry that records a failure under `code`.
pub open spec fn failed_entry(
    entry: DictationSession,
    context: EntryContext,
    code: Seq<char>,
    raw: Seq<char>,
    enabled_phrases: u32,
) -> bool {
    &&& entry.id@ == hyphenated(context.session_id.bits)
    &&& entry.created_at == context.created_at
    &&& entry.raw_transcript@ == raw
    &&& entry.final_text@ == Seq::<char>::empty()
    &&& entry.mode == context.mode
    &&& entry.insert_status == InsertStatus::Failed
    &&& entry.error_code is Some
    &&& entry.error_code->0@ == code
    &&& entry.duration_ms == context.duration_ms
    &&& entry.dictionary_entry_count == Some(enabled_phrases)
    &&& entry.has_audio_recording == Some(context.audio_archived)
    &&& entry.app_bundle_id is None
    &&& entry.app_name is None
    &&& entry.embedded_audio_stats == context.audio_stats
}

fn failed_session(
    context: EntryContext,
    code: &str,
    raw: String,
    enabled_phrases: u32,
) -> (r: (DictationSession, EmbeddedAudioTranscriptResult))
    ensures
        failed_entry(r.0, context, code@, raw@, enabled_phrases),
        r.1.session_id@ == hyphenated(context.session_id.bits),
        r.1.raw_transcript@ == raw@,
        r.1.final_text@ == Seq::<char>::empty(),
        r.1.error_code is Some,
        r.1.error_code->0@ == code@,
{
    let result = EmbeddedAudioTranscriptResult {
        session_id: context.session_id.to_text(),
        raw_transcript: raw.clone(),
        final_text: String::new(),
        error_code: Some(code.to_owned()),
    };
    let entry = DictationSession {
        id: context.session_id.to_text(),
        created_at: context.created_at,
        raw_transcript: raw,
        final_text: String::new(),
        mode: context.mode,
        app_bundle_id: None,
        app_name: None,
        insert_status: InsertStatus::Failed,
        error_code: Some(code.to_owned()),
        duration_ms: context.duration_ms,
        dictionary_entry_count: Some(enabled_phrases),
        has_audio_recording: Some(context.audio_archived),
        embedded_audio_stats: context.audio_stats,
    };
    (entry, result)
}

/// The history entry and the result of a session that delivered a text.
pub fn delivered_closeout(
    context: EntryContext,
    raw: String,
    polished: String,
    status: InsertStatus,
    code: Option<&'static str>,
    vocabulary_hits: u64,
) -> (r: (DictationSession, EmbeddedAudioTranscriptResult))
    ensures
        r.0.id@ == hyphenated(context.session_id.bits),
        r.0.created_at == context.created_at,
        r.0.raw_transcript == raw,
        r.0.final_text == polished,
        r.0.mode == context.mode,
        r.0.insert_status == status,
        crate::delivery::string_of(r.0.error_code) == crate::delivery::text_of(code),
        r.0.duration_ms == context.duration_ms,
        r.0.dictionary_entry_count == Some(
            if vocabulary_hits <= u32::MAX {
                vocabulary_hits as u32
            } else {
                u32::MAX
            },
        ),
        r.0.has_audio_recording == Some(context.audio_archived),
        r.0.app_bundle_id is None,
        r.0.app_name is None,
        r.0.embedded_audio_stats == context.audio_stats,
        r.1.session_id@ == hyphenated(context.session_id.bits),
        r.1.raw_transcript == raw,
        r.1.final_text == polished,
        crate::delivery::string_of(r.1.error_code) == crate::delivery::text_of(code),
{
    let hits: u32 = if vocabulary_hits <= u32::MAX as u64 {
        vocabulary_hits as u32
    } else {
        u32::MAX
    };
    let entry_code: Option<String> = match code {
        Some(c) => Some(c.to_owned()),
        None => None,
    };
    let result_code: Option<String> = match code {
        Some(c) => Some(c.to_owned()),
        None => None,
    };
    let result = EmbeddedAudioTranscriptResult {
        session_id: context.session_id.to_text(),
        raw_transcript: raw.clone(),
        final_text: polished.clone(),
        error_code: result_code,
    };
    let entry = DictationSession {
        id: context.session_id.to_text(),
        created_at: context.created_at,
        raw_transcript: raw,
        final_text: polished,
        mode: context.mode,
        app_bundle_id: None,
        app_name: None,
        insert_status: status,
        error_code: entry_code,
        duration_ms: context.duration_ms,
        dictionary_entry_count: Some(hits),
        has_audio_recording: Some(context.audio_archived),
        embedded_audio_stats: context.audio_stats,
    };
    (entry, result)
}

/// The words by which a model's refusal of the credentials is told from other failures.
pub open spec fn reads_as_auth_failure(error: Seq<char>) -> bool {
    ||| occurs_in("credentials were already rejected"@, error)
    ||| occurs_in("AuthenticationError"@, error)
    ||| occurs_in("status 401"@, error)
    ||| occurs_in("status 403"@, error)
    ||| occurs_in("Unauthorized"@, error)
}

/// Whether a failed polish means that the credentials were refused.
pub fn polish_error_is_auth_failure(error: &str) -> (r: bool)
    ensures
        r == reads_as_auth_failure(error@),
{
    contains_text(error, "credentials were already rejected") || contains_text(
        error,
        "AuthenticationError",
    ) || contains_text(error, "status 401") || contains_text(error, "status 403") || contains_text(
        error,
        "Unauthorized",
    )
}

/// Whether an entry can serve the model as context: it was polished, and something came of it.
pub open spec fn serves_as_context(entry: DictationSession) -> bool {
    entry.error_code is None && !blank(entry.final_text@)
}

/// What earlier entries contribute to the conversation, in their order.
pub open spec fn context_turns(entries: Seq<DictationSession>) -> Seq<(Seq<char>, Seq<char>)>
    decreases entries.len(),
{
    if entries.len() == 0 {
        Seq::empty()
    } else {
        let earlier = context_turns(entries.drop_last());
        let entry = entries.last();
        if serves_as_context(entry) {
            earlier.push((entry.raw_transcript@, entry.final_text@))
        } else {
            earlier
        }
    }
}

/// The characters behind a list of turns.
pub open spec fn turn_views(turns: Seq<(String, String)>) -> Seq<(Seq<char>, Seq<char>)> {
    turns.map_values(|turn: (String, String)| (turn.0@, turn.1@))
}

/// The conversation that precedes a polish.  There is none for translations, for raw texts that
/// no model sees, and where the context window is closed.
pub fn prior_turns(
    entries: &Vec<DictationSession>,
    translation_active: bool,
    needs_llm_polish: bool,
    context_window_minutes: u32,
) -> (r: Vec<(String, String)>)
    ensures
        turn_views(r@) == (if !translation_active && needs_llm_polish && context_window_minutes
            > 0 {
            context_turns(entries@)
        } else {
            Seq::empty()
        }),
{
    let mut turns: Vec<(String, String)> = Vec::new();
    if translation_active || !needs_llm_polish || context_window_minutes == 0 {
        assert(turn_views(turns@) == Seq::<(Seq<char>, Seq<char>)>::empty());
        return turns;
    }
    let mut i: usize = 0;
    proof {
        assert(turn_views(turns@) == context_turns(entries@.take(0)));
    }
    while i < entries.len()
        invariant
            i <= entries@.len(),
            turn_views(turns@) == context_turns(entries@.take(i as int)),
        decreases entries@.len() - i,
    {
        let entry = &entries[i];
        let ghost before = turns@;
        if entry.error_code.is_none() && !is_blank(entry.final_text.as_str()) {
            turns.push((entry.raw_transcript.clone(), entry.final_text.clone()));
            proof {
                assert(turn_views(turns@) == turn_views(before).push(
                    (entry.raw_transcript@, entry.final_text@),
                ));
            }
        }
        i = i + 1;
        proof {
            assert(entries@.take(i as int).drop_last() == entries@.take(i - 1));
            assert(entries@.take(i as int).last() == entries@[i - 1]);
        }
    }
    proof {
        assert(entries@.take(entries@.len() as int) == entries@);
    }
    turns
}

/// A key never follows a text that was not inserted into the original target.
pub proof fn no_key_without_a_confirmed_insertion(
    enabled: bool,
    status: InsertStatus,
    nonempty: bool,
    restored: bool,
    retained: bool,
    translation: bool,
)
    requires
        status != InsertStatus::Inserted || !restored,
    ensures
        !post_key_allowed(enabled, status, nonempty, restored, retained, translation),
{
}

/// What is on screen in the end is the final text: an early text that still is its prefix,
/// followed by the remainder that is sent.
pub proof fn early_text_and_remainder_make_the_final_text(
    early: EarlyDelivery,
    polished: Seq<char>,
)
    requires
        early.remainder is Some,
        early.remainder->0@.len() > 0,
        polished == early.display@ + early.remainder->0@,
    ensures
        early.display@ + text_to_send(Some(early), polished) == polished,
{
}

/// What is known of the text that was shown early: a remainder settles it, whatever else is there;
/// without one, only a recovery that holds something counts.
pub proof fn early_text_is_told_apart(early: EarlyDelivery)
    ensures
        ({
            let kind = early_kind(Some(early));
            &&& early_kind(None) == EarlyText::Nothing
            &&& kind != EarlyText::Nothing
            &&& kind == EarlyText::Covered <==> early.remainder is Some
                && early.remainder->0@.len() == 0
            &&& kind == EarlyText::Remainder <==> early.remainder is Some
                && early.remainder->0@.len() > 0
            &&& kind == EarlyText::Recovered <==> early.remainder is None && early.recovery is Some
                && early.recovery->0@.len() > 0
            &&& kind == EarlyText::Rewritten <==> early.remainder is None && (early.recovery
                is None || early.recovery->0@.len() == 0)
        }),
{
}

/// Only what is missing is sent: the remainder where there is one, a recovered tail where there is
/// none, and the whole text otherwise.
pub proof fn only_what_is_missing_is_sent(early: EarlyDelivery, polished: Seq<char>)
    ensures
        early.remainder is Some && early.remainder->0@.len() > 0 ==> text_to_send(
            Some(early),
            polished,
        ) == early.remainder->0@,
        early.remainder is None && early.recovery is Some && early.recovery->0@.len() > 0
            ==> text_to_send(Some(early), polished) == early.recovery->0@,
        early.remainder is None && early.recovery is None ==> text_to_send(Some(early), polished)
            == polished,
        early.remainder is Some && early.remainder->0@.len() == 0 ==> text_to_send(
            Some(early),
            polished,
        ) == polished,
        text_to_send(None, polished) == polished,
        text_to_send(Some(early), polished).len() == 0 ==> polished.len() == 0,
{
}

/// The key follows every insertion that is confirmed, in the original target and with the clipboard
/// as it has to be, and each of these conditions is needed.
pub proof fn the_key_follows_a_confirmed_insertion(
    enabled: bool,
    status: InsertStatus,
    nonempty: bool,
    restored: bool,
    retained: bool,
    translation: bool,
)
    ensures
        post_key_allowed(true, InsertStatus::Inserted, true, true, true, false),
        ({
            let allowed = post_key_allowed(
                enabled,
                status,
                nonempty,
                restored,
                retained,
                translation,
            );
            &&& allowed ==> enabled
            &&& allowed ==> nonempty
            &&& allowed ==> restored
            &&& allowed ==> retained
            &&& allowed ==> !translation
            &&& allowed ==> status == InsertStatus::Inserted
        }),
{
}

/// Every code that a delivery is recorded with, and what alone leads to it.  A delivery that went
/// well with a polished text has none.
pub proof fn each_code_has_its_cause(
    status: InsertStatus,
    polish_failed: bool,
    focus_ready: bool,
    allow_fallback: bool,
    wayland: bool,
    windows: bool,
)
    ensures
        ({
            let code = error_code(
                status,
                polish_failed,
                focus_ready,
                allow_fallback,
                wayland,
                windows,
            );
            let delivered = status == InsertStatus::Inserted || status == InsertStatus::PasteSent
                || status == InsertStatus::CopiedFallback;
            &&& status == InsertStatus::SubmittedUnconfirmed ==> code == Some(
                "insertUnconfirmed"@,
            )
            &&& delivered && polish_failed ==> code == Some("polishFailed"@)
            &&& delivered && !polish_failed ==> code is None
            &&& status == InsertStatus::Failed && wayland ==> code == Some(
                "waylandClipboardWriteFailed"@,
            )
            &&& status == InsertStatus::Failed && !wayland && !focus_ready ==> code == Some(
                "focusRestoreFailed"@,
            )
            &&& status == InsertStatus::Failed && !wayland && focus_ready && windows
                && !allow_fallback ==> code == Some("windowsImeTsfRequired"@)
            &&& status == InsertStatus::Failed && !wayland && focus_ready && (!windows
                || allow_fallback) ==> code == (if polish_failed {
                Some("polishFailed"@)
            } else {
                None
            })
        }),
{
}

/// The record of a session without a text keeps whose it was, what was heard and why there is no
/// text, and holds no text of its own.
pub proof fn a_failed_entry_says_why(
    entry: DictationSession,
    context: EntryContext,
    code: Seq<char>,
    raw: Seq<char>,
    phrases: u32,
)
    requires
        failed_entry(entry, context, code, raw, phrases),
    ensures
        entry.error_code is Some && entry.error_code->0@ == code,
        entry.raw_transcript@ == raw,
        entry.final_text@.len() == 0,
        entry.insert_status == InsertStatus::Failed,
        entry.id@ == hyphenated(context.session_id.bits),
        entry.created_at == context.created_at,
        entry.mode == context.mode,
        entry.duration_ms == context.duration_ms,
        entry.dictionary_entry_count == Some(phrases),
        entry.has_audio_recording == Some(context.audio_archived),
        entry.embedded_audio_stats == context.audio_stats,
        !serves_as_context(entry),
{
}

/// An error that holds one of the five marks of a refused key reads as one, wherever in it the mark
/// stands, and no other error does.
pub proof fn a_refused_key_is_recognised(before: Seq<char>, after: Seq<char>, error: Seq<char>)
    ensures
        reads_as_auth_failure(before + "credentials were already rejected"@ + after),
        reads_as_auth_failure(before + "AuthenticationError"@ + after),
        reads_as_auth_failure(before + "status 401"@ + after),
        reads_as_auth_failure(before + "status 403"@ + after),
        reads_as_auth_failure(before + "Unauthorized"@ + after),
        reads_as_auth_failure(error) ==> occurs_in("credentials were already rejected"@, error)
            || occurs_in("AuthenticationError"@, error) || occurs_in("status 401"@, error)
            || occurs_in("status 403"@, error) || occurs_in("Unauthorized"@, error),
{
    crate::text::a_contained_text_occurs(before, "credentials were already rejected"@, after);
    crate::text::a_contained_text_occurs(before, "AuthenticationError"@, after);
    crate::text::a_contained_text_occurs(before, "status 401"@, after);
    crate::text::a_contained_text_occurs(before, "status 403"@, after);
    crate::text::a_contained_text_occurs(before, "Unauthorized"@, after);
}

/// Exactly the sessions that went well and left a text serve as context.
pub proof fn only_good_sessions_serve_as_context(entry: DictationSession)
    ensures
        serves_as_context(entry) ==> entry.error_code is None,
        serves_as_context(entry) ==> !blank(entry.final_text@),
        entry.error_code is None && !blank(entry.final_text@) ==> serves_as_context(entry),
{
}

/// The context of two stretches of history is the context of the first and then that of the second:
/// sessions keep their order.
pub proof fn context_keeps_its_order(first: Seq<DictationSession>, second: Seq<DictationSession>)
    ensures
        context_turns(first + second) == context_turns(first) + context_turns(second),
    decreases second.len(),
{
    if second.len() == 0 {
        assert(first + second == first);
        assert(context_turns(first) + context_turns(second) == context_turns(first));
    } else {
        context_keeps_its_order(first, second.drop_last());
        assert((first + second).drop_last() == first + second.drop_last());
        assert((first + second).last() == second.last());
        assert(context_turns(first + second) == context_turns(first) + context_turns(second));
    }
}

/// A session that serves as context is one turn of it, its transcript before its text; any other is
/// none.
pub proof fn each_good_session_is_one_turn(entry: DictationSession)
    ensures
        entry.error_code is None && !blank(entry.final_text@) ==> context_turns(seq![entry])
            == seq![(entry.raw_transcript@, entry.final_text@)],
        entry.error_code is Some || blank(entry.final_text@) ==> context_turns(
            seq![entry],
        ).len() == 0,
{
    assert(seq![entry].drop_last() == Seq::<DictationSession>::empty());
    reveal_with_fuel(context_turns, 2);
    if serves_as_context(entry) {
        assert(context_turns(seq![entry]) == seq![(entry.raw_transcript@, entry.final_text@)]);
    }
}

} // verus!
