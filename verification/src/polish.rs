//! When a transcript is polished ahead of time, and what decides how it becomes a text.

use vstd::prelude::*;
use crate::closeout::{polish_error_is_auth_failure, reads_as_auth_failure};
use crate::completion::TextFacts;
use crate::delivery::{string_of, text_of};
use crate::llm::{
    is_builtin_raw,
    raw_style_pack_uses_llm,
    LlmStallCircuit,
    StreamingPolishOutcome,
};
use crate::preferences::{PolishMode, StylePack, UserPreferences};
use crate::session::SessionId;
use crate::text::{blank, is_blank, same_text, trim, trimmed};

verus! {

/// What is known of the styles that came with the program.
#[derive(Clone, Copy, Debug)]
pub struct BuiltinRawStyle {
    pub id: &'static str,
    pub prompt: &'static str,
}

/// Whether a style needs a model.
pub open spec fn style_needs_model(pack: StylePack, builtin: BuiltinRawStyle) -> bool {
    pack.base_mode != PolishMode::Raw || !is_builtin_raw(pack, builtin.id@, builtin.prompt@)
}

fn needs_model(pack: &StylePack, builtin: BuiltinRawStyle) -> (r: bool)
    ensures
        r == style_needs_model(*pack, builtin),
{
    pack.base_mode != PolishMode::Raw || raw_style_pack_uses_llm(pack, builtin.id, builtin.prompt)
}

/// What the moment says about a text that is about to be made.
#[derive(Clone, Copy, Debug, PartialEq, Eq, Structural)]
pub struct PolishMoment {
    /// The user asked for a translation while speaking.
    pub translation_modifier_seen: bool,
    /// The credentials in use were refused before.
    pub llm_auth_blocked: bool,
    /// The model is left alone for now.
    pub llm_stall_blocked: bool,
}

/// Collects what decides how a transcript becomes a text.  `force_raw` has the transcript go out
/// as it was spoken; `typing_allowed` tells whether typing while the model writes is possible at
/// all.
pub fn text_facts(
    prefs: &UserPreferences,
    pack: &StylePack,
    builtin: BuiltinRawStyle,
    force_raw: bool,
    moment: PolishMoment,
    typing_allowed: bool,
) -> (r: TextFacts)
    ensures
        r.translation_active == (moment.translation_modifier_seen && !blank(
            prefs.translation_target_language@,
        )),
        r.llm_auth_blocked == moment.llm_auth_blocked,
        r.llm_stall_blocked == moment.llm_stall_blocked,
        r.needs_llm_polish == (pack.base_mode != PolishMode::Raw || (!force_raw && !is_builtin_raw(
            *pack,
            builtin.id@,
            builtin.prompt@,
        ))),
        r.streaming_insert_eligible == typing_allowed,
{
    let raw_uses_llm: bool = !force_raw && pack.base_mode == PolishMode::Raw
        && raw_style_pack_uses_llm(pack, builtin.id, builtin.prompt);
    TextFacts {
        translation_active: moment.translation_modifier_seen && !is_blank(
            prefs.translation_target_language.as_str(),
        ),
        llm_auth_blocked: moment.llm_auth_blocked,
        llm_stall_blocked: moment.llm_stall_blocked,
        needs_llm_polish: pack.base_mode != PolishMode::Raw || raw_uses_llm,
        streaming_insert_eligible: typing_allowed,
    }
}

/// Counts a one-piece polish: a success forgets the failures so far, and a failure counts unless
/// the credentials are to blame.
pub fn note_one_shot_polish(circuit: &mut LlmStallCircuit, error: Option<&str>, now: u64)
    ensures
        *final(circuit) == (match error {
            None => old(circuit).succeeded(),
            Some(reason) => if reads_as_auth_failure(reason@) {
                *old(circuit)
            } else {
                old(circuit).failed(now)
            },
        }),
{
    match error {
        None => {
            circuit.note_success();
        },
        Some(reason) => {
            if !polish_error_is_auth_failure(reason) {
                circuit.note_failure(now);
            }
        },
    }
}

/// Whether the transcript is to go out as it was spoken, by a setting of the process.
pub open spec fn raw_is_forced(setting: Option<&str>) -> bool {
    text_of(setting) == Some("1"@)
}

/// A transcript that a debugging file puts in place of the spoken one: its text without white
/// space around it, where any is left.
pub fn debug_transcript_override_text(file: Option<&str>) -> (r: Option<String>)
    ensures
        string_of(r) == (match file {
            Some(text) if !blank(text@) => Some(trimmed(text@)),
            _ => None,
        }),
{
    match file {
        None => None,
        Some(text) => {
            let text = trim(text);
            if text.is_empty() {
                None
            } else {
                Some(text.to_owned())
            }
        },
    }
}

/// The preview that is polished ahead of the final transcript.
pub open spec fn prefetch_preview(
    prefs: UserPreferences,
    moment: PolishMoment,
    force_raw_setting: Option<&str>,
    pack: Option<StylePack>,
    builtin: BuiltinRawStyle,
    preview: Option<Seq<char>>,
) -> Option<Seq<char>> {
    if prefs.streaming_insert && !moment.translation_modifier_seen && !raw_is_forced(
        force_raw_setting,
    ) && pack is Some && style_needs_model(pack->0, builtin) && !moment.llm_auth_blocked
        && !moment.llm_stall_blocked && preview is Some && !blank(preview->0) {
        Some(trimmed(preview->0))
    } else {
        None
    }
}

/// Decides whether the preview is polished ahead of the final transcript, and hands it out.
/// Only where the text will be typed while the model writes, where a model is needed and none of
/// its circuits is open, and where there is something to polish.
pub fn maybe_start_polish_prefetch(
    prefs: &UserPreferences,
    moment: PolishMoment,
    force_raw_setting: Option<&str>,
    pack: Option<&StylePack>,
    builtin: BuiltinRawStyle,
    preview: Option<&str>,
) -> (r: Option<String>)
    ensures
        string_of(r) == prefetch_preview(
            *prefs,
            moment,
            force_raw_setting,
            match pack {
                Some(p) => Some(*p),
                None => None,
            },
            builtin,
            text_of(preview),
        ),
{
    if !prefs.streaming_insert || moment.translation_modifier_seen {
        return None;
    }
    if let Some(value) = force_raw_setting {
        if same_text(value, "1") {
            return None;
        }
    }
    let Some(pack) = pack else {
        return None;
    };
    if !needs_model(pack, builtin) {
        return None;
    }
    if moment.llm_auth_blocked || moment.llm_stall_blocked {
        return None;
    }
    let Some(text) = preview else {
        return None;
    };
    let text = trim(text);
    if text.is_empty() {
        return None;
    }
    Some(text.to_owned())
}

/// A polish that was started ahead of the final transcript.  `task` names the running request.
#[derive(Debug)]
pub struct PolishPrefetch {
    pub session_id: SessionId,
    pub input: String,
    pub task: u64,
    /// What became of it, once that is known.
    pub result: Option<StreamingPolishOutcome>,
}

impl PolishPrefetch {
    /// Whether the model failed on it.
    pub open spec fn has_failed(self) -> bool {
        self.result matches Some(StreamingPolishOutcome::Failed(_))
    }

    /// Whether the model failed on it.
    pub fn failed(&self) -> (r: bool)
        ensures
            r == self.has_failed(),
    {
        match &self.result {
            Some(StreamingPolishOutcome::Failed(_)) => true,
            _ => false,
        }
    }
}

/// Whether a polish that was started ahead serves for the final transcript: it was made of
/// exactly this text, and did not fail.
pub fn polish_prefetch_adoptable(prefetch: &PolishPrefetch, final_text: &str) -> (r: bool)
    ensures
        r == (prefetch.input@ == final_text@ && !prefetch.has_failed()),
{
    same_text(prefetch.input.as_str(), final_text) && !prefetch.failed()
}

/// What a polish ahead of time is recorded as: a configuration that cannot stream is a failure
/// here.
pub fn prefetch_outcome(outcome: StreamingPolishOutcome) -> (r: StreamingPolishOutcome)
    ensures
        outcome is UnsupportedFallback ==> (r matches StreamingPolishOutcome::Failed(reason)
            && reason@ == "prefetch unsupported"@),
        !(outcome is UnsupportedFallback) ==> r == outcome,
{
    match outcome {
        StreamingPolishOutcome::UnsupportedFallback => StreamingPolishOutcome::Failed(
            "prefetch unsupported".to_owned(),
        ),
        other => other,
    }
}

/// Keeps a polish that was started ahead, and tells which earlier one is to be cancelled.
pub fn store_polish_prefetch(slot: &mut Option<PolishPrefetch>, prefetch: PolishPrefetch) -> (r:
    Option<u64>)
    ensures
        *final(slot) == Some(prefetch),
        r == (match *old(slot) {
            Some(earlier) => Some(earlier.task),
            None => None,
        }),
{
    let earlier: Option<PolishPrefetch> = slot.take();
    *slot = Some(prefetch);
    match earlier {
        Some(p) => Some(p.task),
        None => None,
    }
}

/// What a session finds in the place of a polish that was started ahead.
#[derive(Debug)]
pub enum PrefetchTake {
    Absent,
    Own(PolishPrefetch),
    /// It belonged to another session and is to be cancelled.
    Cancel(u64),
}

/// Takes what was started ahead; what belongs to another session is cancelled.
pub fn take_polish_prefetch(slot: &mut Option<PolishPrefetch>, session_id: SessionId) -> (r:
    PrefetchTake)
    ensures
        *final(slot) is None,
        r == (match *old(slot) {
            None => PrefetchTake::Absent,
            Some(prefetch) => if prefetch.session_id == session_id {
                PrefetchTake::Own(prefetch)
            } else {
                PrefetchTake::Cancel(prefetch.task)
            },
        }),
{
    match slot.take() {
        None => PrefetchTake::Absent,
        Some(prefetch) => {
            if prefetch.session_id == session_id {
                PrefetchTake::Own(prefetch)
            } else {
                PrefetchTake::Cancel(prefetch.task)
            }
        },
    }
}

/// A text that a model was never asked about, or that would be shown in another shape, is never
/// polished ahead: with a circuit open, with a translation asked for, or with the built-in raw
/// style, nothing starts.
pub proof fn nothing_is_polished_ahead_in_vain(
    prefs: UserPreferences,
    moment: PolishMoment,
    force_raw_setting: Option<&str>,
    pack: StylePack,
    builtin: BuiltinRawStyle,
    preview: Option<Seq<char>>,
)
    requires
        moment.llm_auth_blocked || moment.llm_stall_blocked || moment.translation_modifier_seen || (
        pack.base_mode == PolishMode::Raw && is_builtin_raw(pack, builtin.id@, builtin.prompt@)),
    ensures
        prefetch_preview(prefs, moment, force_raw_setting, Some(pack), builtin, preview) is None,
{
}

/// A preview is polished ahead wherever nothing speaks against it: the text streams in, nobody
/// translates, the style needs the model, the model is well, and something was said.  What is
/// polished is the preview itself, without white space around it.
pub proof fn an_unhindered_preview_is_polished_ahead(
    prefs: UserPreferences,
    moment: PolishMoment,
    force_raw_setting: Option<&str>,
    pack: Option<StylePack>,
    builtin: BuiltinRawStyle,
    preview: Option<Seq<char>>,
)
    ensures
        ({
            let ahead = prefetch_preview(
                prefs,
                moment,
                force_raw_setting,
                pack,
                builtin,
                preview,
            );
            let wants_raw = pack is Some && pack->0.base_mode == PolishMode::Raw && is_builtin_raw(
                pack->0,
                builtin.id@,
                builtin.prompt@,
            );
            &&& prefs.streaming_insert && !moment.translation_modifier_seen
                && !moment.llm_auth_blocked && !moment.llm_stall_blocked && text_of(
                force_raw_setting,
            ) != Some("1"@) && pack is Some && !wants_raw && preview is Some && !blank(preview->0)
                ==> ahead == Some(trimmed(preview->0))
            &&& ahead is Some ==> prefs.streaming_insert && !moment.translation_modifier_seen
            &&& ahead is Some ==> !moment.llm_auth_blocked && !moment.llm_stall_blocked
            &&& ahead is Some ==> text_of(force_raw_setting) != Some("1"@)
            &&& ahead is Some ==> pack is Some && !wants_raw
            &&& ahead is Some ==> preview is Some && !blank(preview->0) && ahead->0 == trimmed(
                preview->0,
            )
        }),
{
}

/// Every style but raw needs the model; raw needs it unless it is the built-in one.
pub proof fn a_style_needs_the_model_unless_it_is_plain(pack: StylePack, builtin: BuiltinRawStyle)
    ensures
        pack.base_mode != PolishMode::Raw ==> style_needs_model(pack, builtin),
        pack.base_mode == PolishMode::Raw && is_builtin_raw(pack, builtin.id@, builtin.prompt@)
            ==> !style_needs_model(pack, builtin),
        pack.base_mode == PolishMode::Raw && !is_builtin_raw(pack, builtin.id@, builtin.prompt@)
            ==> style_needs_model(pack, builtin),
{
}

/// Only a polish that reported a failure has failed: one that runs, or ended well, has not.
pub proof fn a_running_polish_has_not_failed(prefetch: PolishPrefetch)
    ensures
        prefetch.result is None ==> !prefetch.has_failed(),
        prefetch.has_failed() <==> prefetch.result is Some && prefetch.result->0 is Failed,
{
}

} // verus!
