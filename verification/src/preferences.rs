//! The settings that the rules read, and the desktop they run on.

use vstd::prelude::*;

verus! {

/// The desktop system.
#[derive(Clone, Copy, Debug, PartialEq, Eq, Structural)]
pub enum Platform {
    Windows,
    MacOs,
    Linux,
}

/// How a transcript is to read.
#[derive(Clone, Copy, Debug, PartialEq, Eq, Structural)]
pub enum PolishMode {
    Raw,
    Light,
    Structured,
    Formal,
}

/// The Chinese script that texts are written in.
#[derive(Clone, Copy, Debug, PartialEq, Eq, Structural)]
pub enum ChineseScriptPreference {
    Auto,
    Simplified,
    Traditional,
}

/// The language that texts are written in.
#[derive(Clone, Copy, Debug, PartialEq, Eq, Structural)]
pub enum OutputLanguagePreference {
    Auto,
    ZhCn,
    ZhTw,
    En,
    Ja,
    Ko,
}

/// The key that may follow a dictation.
#[derive(Clone, Copy, Debug, PartialEq, Eq, Structural)]
pub enum PostDictationKey {
    Enter,
    CtrlEnter,
}

/// Where audio comes from.
#[derive(Clone, Copy, Debug, PartialEq, Eq, Structural)]
pub enum DictationInputSource {
    Microphone,
    EmbeddedBle,
}

/// A key with its modifiers.
#[derive(Debug)]
pub struct ShortcutBinding {
    pub primary: String,
    pub modifiers: Vec<String>,
}

/// The part of the user's settings that the rules read.
#[derive(Clone, Debug)]
pub struct UserPreferences {
    pub active_asr_provider: String,
    pub dictation_input_source: DictationInputSource,
    pub dictation_input_source_user_overridden: bool,
    pub working_languages: Vec<String>,
    pub chinese_script_preference: ChineseScriptPreference,
    pub output_language_preference: OutputLanguagePreference,
    pub foundry_local_asr_language_hint: String,
    pub foundry_local_asr_model: String,
    pub foundry_local_runtime_source: String,
    pub foundry_local_asr_keep_loaded_secs: u32,
    pub local_asr_keep_loaded_secs: u32,
    pub record_audio_for_debug: bool,
    pub translation_target_language: String,
    pub restore_clipboard_after_paste: bool,
    pub copy_dictation_to_clipboard: bool,
    pub allow_non_tsf_insertion_fallback: bool,
    pub streaming_insert: bool,
    pub send_key_after_dictation: bool,
    pub post_dictation_key: PostDictationKey,
    pub polish_context_window_minutes: u32,
}

/// Whether a style pack came with the program or was made by the user.
#[derive(Clone, Copy, Debug, PartialEq, Eq, Structural)]
pub enum StylePackKind {
    Builtin,
    Custom,
}

/// A writing style.
#[derive(Clone, Debug)]
pub struct StylePack {
    pub id: String,
    pub name: String,
    pub kind: StylePackKind,
    pub base_mode: PolishMode,
    pub prompt: String,
}

} // verus!
