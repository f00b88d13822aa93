//! Writing a text in the preferred Chinese script.

use vstd::prelude::*;
use vstd::string::*;
use crate::delivery::string_of;
use crate::preferences::ChineseScriptPreference;

verus! {

/// What `ferrous_opencc` makes of a text: `to_simplified` selects the built-in configuration
/// `T2s`, and `S2t` otherwise.  Absent where the configuration cannot be loaded.
pub uninterp spec fn opencc_text(to_simplified: bool, text: Seq<char>) -> Option<Seq<char>>;

/// Loads a built-in configuration with `ferrous_opencc::OpenCC::from_config` and converts a text
/// with `ferrous_opencc::OpenCC::convert`.  Believed: both depend on their arguments alone.
#[verifier::external_body]
fn opencc_convert(to_simplified: bool, text: &str) -> (r: Option<String>)
    ensures
        string_of(r) == opencc_text(to_simplified, text@),
{
    let config = match to_simplified {
        true => ferrous_opencc::config::BuiltinConfig::T2s,
        false => ferrous_opencc::config::BuiltinConfig::S2t,
    };
    ferrous_opencc::OpenCC::from_config(config).ok().map(|converter| converter.convert(text))
}

/// A converted text, or the text itself where no converter could be had.
pub fn converted_or_same(text: &str, converted: Option<String>) -> (r: String)
    ensures
        r@ == (match converted {
            Some(c) => c@,
            None => text@,
        }),
{
    match converted {
        Some(c) => c,
        None => text.to_owned(),
    }
}

/// Writes a text in the preferred Chinese script.  Without a preference, and where no converter
/// can be had, the text stays as it is.
pub fn apply_chinese_script_preference(text: &str, pref: ChineseScriptPreference) -> (r: String)
    ensures
        text@.len() == 0 || pref == ChineseScriptPreference::Auto ==> r@ == text@,
        text@.len() > 0 && pref != ChineseScriptPreference::Auto ==> r@ == (match opencc_text(
            pref == ChineseScriptPreference::Simplified,
            text@,
        ) {
            Some(c) => c,
            None => text@,
        }),
{
    if text.is_empty() {
        return String::new();
    }
    match pref {
        ChineseScriptPreference::Simplified => converted_or_same(text, opencc_convert(true, text)),
        ChineseScriptPreference::Traditional => converted_or_same(
            text,
            opencc_convert(false, text),
        ),
        ChineseScriptPreference::Auto => text.to_owned(),
    }
}

} // verus!
