//! Session identity and the phases a dictation session passes through.

use vstd::prelude::*;
use crate::text::hex_digits;

verus! {

/// The 128 bits that identify one dictation session.  All zero means "no session".
#[derive(Clone, Copy, Debug, PartialEq, Eq, Hash, Structural)]
pub struct SessionId {
    pub bits: u128,
}

/// The hyphenated lower-case form of a 128-bit identifier: groups of 8, 4, 4, 4 and 12
/// hexadecimal digits.
pub open spec fn hyphenated(bits: u128) -> Seq<char> {
    let h = hex_digits(bits as nat, 32);
    h.subrange(0, 8).push('-') + h.subrange(8, 12).push('-') + h.subrange(12, 16).push('-')
        + h.subrange(16, 20).push('-') + h.subrange(20, 32)
}

/// Renders an identifier with `uuid::Uuid::from_u128` and the `Display` of `uuid::Uuid`.
/// Believed: the result is the hyphenated lower-case form, most significant digit first.
#[verifier::external_body]
fn uuid_text(bits: u128) -> (r: String)
    ensures
        r@ == hyphenated(bits),
{
    uuid::Uuid::from_u128(bits).to_string()
}

/// What `uuid::Uuid::parse_str` makes of a text: the 128 bits, or nothing where it refuses.
pub uninterp spec fn uuid_parsed(text: Seq<char>) -> Option<u128>;

/// Reads an identifier with `uuid::Uuid::parse_str` and takes its bits with
/// `uuid::Uuid::as_u128`.  Believed: the result depends on the text alone, and the hyphenated
/// lower-case form of an identifier is read back as that identifier.
#[verifier::external_body]
fn uuid_parse(text: &str) -> (r: Option<u128>)
    ensures
        r == uuid_parsed(text@),
        forall|bits: u128| text@ == #[trigger] hyphenated(bits) ==> r == Some(bits),
{
    uuid::Uuid::parse_str(text).ok().map(|id| id.as_u128())
}

impl SessionId {
    /// Reads an identifier.  What `to_text` writes is read back as the same identifier.
    pub fn from_text(text: &str) -> (r: Option<SessionId>)
        ensures
            r == (match uuid_parsed(text@) {
                Some(bits) => Some(SessionId { bits }),
                None => None,
            }),
            forall|bits: u128|
                text@ == #[trigger] hyphenated(bits) ==> r == Some(SessionId { bits }),
    {
        match uuid_parse(text) {
            Some(bits) => Some(SessionId { bits }),
            None => None,
        }
    }

    /// The identifier that stands for "no session".
    pub fn nil() -> (r: SessionId)
        ensures
            r.bits == 0,
    {
        SessionId { bits: 0 }
    }

    /// Whether this is the identifier that stands for "no session".
    pub fn is_nil(&self) -> (r: bool)
        ensures
            r == (self.bits == 0),
    {
        self.bits == 0
    }

    /// The identifier as it is written into history entries and file names.
    pub fn to_text(&self) -> (r: String)
        ensures
            r@ == hyphenated(self.bits),
    {
        uuid_text(self.bits)
    }
}

/// Where a dictation session stands.
#[derive(Clone, Copy, Debug, PartialEq, Eq, Structural)]
pub enum SessionPhase {
    Idle,
    Starting,
    Listening,
    Processing,
    Inserting,
}

impl SessionPhase {
    /// The label under which a phase is reported.
    pub open spec fn name(self) -> Seq<char> {
        match self {
            SessionPhase::Idle => "idle"@,
            SessionPhase::Starting => "starting"@,
            SessionPhase::Listening => "listening"@,
            SessionPhase::Processing => "processing"@,
            SessionPhase::Inserting => "inserting"@,
        }
    }

    /// The label under which a phase is reported.
    pub fn label(&self) -> (r: &'static str)
        ensures
            r@ == self.name(),
    {
        match self {
            SessionPhase::Idle => "idle",
            SessionPhase::Starting => "starting",
            SessionPhase::Listening => "listening",
            SessionPhase::Processing => "processing",
            SessionPhase::Inserting => "inserting",
        }
    }
}

/// The part of the session state that the rules read and change.
#[derive(Clone, Copy, Debug, PartialEq, Eq, Structural)]
pub struct SessionState {
    pub session_id: SessionId,
    pub phase: SessionPhase,
    pub pending_stop: bool,
    pub cancelled: bool,
    pub user_initiated_stop: bool,
    pub post_dictation_key_claimed: bool,
}

/// The version of the runtime snapshot.
pub const DICTATION_RUNTIME_SNAPSHOT_SCHEMA: &'static str =
    "listener.dictation_runtime_snapshot.v1";

/// What is reported about the running session.
#[derive(Clone, Copy, Debug)]
pub struct DictationRuntimeSnapshot {
    pub schema: &'static str,
    pub request_id: u32,
    pub phase: &'static str,
    pub session_id: Option<SessionId>,
    pub pending_stop: bool,
    pub cancelled: bool,
}

/// Reports the running session; "no session" is reported as absent.
pub fn dictation_runtime_snapshot_from_state(request_id: u32, state: &SessionState) -> (r:
    DictationRuntimeSnapshot)
    ensures
        r.schema@ == "listener.dictation_runtime_snapshot.v1"@,
        r.request_id == request_id,
        r.phase@ == state.phase.name(),
        r.session_id == (if state.session_id.bits == 0 {
            None
        } else {
            Some(state.session_id)
        }),
        r.pending_stop == state.pending_stop,
        r.cancelled == state.cancelled,
{
    DictationRuntimeSnapshot {
        schema: DICTATION_RUNTIME_SNAPSHOT_SCHEMA,
        request_id,
        phase: state.phase.label(),
        session_id: if state.session_id.is_nil() {
            None
        } else {
            Some(state.session_id)
        },
        pending_stop: state.pending_stop,
        cancelled: state.cancelled,
    }
}

/// The phases have different names.
pub proof fn phases_have_different_names(one: SessionPhase, other: SessionPhase)
    ensures
        one.name() == other.name() <==> one == other,
{
    reveal_strlit("idle");
    reveal_strlit("starting");
    reveal_strlit("listening");
    reveal_strlit("processing");
    reveal_strlit("inserting");
    if one.name() == other.name() {
        assert(one.name()[0] == other.name()[0]);
        assert(one.name()[1] == other.name()[1]);
    }
}

/// The text of a session number has thirty-six characters: its thirty-two digits in order, in
/// groups that hyphens part.
pub proof fn a_session_number_is_written_in_groups(bits: u128)
    ensures
        ({
            let text = hyphenated(bits);
            let digits = hex_digits(bits as nat, 32);
            &&& text.len() == 36
            &&& text[8] == '-' && text[13] == '-' && text[18] == '-' && text[23] == '-'
            &&& text.subrange(0, 8) + text.subrange(9, 13) + text.subrange(14, 18) + text.subrange(
                19,
                23,
            ) + text.subrange(24, 36) == digits
        }),
{
    crate::text::a_hexadecimal_number_is_read_back(bits as nat, 32);
    let text = hyphenated(bits);
    let digits = hex_digits(bits as nat, 32);
    assert(text.subrange(0, 8) + text.subrange(9, 13) + text.subrange(14, 18) + text.subrange(
        19,
        23,
    ) + text.subrange(24, 36) =~= digits);
}

/// Two sessions never have the same text.
pub proof fn sessions_have_different_texts(one: u128, other: u128)
    ensures
        hyphenated(one) == hyphenated(other) <==> one == other,
{
    crate::text::a_hexadecimal_number_is_read_back(one as nat, 32);
    crate::text::a_hexadecimal_number_is_read_back(other as nat, 32);
    a_session_number_is_written_in_groups(one);
    a_session_number_is_written_in_groups(other);
    reveal_with_fuel(crate::text::hex_numbers, 33);
    assert(crate::text::hex_numbers(32) == 0x1_0000_0000_0000_0000_0000_0000_0000_0000);
}

} // verus!
