//! The device link: the actor that serialises what happens on it, and what is told about it.

use vstd::prelude::*;
use vstd::string::*;
use crate::delivery::string_of;
use crate::session::{hyphenated, SessionId, SessionPhase};
use crate::stream::{optional_number, SessionStartOrigin, SessionStopOrigin};
use crate::text::{decimal, decimal_digits};

verus! {

/// What a press of the device's recording key asks for.
#[derive(Clone, Copy, Debug, PartialEq, Eq, Structural)]
pub enum DeviceKeyBleRecordingControlDecision {
    Start,
    /// A session is starting already; the press is too early.
    IgnoreStarting { session_id: SessionId, elapsed_ms: u64 },
    Stop { session_id: SessionId, phase: SessionPhase },
}

impl DeviceKeyBleRecordingControlDecision {
    /// The session that a press is about, and its phase.
    pub fn control_session(self) -> (r: Option<(SessionId, SessionPhase)>)
        ensures
            r == (match self {
                DeviceKeyBleRecordingControlDecision::Start => None,
                DeviceKeyBleRecordingControlDecision::IgnoreStarting { session_id, .. } => Some(
                    (session_id, SessionPhase::Starting),
                ),
                DeviceKeyBleRecordingControlDecision::Stop { session_id, phase } => Some(
                    (session_id, phase),
                ),
            }),
    {
        match self {
            DeviceKeyBleRecordingControlDecision::Start => None,
            DeviceKeyBleRecordingControlDecision::IgnoreStarting { session_id, elapsed_ms: _ } => {
                Some((session_id, SessionPhase::Starting))
            },
            DeviceKeyBleRecordingControlDecision::Stop { session_id, phase } => Some(
                (session_id, phase),
            ),
        }
    }
}

/// What a key press that waits for the link will do.
#[derive(Clone, Copy, Debug, PartialEq, Eq, Structural)]
pub enum PendingDeviceKeyBleActionKind {
    Start,
    Stop,
}

impl PendingDeviceKeyBleActionKind {
    /// The label under which a waiting press is reported.
    pub fn label(self) -> (r: &'static str)
        ensures
            r@ == (match self {
                PendingDeviceKeyBleActionKind::Start => "start"@,
                PendingDeviceKeyBleActionKind::Stop => "stop"@,
            }),
    {
        match self {
            PendingDeviceKeyBleActionKind::Start => "start",
            PendingDeviceKeyBleActionKind::Stop => "stop",
        }
    }
}

/// What the actor is asked to do.
#[derive(Clone, Copy, Debug, PartialEq, Eq, Structural)]
pub enum EmbeddedBleSessionActorCommand {
    BlePacket,
    AsrPartial,
    AsrFinal,
    StartCommand,
    StopCommand,
    CancelCommand,
    Timeout,
    NotifyReady,
    NotifyCleanupDelay,
    ActorRestart,
}

impl EmbeddedBleSessionActorCommand {
    /// The label under which a command is recorded.
    pub open spec fn name(self) -> Seq<char> {
        match self {
            EmbeddedBleSessionActorCommand::BlePacket => "ble_packet"@,
            EmbeddedBleSessionActorCommand::AsrPartial => "asr_partial"@,
            EmbeddedBleSessionActorCommand::AsrFinal => "asr_final"@,
            EmbeddedBleSessionActorCommand::StartCommand => "start_command"@,
            EmbeddedBleSessionActorCommand::StopCommand => "stop_command"@,
            EmbeddedBleSessionActorCommand::CancelCommand => "cancel_command"@,
            EmbeddedBleSessionActorCommand::Timeout => "timeout"@,
            EmbeddedBleSessionActorCommand::NotifyReady => "notify_ready"@,
            EmbeddedBleSessionActorCommand::NotifyCleanupDelay => "notify_cleanup_delay"@,
            EmbeddedBleSessionActorCommand::ActorRestart => "actor_restart"@,
        }
    }

    /// The label under which a command is recorded.
    pub fn as_str(self) -> (r: &'static str)
        ensures
            r@ == self.name(),
    {
        match self {
            EmbeddedBleSessionActorCommand::BlePacket => "ble_packet",
            EmbeddedBleSessionActorCommand::AsrPartial => "asr_partial",
            EmbeddedBleSessionActorCommand::AsrFinal => "asr_final",
            EmbeddedBleSessionActorCommand::StartCommand => "start_command",
            EmbeddedBleSessionActorCommand::StopCommand => "stop_command",
            EmbeddedBleSessionActorCommand::CancelCommand => "cancel_command",
            EmbeddedBleSessionActorCommand::Timeout => "timeout",
            EmbeddedBleSessionActorCommand::NotifyReady => "notify_ready",
            EmbeddedBleSessionActorCommand::NotifyCleanupDelay => "notify_cleanup_delay",
            EmbeddedBleSessionActorCommand::ActorRestart => "actor_restart",
        }
    }
}

/// One command that the actor took.
#[derive(Debug)]
pub struct EmbeddedBleSessionActorRecord {
    pub seq: u64,
    pub command: EmbeddedBleSessionActorCommand,
    pub session_id: Option<SessionId>,
    pub detail: String,
}

/// A record in the form in which it is exported.
#[derive(Debug)]
pub struct EmbeddedBleSessionActorDiagnosticRecord {
    pub seq: u64,
    pub command: &'static str,
    pub session_id: Option<String>,
    pub detail: String,
}

impl EmbeddedBleSessionActorRecord {
    /// The record in the form in which it is exported.
    pub fn diagnostic(&self) -> (r: EmbeddedBleSessionActorDiagnosticRecord)
        ensures
            r.seq == self.seq,
            r.command@ == self.command.name(),
            string_of(r.session_id) == (match self.session_id {
                Some(id) => Some(hyphenated(id.bits)),
                None => None,
            }),
            r.detail == self.detail,
    {
        EmbeddedBleSessionActorDiagnosticRecord {
            seq: self.seq,
            command: self.command.as_str(),
            session_id: match self.session_id {
                Some(id) => Some(id.to_text()),
                None => None,
            },
            detail: self.detail.clone(),
        }
    }
}

/// How often the level of one session is traced at most.
pub const EMBEDDED_BLE_PCM_CAPSULE_TRACE_INTERVAL_MS: u64 = 500;

/// Thins out the trace of audio levels.
#[derive(Clone, Copy, Debug, PartialEq, Eq, Structural)]
pub struct EmbeddedBlePcmCapsuleTraceState {
    pub session_id: Option<SessionId>,
    pub last_after_stop: Option<bool>,
    pub last_trace_at: Option<u64>,
}

impl Default for EmbeddedBlePcmCapsuleTraceState {
    fn default() -> (r: EmbeddedBlePcmCapsuleTraceState)
        ensures
            r.session_id is None,
            r.last_after_stop is None,
            r.last_trace_at is None,
    {
        EmbeddedBlePcmCapsuleTraceState {
            session_id: None,
            last_after_stop: None,
            last_trace_at: None,
        }
    }
}

impl EmbeddedBlePcmCapsuleTraceState {
    /// Whether a level is traced: it opens a session, crosses the stop, or is due.
    pub open spec fn traces(self, session_id: SessionId, after_stop: bool, now: u64) -> bool {
        ||| self.session_id != Some(session_id)
        ||| self.last_after_stop != Some(after_stop)
        ||| self.last_trace_at is None
        ||| crate::endpoint::past(now, self.last_trace_at->0)
            >= EMBEDDED_BLE_PCM_CAPSULE_TRACE_INTERVAL_MS
    }

    /// Decides whether a level is traced, and remembers that it was.
    pub fn should_trace(&mut self, session_id: SessionId, after_stop: bool, now: u64) -> (r: bool)
        ensures
            r == old(self).traces(session_id, after_stop, now),
            *final(self) == (if r {
                EmbeddedBlePcmCapsuleTraceState {
                    session_id: Some(session_id),
                    last_after_stop: Some(after_stop),
                    last_trace_at: Some(now),
                }
            } else {
                *old(self)
            }),
    {
        let session_changed: bool = match self.session_id {
            Some(current) => current != session_id,
            None => true,
        };
        let boundary_changed: bool = match self.last_after_stop {
            Some(last) => last != after_stop,
            None => true,
        };
        let due: bool = match self.last_trace_at {
            Some(last) => now.saturating_sub(last) >= EMBEDDED_BLE_PCM_CAPSULE_TRACE_INTERVAL_MS,
            None => true,
        };
        let trace: bool = session_changed || boundary_changed || due;
        if trace {
            self.session_id = Some(session_id);
            self.last_after_stop = Some(after_stop);
            self.last_trace_at = Some(now);
        }
        trace
    }
}

/// A trace is never repeated within the interval: right after one, the same session on the same
/// side of its stop is quiet until the interval has passed.
pub proof fn a_trace_is_followed_by_quiet(
    session_id: SessionId,
    after_stop: bool,
    at: u64,
    now: u64,
)
    requires
        at <= now,
    ensures
        (EmbeddedBlePcmCapsuleTraceState {
            session_id: Some(session_id),
            last_after_stop: Some(after_stop),
            last_trace_at: Some(at),
        }).traces(session_id, after_stop, now) <==> now - at >= 500,
{
}

/// The evidence of where the audio of a session came from, by its number.
#[derive(Clone, Copy, Debug, PartialEq, Eq, Structural)]
pub struct SourceIntegrityLedger {
    pub owner: SessionId,
    pub ledger: u64,
}

/// What the actor keeps for the running session besides its history.
#[derive(Clone, Copy, Debug, PartialEq, Eq, Structural)]
pub struct EmbeddedBleSessionActorState {
    pub pcm_capsule_trace: EmbeddedBlePcmCapsuleTraceState,
    pub source_integrity_ledger: Option<SourceIntegrityLedger>,
    /// The session whose wake segment has ended while the next one may still come.
    pub awaiting_post_activation_segment: Option<SessionId>,
}

impl EmbeddedBleSessionActorState {
    /// The evidence of a session, where it is the one that is kept.
    pub open spec fn ledger_of(self, session_id: SessionId) -> Option<u64> {
        match self.source_integrity_ledger {
            Some(kept) if kept.owner == session_id => Some(kept.ledger),
            _ => None,
        }
    }

    /// Keeps the evidence of a session; only one is kept.
    pub fn register_embedded_source_integrity_ledger(&mut self, session_id: SessionId, ledger: u64)
        ensures
            *final(self) == (EmbeddedBleSessionActorState {
                source_integrity_ledger: Some(
                    SourceIntegrityLedger { owner: session_id, ledger },
                ),
                ..*old(self)
            }),
    {
        self.source_integrity_ledger = Some(SourceIntegrityLedger { owner: session_id, ledger });
    }

    /// The evidence of a session, where it is the one that is kept.
    pub fn embedded_source_integrity_ledger_for_session(&self, session_id: SessionId) -> (r: Option<
        u64,
    >)
        ensures
            r == self.ledger_of(session_id),
    {
        match self.source_integrity_ledger {
            Some(kept) => if kept.owner == session_id {
                Some(kept.ledger)
            } else {
                None
            },
            None => None,
        }
    }

    /// Drops the evidence of a session, and tells whether it was the one that is kept.
    pub fn clear_embedded_source_integrity_ledger(&mut self, session_id: SessionId) -> (r: bool)
        ensures
            r == (old(self).ledger_of(session_id) is Some),
            *final(self) == (EmbeddedBleSessionActorState {
                source_integrity_ledger: if r {
                    None
                } else {
                    old(self).source_integrity_ledger
                },
                ..*old(self)
            }),
    {
        let owned: bool = match self.source_integrity_ledger {
            Some(kept) => kept.owner == session_id,
            None => false,
        };
        if owned {
            self.source_integrity_ledger = None;
        }
        owned
    }
}

/// A session that ends drops its own evidence and nobody else's.
pub proof fn a_session_drops_only_its_own_evidence(
    state: EmbeddedBleSessionActorState,
    ending: SessionId,
    other: SessionId,
)
    requires
        ending != other,
    ensures
        ({
            let after = if state.ledger_of(ending) is Some {
                EmbeddedBleSessionActorState { source_integrity_ledger: None, ..state }
            } else {
                state
            };
            &&& after.ledger_of(ending) is None
            &&& after.ledger_of(other) == state.ledger_of(other)
        }),
{
}

/// Where the recovery of the device link stands.
#[derive(Clone, Copy, Debug, PartialEq, Eq, Structural)]
pub enum EmbeddedBleWakeRecoveryStatus {
    Idle,
    Reconnecting,
    Ready,
    NeedsWakeKey,
    Failed,
}

/// Where the subscription to the device's packets stands.
#[derive(Clone, Copy, Debug, PartialEq, Eq, Structural)]
pub enum EmbeddedBleNotifySubscriptionState {
    Unknown,
    Opening,
    Subscribed,
    Lost,
    Failed,
    Cancelled,
}

/// Which keys wake the device.
#[derive(Clone, Copy, Debug)]
pub struct FirmwareWakePolicySnapshot {
    pub policy: &'static str,
    pub wake_capable_keys: &'static str,
    pub voice_key: &'static str,
    pub voice_key_deep_sleep_wake: bool,
    pub readiness: &'static str,
    pub source: &'static str,
}

impl FirmwareWakePolicySnapshot {
    /// Whether this is the policy of the current board: only the wake key wakes it from deep
    /// sleep.
    pub open spec fn is_current_v1(self) -> bool {
        &&& self.policy@ == "key4_only"@
        &&& self.wake_capable_keys@ == "KEY4/GPIO21"@
        &&& self.voice_key@ == "GPIO35"@
        &&& !self.voice_key_deep_sleep_wake
        &&& self.readiness@ == "voice_key_cannot_wake_from_deep_sleep_on_current_v1_board"@
        &&& self.source@ == "Firmware 1.1 ~POWER:STATUS wake-policy contract"@
    }

    /// The policy of the current board.
    pub fn current_v1() -> (r: FirmwareWakePolicySnapshot)
        ensures
            r.is_current_v1(),
    {
        FirmwareWakePolicySnapshot {
            policy: "key4_only",
            wake_capable_keys: "KEY4/GPIO21",
            voice_key: "GPIO35",
            voice_key_deep_sleep_wake: false,
            readiness: "voice_key_cannot_wake_from_deep_sleep_on_current_v1_board",
            source: "Firmware 1.1 ~POWER:STATUS wake-policy contract",
        }
    }
}

/// What is told about the recovery of the device link.
#[derive(Debug)]
pub struct EmbeddedBleWakeRecoverySnapshot {
    pub status: EmbeddedBleWakeRecoveryStatus,
    pub user_guidance: String,
    pub recent_disconnect_reason: Option<String>,
    pub reconnect_attempts: u32,
    pub consecutive_reconnect_failures: u32,
    pub notify_subscription_state: EmbeddedBleNotifySubscriptionState,
    pub usb_powered: Option<bool>,
    pub battery_percent: Option<u8>,
    pub firmware_wake_policy: FirmwareWakePolicySnapshot,
    pub last_attempt_at: Option<String>,
    pub last_ready_at: Option<String>,
}

impl Default for EmbeddedBleWakeRecoverySnapshot {
    fn default() -> (r: EmbeddedBleWakeRecoverySnapshot)
        ensures
            r.status == EmbeddedBleWakeRecoveryStatus::Idle,
            r.user_guidance@
                == "Listener BLE 空闲。按设备语音键开始录音；若设备离线，请先按 KEY4/唤醒键。"@,
            r.recent_disconnect_reason is None,
            r.reconnect_attempts == 0,
            r.consecutive_reconnect_failures == 0,
            r.notify_subscription_state == EmbeddedBleNotifySubscriptionState::Unknown,
            r.usb_powered is None,
            r.battery_percent is None,
            r.firmware_wake_policy.is_current_v1(),
            r.last_attempt_at is None,
            r.last_ready_at is None,
    {
        EmbeddedBleWakeRecoverySnapshot {
            status: EmbeddedBleWakeRecoveryStatus::Idle,
            user_guidance: "Listener BLE 空闲。按设备语音键开始录音；若设备离线，请先按 KEY4/唤醒键。".to_owned(),
            recent_disconnect_reason: None,
            reconnect_attempts: 0,
            consecutive_reconnect_failures: 0,
            notify_subscription_state: EmbeddedBleNotifySubscriptionState::Unknown,
            usb_powered: None,
            battery_percent: None,
            firmware_wake_policy: FirmwareWakePolicySnapshot::current_v1(),
            last_attempt_at: None,
            last_ready_at: None,
        }
    }
}

/// A packet of audio as it is traced; `metadata` is the collector's own rendering.
#[derive(Debug)]
pub struct StreamingPcmChunk {
    pub session_id: u32,
    pub packet_sequence: u16,
    pub pcm_bytes: usize,
    pub raw_input_level_percent: Option<u8>,
    pub after_stop_boundary: bool,
    pub metadata: String,
}

/// What the device reported, as it is traced.  `error_code` and `reason` are the collector's own
/// renderings.
#[derive(Debug)]
pub enum StreamingSessionEvent {
    Started { session_id: u32, origin: SessionStartOrigin },
    PcmChunk(StreamingPcmChunk),
    Stopped { session_id: u32, expected_packet_count: u16, stop_origin: Option<SessionStopOrigin> },
    Cancelled { session_id: u32, expected_packet_count: u16 },
    Error { session_id: u32, expected_packet_count: u16, error_code: String },
    Ignored { reason: String },
}

/// How an origin of a recording is written.
pub open spec fn start_origin_text(origin: SessionStartOrigin) -> Seq<char> {
    match origin {
        SessionStartOrigin::User => "User"@,
        SessionStartOrigin::VoiceActivation => "VoiceActivation"@,
        SessionStartOrigin::Unknown(value) => "Unknown("@ + decimal_digits(value as nat) + ")"@,
    }
}

/// How the origin of an end is written.
pub open spec fn stop_origin_text(origin: Option<SessionStopOrigin>) -> Seq<char> {
    match origin {
        None => "None"@,
        Some(SessionStopOrigin::User) => "Some(User)"@,
        Some(SessionStopOrigin::VoiceActivation) => "Some(VoiceActivation)"@,
        Some(
            SessionStopOrigin::VoiceActivationMaxDuration,
        ) => "Some(VoiceActivationMaxDuration)"@,
    }
}

fn start_origin_string(origin: SessionStartOrigin) -> (r: String)
    ensures
        r@ == start_origin_text(origin),
{
    match origin {
        SessionStartOrigin::User => "User".to_owned(),
        SessionStartOrigin::VoiceActivation => "VoiceActivation".to_owned(),
        SessionStartOrigin::Unknown(value) => "Unknown(".to_owned().concat(
            decimal(value as u64).as_str(),
        ).concat(")"),
    }
}

fn stop_origin_str(origin: Option<SessionStopOrigin>) -> (r: &'static str)
    ensures
        r@ == stop_origin_text(origin),
{
    match origin {
        None => "None",
        Some(SessionStopOrigin::User) => "Some(User)",
        Some(SessionStopOrigin::VoiceActivation) => "Some(VoiceActivation)",
        Some(SessionStopOrigin::VoiceActivationMaxDuration) => "Some(VoiceActivationMaxDuration)",
    }
}

fn level_string(level: Option<u8>) -> (r: String)
    ensures
        r@ == optional_number(
            match level {
                Some(percent) => Some(percent as u32),
                None => None,
            },
        ),
{
    match level {
        Some(percent) => "Some(".to_owned().concat(decimal(percent as u64).as_str()).concat(")"),
        None => "None".to_owned(),
    }
}

/// The words for an end of a recording.
pub open spec fn end_text(name: Seq<char>, session_id: u32, expected_packet_count: u16) -> Seq<char> {
    "event="@ + name + " embedded_session_id="@ + decimal_digits(session_id as nat)
        + " expected_packets="@ + decimal_digits(expected_packet_count as nat)
}

fn end_string(name: &str, session_id: u32, expected_packet_count: u16) -> (r: String)
    ensures
        r@ == end_text(name@, session_id, expected_packet_count),
{
    "event=".to_owned().concat(name).concat(" embedded_session_id=").concat(
        decimal(session_id as u64).as_str(),
    ).concat(" expected_packets=").concat(decimal(expected_packet_count as u64).as_str())
}

/// The words for what the device reported.
pub open spec fn event_text(event: StreamingSessionEvent) -> Seq<char> {
    match event {
        StreamingSessionEvent::Started { session_id, origin } => "event=start embedded_session_id="@
            + decimal_digits(session_id as nat) + " origin="@ + start_origin_text(origin),
        StreamingSessionEvent::PcmChunk(chunk) => "event=pcm embedded_session_id="@
            + decimal_digits(chunk.session_id as nat) + " packet_sequence="@ + decimal_digits(
            chunk.packet_sequence as nat,
        ) + " pcm_bytes="@ + decimal_digits(chunk.pcm_bytes as nat) + " raw_input_level_percent="@
            + optional_number(
            match chunk.raw_input_level_percent {
                Some(percent) => Some(percent as u32),
                None => None,
            },
        ) + " after_stop="@ + (if chunk.after_stop_boundary {
            "true"@
        } else {
            "false"@
        }) + " collector_metadata="@ + chunk.metadata@,
        StreamingSessionEvent::Stopped { session_id, expected_packet_count, stop_origin } =>
            end_text("stop"@, session_id, expected_packet_count) + " origin="@ + stop_origin_text(
            stop_origin,
        ),
        StreamingSessionEvent::Cancelled { session_id, expected_packet_count } => end_text(
            "cancel"@,
            session_id,
            expected_packet_count,
        ),
        StreamingSessionEvent::Error { session_id, expected_packet_count, error_code } => end_text(
            "error"@,
            session_id,
            expected_packet_count,
        ) + " error_code="@ + error_code@,
        StreamingSessionEvent::Ignored { reason } => "event=ignored reason="@ + reason@,
    }
}

/// Puts what the device reported into words.
pub fn embedded_ble_session_event_detail(event: &StreamingSessionEvent) -> (r: String)
    ensures
        r@ == event_text(*event),
{
    match event {
        StreamingSessionEvent::Started { session_id, origin } => {
            "event=start embedded_session_id=".to_owned().concat(
                decimal(*session_id as u64).as_str(),
            ).concat(" origin=").concat(start_origin_string(*origin).as_str())
        },
        StreamingSessionEvent::PcmChunk(chunk) => {
            let after_stop = if chunk.after_stop_boundary {
                "true"
            } else {
                "false"
            };
            "event=pcm embedded_session_id=".to_owned().concat(
                decimal(chunk.session_id as u64).as_str(),
            ).concat(" packet_sequence=").concat(
                decimal(chunk.packet_sequence as u64).as_str(),
            ).concat(" pcm_bytes=").concat(decimal(chunk.pcm_bytes as u64).as_str()).concat(
                " raw_input_level_percent=",
            ).concat(level_string(chunk.raw_input_level_percent).as_str()).concat(
                " after_stop=",
            ).concat(after_stop).concat(" collector_metadata=").concat(chunk.metadata.as_str())
        },
        StreamingSessionEvent::Stopped { session_id, expected_packet_count, stop_origin } => {
            end_string("stop", *session_id, *expected_packet_count).concat(" origin=").concat(
                stop_origin_str(*stop_origin),
            )
        },
        StreamingSessionEvent::Cancelled { session_id, expected_packet_count } => {
            end_string("cancel", *session_id, *expected_packet_count)
        },
        StreamingSessionEvent::Error { session_id, expected_packet_count, error_code } => {
            end_string("error", *session_id, *expected_packet_count).concat(" error_code=").concat(
                error_code.as_str(),
            )
        },
        StreamingSessionEvent::Ignored { reason } => "event=ignored reason=".to_owned().concat(
            reason.as_str(),
        ),
    }
}

/// Of ordinary audio packets, every so many-th is traced.
pub const EMBEDDED_BLE_PCM_EVENT_TRACE_PACKET_INTERVAL: u16 = 50;

/// Whether a report is traced: every report but most audio packets before the stop.
pub fn embedded_ble_session_event_should_trace(event: &StreamingSessionEvent) -> (r: bool)
    ensures
        r == (match *event {
            StreamingSessionEvent::PcmChunk(chunk) => chunk.after_stop_boundary
                || chunk.packet_sequence % 50 == 0,
            _ => true,
        }),
{
    match event {
        StreamingSessionEvent::PcmChunk(chunk) => chunk.after_stop_boundary || chunk.packet_sequence
            == 0 || chunk.packet_sequence % EMBEDDED_BLE_PCM_EVENT_TRACE_PACKET_INTERVAL == 0,
        _ => true,
    }
}

/// Whether an audio packet goes to the recogniser.  All do: the collector checked whose it is,
/// and audio that drains after the stop belongs to the recording.
pub fn embedded_streaming_chunk_is_asr_input(chunk: &StreamingPcmChunk) -> (r: bool)
    ensures
        r,
{
    true
}

/// A trace is written where the session is another, where its stop lies between, where none was
/// written, and after half a second; and not otherwise.
pub proof fn a_trace_is_written_with_cause(
    state: EmbeddedBlePcmCapsuleTraceState,
    session_id: SessionId,
    after_stop: bool,
    now: u64,
)
    ensures
        ({
            let written = state.traces(session_id, after_stop, now);
            &&& state.session_id != Some(session_id) ==> written
            &&& state.last_after_stop != Some(after_stop) ==> written
            &&& state.last_trace_at is None ==> written
            &&& state.last_trace_at is Some && now >= state.last_trace_at->0 + 500 ==> written
            &&& written && state.session_id == Some(session_id) && state.last_after_stop == Some(
                after_stop,
            ) && state.last_trace_at is Some ==> now >= state.last_trace_at->0 + 500
        }),
{
}

/// The evidence that is kept is found under its own session and no other.
pub proof fn evidence_is_found_under_its_session(
    state: EmbeddedBleSessionActorState,
    session_id: SessionId,
)
    ensures
        state.ledger_of(session_id) is Some <==> state.source_integrity_ledger is Some
            && state.source_integrity_ledger->0.owner == session_id,
        state.ledger_of(session_id) is Some ==> state.ledger_of(session_id)->0
            == state.source_integrity_ledger->0.ledger,
{
}

/// Whether `tail` is what `text` ends with.
pub open spec fn ends_with(text: Seq<char>, tail: Seq<char>) -> bool {
    text.len() >= tail.len() && text.skip(text.len() - tail.len()) == tail
}

/// What is written of an event ends with what is particular to it: where a recording came from, why
/// it stopped, what failed, why it was left alone.
pub proof fn an_event_is_written_with_its_reason(event: StreamingSessionEvent)
    ensures
        event is Started ==> ends_with(event_text(event), start_origin_text(event->origin)),
        event is Stopped ==> ends_with(event_text(event), stop_origin_text(event->stop_origin)),
        event is PcmChunk ==> ends_with(event_text(event), event->PcmChunk_0.metadata@),
        event is Error ==> ends_with(event_text(event), event->error_code@),
        event is Ignored ==> ends_with(event_text(event), event->reason@),
        event is Cancelled ==> ends_with(
            event_text(event),
            decimal_digits(event->Cancelled_expected_packet_count as nat),
        ),
{
    let text = event_text(event);
    match event {
        StreamingSessionEvent::Started { session_id, origin } => {
            let tail = start_origin_text(origin);
            assert(text.skip(text.len() - tail.len()) =~= tail);
        },
        StreamingSessionEvent::PcmChunk(chunk) => {
            let tail = chunk.metadata@;
            assert(text.skip(text.len() - tail.len()) =~= tail);
        },
        StreamingSessionEvent::Stopped { session_id, expected_packet_count, stop_origin } => {
            let tail = stop_origin_text(stop_origin);
            assert(text.skip(text.len() - tail.len()) =~= tail);
        },
        StreamingSessionEvent::Cancelled { session_id, expected_packet_count } => {
            let tail = decimal_digits(expected_packet_count as nat);
            assert(text.skip(text.len() - tail.len()) =~= tail);
        },
        StreamingSessionEvent::Error { session_id, expected_packet_count, error_code } => {
            let tail = error_code@;
            assert(text.skip(text.len() - tail.len()) =~= tail);
        },
        StreamingSessionEvent::Ignored { reason } => {
            let tail = reason@;
            assert(text.skip(text.len() - tail.len()) =~= tail);
        },
    }
}

} // verus!
