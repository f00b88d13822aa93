//! The entry points of the program: starting and stopping by hand, checking and repairing the
//! device link, and giving the link to a firmware update.

use vstd::prelude::*;
use vstd::string::*;
use crate::ble::EmbeddedBleWakeRecoverySnapshot;
use crate::capsule::{
    layout_after_placing,
    needs_placing,
    reposition_capsule_after_display_change,
    CapsuleLayoutState,
    MonitorGeometry,
};
use crate::continuation::TerminalWakeContinuation;
use crate::delivery::string_of;
use crate::device::DeviceContext;
use crate::hotkeys::{bridged, hotkey_bridge_loop, BridgeAction, HotkeyEvent};
use crate::preferences::{DictationInputSource, UserPreferences};
use crate::recording::{cancel_session, CancelRoute, StopStep};
use crate::session::{
    dictation_runtime_snapshot_from_state,
    uuid_parsed,
    DictationRuntimeSnapshot,
    SessionId,
    SessionPhase,
    SessionState,
};
use crate::text::{decimal, decimal_digits};

verus! {

/// How long a check of the device link may take where nothing is asked for.
pub const PROBE_DEFAULT_MS: u64 = 10_000;
/// How long a repair of the device link may take where nothing is asked for.
pub const REPAIR_DEFAULT_MS: u64 = 12_000;
/// How long the device link is waited for before a recording.
pub const EMBEDDED_BLE_WAKE_RECOVERY_TIMEOUT_MS: u64 = 12_000;
/// How long the device link is waited for after a check, at most.
pub const EMBEDDED_BLE_PROBE_RECOVERY_TIMEOUT_MS: u64 = 8_000;
/// How long the device link has to hold after a firmware update to count as ready.
pub const OTA_READY_HOLD_MS: u64 = 250;

/// A number within bounds.
pub open spec fn within(value: u64, low: u64, high: u64) -> u64 {
    if value < low {
        low
    } else if value > high {
        high
    } else {
        value
    }
}

fn clamp(value: u64, low: u64, high: u64) -> (r: u64)
    ensures
        r == within(value, low, high),
{
    if value < low {
        low
    } else if value > high {
        high
    } else {
        value
    }
}

/// How long the parts of a check of the device link may take.
#[derive(Clone, Copy, Debug, PartialEq, Eq, Structural)]
pub struct ProbeTimeouts {
    /// The check itself.
    pub probe_ms: u64,
    /// Waiting for the listener in the background, where it does the check.
    pub background_ms: u64,
    /// The check itself, with what it takes to start and end it.
    pub budget_ms: u64,
    /// Waiting for the listener in the background after the check.
    pub recovery_ms: u64,
}

/// How long the parts of a check of the device link may take: between one and thirty seconds for
/// the check, at least twenty for the listener, and four more for the check as a whole.
pub fn probe_timeouts(timeout_ms: Option<u64>) -> (r: ProbeTimeouts)
    ensures
        r.probe_ms == within(
            match timeout_ms {
                Some(asked) => asked,
                None => 10_000,
            },
            1_000,
            30_000,
        ),
        r.background_ms == (if r.probe_ms > 20_000 {
            r.probe_ms
        } else {
            20_000
        }),
        r.budget_ms == r.probe_ms + 4_000,
        r.recovery_ms == (if r.probe_ms < 8_000 {
            r.probe_ms
        } else {
            8_000
        }),
{
    let asked: u64 = match timeout_ms {
        Some(value) => value,
        None => PROBE_DEFAULT_MS,
    };
    let probe_ms: u64 = clamp(asked, 1_000, 30_000);
    ProbeTimeouts {
        probe_ms,
        background_ms: if probe_ms > 20_000 {
            probe_ms
        } else {
            20_000
        },
        budget_ms: probe_ms + 4_000,
        recovery_ms: if probe_ms < EMBEDDED_BLE_PROBE_RECOVERY_TIMEOUT_MS {
            probe_ms
        } else {
            EMBEDDED_BLE_PROBE_RECOVERY_TIMEOUT_MS
        },
    }
}

/// How a check of the device link is done.
#[derive(Clone, Copy, Debug, PartialEq, Eq, Structural)]
pub enum EmbeddedBleForegroundProbeMode {
    /// The listener in the background works; it is left alone.
    ReuseReadyBackground,
    RefreshBackgroundListener,
    StartBackgroundListener,
    /// The check opens the link itself.
    ForegroundProbe,
}

/// What a check of the device link waits for.
#[derive(Clone, Copy, Debug, PartialEq, Eq, Structural)]
pub enum ProbeStage {
    /// The listener in the background does the check.
    Background,
    /// The check runs.
    Foreground,
    /// The check succeeded, and the listener in the background comes back.
    Recovery,
}

/// Where a check of the device link stands.
#[derive(Clone, Copy, Debug)]
pub enum ProbeStep {
    /// The listener is refreshed under this reason, and waited for.
    AwaitBackground { refresh_reason: &'static str },
    /// The listener is paused, and the check runs.
    AwaitForeground,
    /// The link is recorded as ready, the listener refreshed and waited for.
    AwaitRecovery,
    /// The link works and is recorded as ready.
    Ready,
    /// The failure is recorded; after a check of its own the listener is refreshed.
    Failed { refresh: bool },
    /// The check succeeded but the listener did not come back.
    NotRecovered,
}

/// Begins a check of the device link.
pub fn probe_embedded_audio_ble_subscription(mode: EmbeddedBleForegroundProbeMode) -> (r: ProbeStep)
    ensures
        mode == EmbeddedBleForegroundProbeMode::ReuseReadyBackground ==> r is Ready,
        mode == EmbeddedBleForegroundProbeMode::RefreshBackgroundListener ==> (r matches
            ProbeStep::AwaitBackground { refresh_reason } && refresh_reason@
            == "foreground_probe_refresh"@),
        mode == EmbeddedBleForegroundProbeMode::StartBackgroundListener ==> (r matches
            ProbeStep::AwaitBackground { refresh_reason } && refresh_reason@
            == "foreground_probe"@),
        mode == EmbeddedBleForegroundProbeMode::ForegroundProbe ==> r is AwaitForeground,
{
    match mode {
        EmbeddedBleForegroundProbeMode::ReuseReadyBackground => ProbeStep::Ready,
        EmbeddedBleForegroundProbeMode::RefreshBackgroundListener => ProbeStep::AwaitBackground {
            refresh_reason: "foreground_probe_refresh",
        },
        EmbeddedBleForegroundProbeMode::StartBackgroundListener => ProbeStep::AwaitBackground {
            refresh_reason: "foreground_probe",
        },
        EmbeddedBleForegroundProbeMode::ForegroundProbe => ProbeStep::AwaitForeground,
    }
}

/// Moves a check of the device link on, once what it waited for went well or not.
pub fn probe_step(stage: ProbeStage, ok: bool) -> (r: ProbeStep)
    ensures
        stage == ProbeStage::Background ==> r == (if ok {
            ProbeStep::Ready
        } else {
            ProbeStep::Failed { refresh: false }
        }),
        stage == ProbeStage::Foreground ==> r == (if ok {
            ProbeStep::AwaitRecovery
        } else {
            ProbeStep::Failed { refresh: true }
        }),
        stage == ProbeStage::Recovery ==> r == (if ok {
            ProbeStep::Ready
        } else {
            ProbeStep::NotRecovered
        }),
{
    match stage {
        ProbeStage::Background => {
            if ok {
                ProbeStep::Ready
            } else {
                ProbeStep::Failed { refresh: false }
            }
        },
        ProbeStage::Foreground => {
            if ok {
                ProbeStep::AwaitRecovery
            } else {
                ProbeStep::Failed { refresh: true }
            }
        },
        ProbeStage::Recovery => {
            if ok {
                ProbeStep::Ready
            } else {
                ProbeStep::NotRecovered
            }
        },
    }
}

/// How a check that opens the link itself ended.
#[derive(Debug)]
pub enum ForegroundProbe {
    /// It was given up after its budget.
    TimedOut,
    /// It did not run to its end.
    TaskFailed(String),
    Finished(Result<(), String>),
}

/// What a check that opens the link itself is reported with.
pub fn foreground_probe_result(times: ProbeTimeouts, probe: ForegroundProbe) -> (r: Result<
    (),
    String,
>)
    ensures
        match probe {
            ForegroundProbe::TimedOut => r is Err && r->Err_0@
                == "BLE subscription check timed out after "@ + decimal_digits(
                times.budget_ms as nat,
            ) + " ms"@,
            ForegroundProbe::TaskFailed(reason) => r is Err && r->Err_0@
                == "嵌入式 BLE 通路探测任务失败: "@ + reason@,
            ForegroundProbe::Finished(result) => r == result,
        },
{
    match probe {
        ForegroundProbe::TimedOut => Err(
            "BLE subscription check timed out after ".to_owned().concat(
                decimal(times.budget_ms).as_str(),
            ).concat(" ms"),
        ),
        ForegroundProbe::TaskFailed(reason) => Err(
            "嵌入式 BLE 通路探测任务失败: ".to_owned().concat(reason.as_str()),
        ),
        ForegroundProbe::Finished(result) => result,
    }
}

/// How long a repair of the device link may take.
pub fn repair_embedded_ble_connection(timeout_ms: Option<u64>) -> (r: u64)
    ensures
        r == within(
            match timeout_ms {
                Some(asked) => asked,
                None => 12_000,
            },
            1_000,
            45_000,
        ),
{
    let asked: u64 = match timeout_ms {
        Some(value) => value,
        None => REPAIR_DEFAULT_MS,
    };
    clamp(asked, 1_000, 45_000)
}

/// How a repair of the device link ended.
#[derive(Debug)]
pub struct RepairEnd {
    /// What is reported: the state of the link, or why it did not come back.
    pub result: Result<EmbeddedBleWakeRecoverySnapshot, String>,
    /// The last error is forgotten, and the link is recorded as ready.
    pub link_ready: bool,
    /// The error that is recorded as the last one, and as a failure of the recovery.
    pub recorded: Option<String>,
}

/// Ends a repair of the device link once the link was waited for; `snapshot` is the state of the
/// link then.
pub fn settle_repair(
    waited: Result<(), String>,
    snapshot: EmbeddedBleWakeRecoverySnapshot,
) -> (r: RepairEnd)
    ensures
        match waited {
            Ok(_) => {
                &&& r.result == Ok::<EmbeddedBleWakeRecoverySnapshot, String>(snapshot)
                &&& r.link_ready
                &&& r.recorded is None
            },
            Err(error) => {
                &&& r.result == Err::<EmbeddedBleWakeRecoverySnapshot, String>(error)
                &&& !r.link_ready
                &&& string_of(r.recorded) == Some(error@)
            },
        },
{
    match waited {
        Ok(_) => RepairEnd { result: Ok(snapshot), link_ready: true, recorded: None },
        Err(error) => {
            let recorded: String = error.as_str().to_owned();
            RepairEnd { result: Err(error), link_ready: false, recorded: Some(recorded) }
        },
    }
}

/// Where the beginning of a dictation by hand stands.
#[derive(Clone, Copy, Debug)]
pub enum StartStep {
    /// The microphone of the computer records.
    RecordMicrophone,
    /// The device is asked to record, for this reason.
    RequestDevice { reason: &'static str },
    /// The link is refreshed and waited for; the capsule says so.
    RecoverLink,
    /// The failure is recorded, and the capsule says so for a while.
    Failed,
}

/// The words while the device link is being restored.
pub const RECOVERING_LINK: &'static str = "正在恢复 Listener BLE";
/// The words when it could not be restored.
pub const LINK_NOT_RECOVERED: &'static str = "Listener 音频通道未恢复";
/// How long those words stay.
pub const LINK_NOT_RECOVERED_MS: u64 = 5_000;

/// What a stop by hand leads to.
#[derive(Clone, Copy, Debug, PartialEq, Eq, Structural)]
pub enum ManualStop {
    /// The device was stopped; the rest follows with its last packet.
    Done,
    EndSession,
    /// The session is still starting; it is stopped once it has.
    StopOnceStarted,
    /// The device could not be told to stop.
    Failed,
    /// The stop still waits for the device.
    Pending,
}

/// What the choice of an input source leads to at the start of the program.
#[derive(Clone, Copy, Debug, PartialEq, Eq, Structural)]
pub enum InputSourceStartup {
    /// The device link is switched off.
    Disabled,
    /// The device is in use: its link is opened at once, and its settings are read afterwards.
    OpenLink,
    /// The user chose another source; the device is not looked for.
    LeaveChoice,
    /// The device is looked for, and may become the source.
    Probe,
}

/// The state that the entry points share.
#[derive(Debug)]
pub struct Coordinator {
    pub state: SessionState,
    /// A firmware update owns the device link.
    pub embedded_ble_ota_active: bool,
    pub shutdown: bool,
    /// A shortcut is being recorded; no shortcut counts.
    pub shortcut_recording_active: bool,
    /// A cancel without a session was handled already.
    pub idle_hotkey_cancel_sent: bool,
    /// The trigger is held down.
    pub hotkey_trigger_held: bool,
    pub embedded_ble_listener_generation: u64,
    pub embedded_ble_listener_ready: bool,
    pub capsule_layout: Option<CapsuleLayoutState>,
    pub embedded_ble_wake_recovery: EmbeddedBleWakeRecoverySnapshot,
}

impl Coordinator {
    /// A coordinator without a session.
    pub fn new() -> (r: Coordinator)
        ensures
            r.state.session_id.bits == 0,
            r.state.phase == SessionPhase::Idle,
            !r.state.pending_stop,
            !r.state.cancelled,
            !r.state.user_initiated_stop,
            !r.state.post_dictation_key_claimed,
            !r.embedded_ble_ota_active,
            !r.shutdown,
            !r.shortcut_recording_active,
            !r.idle_hotkey_cancel_sent,
            !r.hotkey_trigger_held,
            r.embedded_ble_listener_generation == 0,
            !r.embedded_ble_listener_ready,
            r.capsule_layout is None,
            r.embedded_ble_wake_recovery.status == crate::ble::EmbeddedBleWakeRecoveryStatus::Idle,
            r.embedded_ble_wake_recovery.firmware_wake_policy.is_current_v1(),
    {
        Coordinator {
            state: SessionState {
                session_id: SessionId::nil(),
                phase: SessionPhase::Idle,
                pending_stop: false,
                cancelled: false,
                user_initiated_stop: false,
                post_dictation_key_claimed: false,
            },
            embedded_ble_ota_active: false,
            shutdown: false,
            shortcut_recording_active: false,
            idle_hotkey_cancel_sent: false,
            hotkey_trigger_held: false,
            embedded_ble_listener_generation: 0,
            embedded_ble_listener_ready: false,
            capsule_layout: None,
            embedded_ble_wake_recovery: EmbeddedBleWakeRecoverySnapshot::default(),
        }
    }

    /// The phase of the session.
    pub fn dictation_phase_for_cli(&self) -> (r: SessionPhase)
        ensures
            r == self.state.phase,
    {
        self.state.phase
    }

    /// What is reported about the session.
    pub fn dictation_runtime_snapshot(&self, request_id: u32) -> (r: DictationRuntimeSnapshot)
        ensures
            r.schema@ == "listener.dictation_runtime_snapshot.v1"@,
            r.request_id == request_id,
            r.phase@ == self.state.phase.name(),
            r.session_id == (if self.state.session_id.bits == 0 {
                None
            } else {
                Some(self.state.session_id)
            }),
            r.pending_stop == self.state.pending_stop,
            r.cancelled == self.state.cancelled,
    {
        dictation_runtime_snapshot_from_state(request_id, &self.state)
    }

    /// Which listener in the background is the current one.
    pub fn embedded_ble_listener_generation(&self) -> (r: u64)
        ensures
            r == self.embedded_ble_listener_generation,
    {
        self.embedded_ble_listener_generation
    }

    /// Begins a cancel by hand.
    pub fn cancel_dictation<T>(
        &self,
        continuation: &mut Option<TerminalWakeContinuation<T>>,
        context: DeviceContext,
    ) -> (r: CancelRoute)
        ensures
            *final(continuation) is None,
            r.lift_guard == (*old(continuation) is Some),
            r.through_actor == context.cancel_active(self.state.phase),
    {
        cancel_session(continuation, context, &self.state)
    }

    /// Begins or ends the recording of a shortcut.  Its beginning lets no key count as held;
    /// `true` asks for the monitors to follow.
    pub fn set_shortcut_recording_active(&mut self, active: bool) -> (r: bool)
        ensures
            r == active,
            *final(self) == (Coordinator {
                shortcut_recording_active: active,
                hotkey_trigger_held: !active && old(self).hotkey_trigger_held,
                ..*old(self)
            }),
    {
        self.shortcut_recording_active = active;
        if active {
            self.hotkey_trigger_held = false;
        }
        active
    }

    /// Decides what a report of a shortcut monitor leads to.
    pub fn handle_hotkey(&mut self, event: HotkeyEvent, translation_by_modifier: bool) -> (r:
        BridgeAction)
        ensures
            ({
                let next = bridged(
                    old(self).idle_hotkey_cancel_sent,
                    old(self).shortcut_recording_active,
                    event,
                    old(self).state.phase,
                    translation_by_modifier,
                );
                &&& r == next.1
                &&& *final(self) == (Coordinator { idle_hotkey_cancel_sent: next.0, ..*old(self) })
            }),
    {
        hotkey_bridge_loop(
            &mut self.idle_hotkey_cancel_sent,
            self.shortcut_recording_active,
            event,
            self.state.phase,
            translation_by_modifier,
        )
    }

    /// Begins a dictation by hand.
    pub fn start_dictation(&self, prefs: &UserPreferences) -> (r: StartStep)
        ensures
            prefs.dictation_input_source == DictationInputSource::Microphone ==> r
                is RecordMicrophone,
            prefs.dictation_input_source == DictationInputSource::EmbeddedBle
                && self.embedded_ble_listener_ready ==> (r matches StartStep::RequestDevice {
                reason,
            } && reason@ == "host_start_ready_listener"@),
            prefs.dictation_input_source == DictationInputSource::EmbeddedBle
                && !self.embedded_ble_listener_ready ==> r is RecoverLink,
    {
        match prefs.dictation_input_source {
            DictationInputSource::Microphone => StartStep::RecordMicrophone,
            DictationInputSource::EmbeddedBle => {
                if self.embedded_ble_listener_ready {
                    StartStep::RequestDevice { reason: "host_start_ready_listener" }
                } else {
                    StartStep::RecoverLink
                }
            },
        }
    }

    /// Goes on with a dictation whose device link was restored, or was not.
    pub fn start_after_recovery(recovered: bool) -> (r: StartStep)
        ensures
            recovered ==> (r matches StartStep::RequestDevice { reason } && reason@
                == "host_start_after_recovery"@),
            !recovered ==> r is Failed,
    {
        if recovered {
            StartStep::RequestDevice { reason: "host_start_after_recovery" }
        } else {
            StartStep::Failed
        }
    }

    /// Goes on with a stop by hand once it is known what the device made of it.
    /// `listening_without_recogniser` tells that no recogniser will end the session.
    pub fn stop_dictation(&self, device: StopStep, listening_without_recogniser: bool) -> (r:
        ManualStop)
        ensures
            r == (match device {
                StopStep::Await(_) => ManualStop::Pending,
                StopStep::WriteFailed => ManualStop::Failed,
                StopStep::Stopped => if listening_without_recogniser {
                    ManualStop::EndSession
                } else {
                    ManualStop::Done
                },
                _ => if self.state.phase == SessionPhase::Starting {
                    ManualStop::StopOnceStarted
                } else {
                    ManualStop::EndSession
                },
            }),
    {
        match device {
            StopStep::Await(_) => ManualStop::Pending,
            StopStep::WriteFailed => ManualStop::Failed,
            StopStep::Stopped => {
                if listening_without_recogniser {
                    ManualStop::EndSession
                } else {
                    ManualStop::Done
                }
            },
            _ => {
                if self.state.phase == SessionPhase::Starting {
                    ManualStop::StopOnceStarted
                } else {
                    ManualStop::EndSession
                }
            },
        }
    }

    /// Gives the device link to a firmware update, unless one has it.  `true` asks for
    /// everything that records to end and for the capsule to hide.
    pub fn try_begin_firmware_ota_transfer(&mut self) -> (r: bool)
        ensures
            r == old(self).grants_ota(),
            *final(self) == old(self).ota_begun(),
    {
        let free: bool = !self.embedded_ble_ota_active;
        self.embedded_ble_ota_active = true;
        free
    }

    /// Gives the device link to a firmware update, whether or not one has it.
    pub fn begin_firmware_ota_transfer(&mut self)
        ensures
            *final(self) == old(self).ota_begun(),
    {
        let _ = self.try_begin_firmware_ota_transfer();
    }

    /// Whether a firmware update owns the device link.
    pub fn firmware_ota_transfer_active(&self) -> (r: bool)
        ensures
            r == self.embedded_ble_ota_active,
    {
        self.embedded_ble_ota_active
    }

    /// Takes the device link back from a firmware update.  `true` asks for the listener to be
    /// refreshed; a caller that restores it itself passes `false` for `restore_listener`.
    pub fn end_firmware_ota_transfer_with_listener_restore(
        &mut self,
        restore_listener: bool,
        listener_expected: bool,
    ) -> (r: bool)
        ensures
            r == (restore_listener && listener_expected),
            *final(self) == old(self).ota_ended(),
    {
        self.embedded_ble_ota_active = false;
        restore_listener && listener_expected
    }

    /// Takes the device link back from a firmware update.
    pub fn end_firmware_ota_transfer(&mut self, listener_expected: bool) -> (r: bool)
        ensures
            r == listener_expected,
            *final(self) == old(self).ota_ended(),
    {
        self.end_firmware_ota_transfer_with_listener_restore(true, listener_expected)
    }

    /// Takes the device link back from a firmware update that failed.  `true` asks for the
    /// listener to be restored without touching the pairing.
    pub fn end_failed_firmware_ota_transfer(&mut self, listener_expected: bool) -> (r: bool)
        ensures
            r == listener_expected,
            *final(self) == old(self).ota_ended(),
    {
        let _ = self.end_firmware_ota_transfer_with_listener_restore(false, listener_expected);
        listener_expected
    }

    /// What a firmware update that ended learns of the listener in the background: it is waited
    /// for where the device is the source in use, until the link held for a while.
    pub fn wait_for_embedded_ble_listener_ready_after_firmware_ota(
        listener_expected: bool,
        waited: Option<Result<(), String>>,
    ) -> (r: Option<Result<bool, String>>)
        ensures
            r == listener_readiness(listener_expected, waited),
    {
        listener_ready_around_firmware_ota(listener_expected, waited)
    }

    /// What a firmware update that begins learns of the listener in the background: it is waited
    /// for where the device is the source in use.
    pub fn wait_for_embedded_ble_listener_ready_before_firmware_ota(
        listener_expected: bool,
        waited: Option<Result<(), String>>,
    ) -> (r: Option<Result<bool, String>>)
        ensures
            r == listener_readiness(listener_expected, waited),
    {
        listener_ready_around_firmware_ota(listener_expected, waited)
    }

    /// Ends the program.  `true` the first time, which says goodbye to the device and waits for
    /// the link to be released.
    pub fn request_shutdown(&mut self) -> (r: bool)
        ensures
            r == !old(self).shutdown,
            *final(self) == (Coordinator { shutdown: true, ..*old(self) }),
    {
        let first: bool = !self.shutdown;
        self.shutdown = true;
        first
    }

    /// Decides what the choice of an input source leads to at the start of the program.
    pub fn auto_select_embedded_ble_input_source_in_background(
        prefs: &UserPreferences,
        link_disabled: bool,
    ) -> (r: InputSourceStartup)
        ensures
            r == (if link_disabled {
                InputSourceStartup::Disabled
            } else if prefs.dictation_input_source == DictationInputSource::EmbeddedBle {
                InputSourceStartup::OpenLink
            } else if prefs.dictation_input_source_user_overridden {
                InputSourceStartup::LeaveChoice
            } else {
                InputSourceStartup::Probe
            }),
    {
        if link_disabled {
            return InputSourceStartup::Disabled;
        }
        if prefs.dictation_input_source == DictationInputSource::EmbeddedBle {
            return InputSourceStartup::OpenLink;
        }
        if prefs.dictation_input_source_user_overridden {
            return InputSourceStartup::LeaveChoice;
        }
        InputSourceStartup::Probe
    }

    /// Reads which session's capsule came into sight; what is no identifier is passed over.
    pub fn acknowledge_automatic_wake_capsule_visible(session_id: &str) -> (r: Option<SessionId>)
        ensures
            r == (match uuid_parsed(session_id@) {
                Some(bits) => Some(SessionId { bits }),
                None => None,
            }),
    {
        SessionId::from_text(session_id)
    }

    /// Decides whether the capsule is placed anew after the displays changed.
    pub fn reposition_capsule_after_display_change(
        &self,
        current: Option<MonitorGeometry>,
        target: Option<MonitorGeometry>,
        off_screen: bool,
        force: bool,
    ) -> (r: bool)
        ensures
            r == needs_placing(self.capsule_layout, current, target, off_screen, force),
    {
        reposition_capsule_after_display_change(
            self.capsule_layout,
            current,
            target,
            off_screen,
            force,
        )
    }

    /// Remembers where the capsule was placed.
    pub fn capsule_placed(&mut self, placed_on: Option<MonitorGeometry>)
        ensures
            final(self).capsule_layout == (match placed_on {
                None => old(self).capsule_layout,
                Some(monitor) => Some(
                    CapsuleLayoutState {
                        translation_active: old(self).capsule_layout is Some && old(
                            self,
                        ).capsule_layout->0.translation_active,
                        monitor,
                    },
                ),
            }),
            *final(self) == (Coordinator {
                capsule_layout: final(self).capsule_layout,
                ..*old(self)
            }),
    {
        self.capsule_layout = layout_after_placing(self.capsule_layout, placed_on);
    }
}

/// What a firmware update learns of the listener in the background, before it begins or after
/// it ended.  Where the device is not the source in use there is nothing to wait for; otherwise
/// nothing is known before the wait is over.
pub open spec fn listener_readiness(
    listener_expected: bool,
    waited: Option<Result<(), String>>,
) -> Option<Result<bool, String>> {
    if !listener_expected {
        Some(Ok(false))
    } else {
        match waited {
            None => None,
            Some(Ok(_)) => Some(Ok(true)),
            Some(Err(reason)) => Some(Err(reason)),
        }
    }
}

fn listener_ready_around_firmware_ota(
    listener_expected: bool,
    waited: Option<Result<(), String>>,
) -> (r: Option<Result<bool, String>>)
    ensures
        r == listener_readiness(listener_expected, waited),
{
    if !listener_expected {
        return Some(Ok(false));
    }
    match waited {
        None => None,
        Some(Ok(())) => Some(Ok(true)),
        Some(Err(reason)) => Some(Err(reason)),
    }
}

impl Coordinator {
    /// Whether a firmware update is granted the device link.
    pub open spec fn grants_ota(self) -> bool {
        !self.embedded_ble_ota_active
    }

    /// The coordinator after a firmware update asked for the device link.
    pub open spec fn ota_begun(self) -> Coordinator {
        Coordinator { embedded_ble_ota_active: true, ..self }
    }

    /// The coordinator after a firmware update gave the device link back.
    pub open spec fn ota_ended(self) -> Coordinator {
        Coordinator { embedded_ble_ota_active: false, ..self }
    }
}

/// A firmware update has the device link to itself: while one is running no second one is
/// granted it, asking in vain changes nothing, and after it ended one is granted it again.
pub proof fn one_firmware_update_at_a_time(before: Coordinator)
    ensures
        !before.ota_begun().grants_ota(),
        before.ota_begun().ota_begun() == before.ota_begun(),
        before.ota_begun().ota_ended().grants_ota(),
        before.grants_ota() ==> before.ota_begun().ota_ended() == before,
{
}

/// A value that is held within limits is one of its limits or itself, never leaves them, and is left
/// alone where it keeps them.
pub proof fn a_limited_value_keeps_its_limits(value: u64, low: u64, high: u64)
    requires
        low <= high,
    ensures
        low <= within(value, low, high) <= high,
        low <= value <= high ==> within(value, low, high) == value,
        value < low ==> within(value, low, high) == low,
        value > high ==> within(value, low, high) == high,
{
}

/// Where no listener is expected nobody waits for one; where one is, what the wait came to is passed
/// on, and nothing is reported before it is over.
pub proof fn an_expected_listener_is_waited_for(
    listener_expected: bool,
    waited: Option<Result<(), String>>,
)
    ensures
        ({
            let ready = listener_readiness(listener_expected, waited);
            &&& ready is None <==> listener_expected && waited is None
            &&& ready is Some && ready->0 is Err <==> listener_expected && waited is Some
                && waited->0 is Err
            &&& ready == Some(Ok::<bool, String>(true)) <==> listener_expected && waited is Some
                && waited->0 is Ok
            &&& ready == Some(Ok::<bool, String>(false)) <==> !listener_expected
            &&& listener_expected && waited is Some && waited->0 is Err ==> ready->0->Err_0
                == waited->0->Err_0
        }),
{
}

/// An update holds the link and nothing else: while one runs no other is let in, whoever asks, and
/// when it ends everything else is as it was.
pub proof fn an_update_holds_only_the_link(before: Coordinator)
    ensures
        before.grants_ota() <==> !before.embedded_ble_ota_active,
        before.ota_begun().embedded_ble_ota_active,
        !before.ota_ended().embedded_ble_ota_active,
        before.ota_begun().state == before.state,
        before.ota_ended().state == before.state,
        before.ota_begun().shutdown == before.shutdown,
        before.ota_ended().shutdown == before.shutdown,
        before.ota_begun().embedded_ble_listener_ready == before.embedded_ble_listener_ready,
        before.ota_ended().embedded_ble_listener_ready == before.embedded_ble_listener_ready,
        before.ota_begun().embedded_ble_listener_generation
            == before.embedded_ble_listener_generation,
        before.ota_ended().embedded_ble_listener_generation
            == before.embedded_ble_listener_generation,
        before.ota_begun().capsule_layout == before.capsule_layout,
        before.ota_ended().capsule_layout == before.capsule_layout,
        before.ota_begun().shortcut_recording_active == before.shortcut_recording_active,
        before.ota_ended().shortcut_recording_active == before.shortcut_recording_active,
        before.ota_begun().hotkey_trigger_held == before.hotkey_trigger_held,
        before.ota_ended().hotkey_trigger_held == before.hotkey_trigger_held,
        before.ota_begun().idle_hotkey_cancel_sent == before.idle_hotkey_cancel_sent,
        before.ota_ended().idle_hotkey_cancel_sent == before.idle_hotkey_cancel_sent,
        before.ota_begun().embedded_ble_wake_recovery == before.embedded_ble_wake_recovery,
        before.ota_ended().embedded_ble_wake_recovery == before.embedded_ble_wake_recovery,
{
}

} // verus!
