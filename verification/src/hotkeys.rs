//! Shortcuts: which key event does what, and which shortcut is installed how.

use vstd::prelude::*;
use vstd::string::*;
use crate::delivery::string_of;
use crate::preferences::Platform;
use crate::qa::{takes_escape, QaSessionState};
use crate::session::SessionPhase;
use crate::text::same_text;

verus! {

/// The single key that starts and stops a dictation.
#[derive(Clone, Copy, Debug, PartialEq, Eq, Structural)]
pub enum HotkeyTrigger {
    RightControl,
    LeftControl,
    RightOption,
    RightAlt,
    LeftOption,
    RightCommand,
    Fn,
    /// A combination; it does not reach a window.
    Custom,
}

/// Whether a key of a window is the one that a trigger stands for.
pub open spec fn key_matches(trigger: HotkeyTrigger, key: Seq<char>, code: Seq<char>) -> bool {
    let alt = key == "Alt"@ || key == "AltGraph"@;
    match trigger {
        HotkeyTrigger::RightControl => key == "Control"@ && code == "ControlRight"@,
        HotkeyTrigger::LeftControl => key == "Control"@ && code == "ControlLeft"@,
        HotkeyTrigger::RightOption | HotkeyTrigger::RightAlt => alt && code == "AltRight"@,
        HotkeyTrigger::LeftOption => alt && code == "AltLeft"@,
        HotkeyTrigger::RightCommand => key == "Meta"@ && code == "MetaRight"@,
        HotkeyTrigger::Fn => key == "Control"@ && code == "ControlRight"@,
        HotkeyTrigger::Custom => false,
    }
}

/// Whether a key of a window is the one that a trigger stands for.
pub fn window_key_matches_trigger(trigger: HotkeyTrigger, key: &str, code: &str) -> (r: bool)
    ensures
        r == key_matches(trigger, key@, code@),
{
    match trigger {
        HotkeyTrigger::RightControl => same_text(key, "Control") && same_text(code, "ControlRight"),
        HotkeyTrigger::LeftControl => same_text(key, "Control") && same_text(code, "ControlLeft"),
        HotkeyTrigger::RightOption | HotkeyTrigger::RightAlt => {
            (same_text(key, "Alt") || same_text(key, "AltGraph")) && same_text(code, "AltRight")
        },
        HotkeyTrigger::LeftOption => (same_text(key, "Alt") || same_text(key, "AltGraph"))
            && same_text(code, "AltLeft"),
        HotkeyTrigger::RightCommand => same_text(key, "Meta") && same_text(code, "MetaRight"),
        HotkeyTrigger::Fn => same_text(key, "Control") && same_text(code, "ControlRight"),
        HotkeyTrigger::Custom => false,
    }
}

/// No combination reaches a window, and no key matches two triggers on different sides.
pub proof fn sides_are_told_apart(key: Seq<char>, code: Seq<char>)
    ensures
        !key_matches(HotkeyTrigger::Custom, key, code),
        !(key_matches(HotkeyTrigger::LeftControl, key, code) && key_matches(
            HotkeyTrigger::RightControl,
            key,
            code,
        )),
        !(key_matches(HotkeyTrigger::LeftOption, key, code) && key_matches(
            HotkeyTrigger::RightOption,
            key,
            code,
        )),
{
    reveal_strlit("ControlLeft");
    reveal_strlit("ControlRight");
    reveal_strlit("AltLeft");
    reveal_strlit("AltRight");
    assert("ControlLeft"@.len() != "ControlRight"@.len());
    assert("AltLeft"@.len() != "AltRight"@.len());
}

/// What the desktop offers for shortcuts.
#[derive(Clone, Copy, Debug, PartialEq, Eq, Structural)]
pub struct HotkeyCapability {
    /// Key events of a window may stand in for a shortcut.
    pub explicit_fallback_available: bool,
}

/// Whether key events of a window may stand in for a shortcut.
pub fn window_hotkey_fallback_enabled(capability: HotkeyCapability) -> (r: bool)
    ensures
        r == capability.explicit_fallback_available,
{
    capability.explicit_fallback_available
}

/// What a key event of a window leads to.
#[derive(Clone, Copy, Debug, PartialEq, Eq, Structural)]
pub enum WindowHotkeyAction {
    Ignore,
    CloseQaPanel,
    CancelSession,
    Pressed,
    Released,
}

/// A key event of a window.
#[derive(Debug)]
pub struct WindowKeyEvent {
    pub event_type: String,
    pub key: String,
    pub code: String,
    pub repeat: bool,
}

/// What a key event of a window leads to.
pub open spec fn window_action(
    platform: Platform,
    shortcut_recording_active: bool,
    qa: QaSessionState,
    event: WindowKeyEvent,
    capability: HotkeyCapability,
    trigger: Option<HotkeyTrigger>,
) -> WindowHotkeyAction {
    if shortcut_recording_active {
        WindowHotkeyAction::Ignore
    } else if event.event_type@ == "keydown"@ && event.key@ == "Escape"@ {
        if takes_escape(qa) {
            WindowHotkeyAction::CloseQaPanel
        } else {
            WindowHotkeyAction::CancelSession
        }
    } else if platform != Platform::Windows || !capability.explicit_fallback_available || trigger
        is None || !key_matches(trigger->0, event.key@, event.code@) {
        WindowHotkeyAction::Ignore
    } else if event.event_type@ == "keydown"@ && !event.repeat {
        WindowHotkeyAction::Pressed
    } else if event.event_type@ == "keyup"@ {
        WindowHotkeyAction::Released
    } else {
        WindowHotkeyAction::Ignore
    }
}

/// Decides what a key event of a window leads to.  Escape closes the panel of spoken questions
/// where it is open, and cancels the dictation otherwise; the trigger counts on Windows where
/// window events may stand in for it.  Nothing counts while a shortcut is being recorded.
pub fn handle_window_hotkey_event(
    platform: Platform,
    shortcut_recording_active: bool,
    qa: &QaSessionState,
    event: &WindowKeyEvent,
    capability: HotkeyCapability,
    trigger: Option<HotkeyTrigger>,
) -> (r: WindowHotkeyAction)
    ensures
        r == window_action(
            platform,
            shortcut_recording_active,
            *qa,
            *event,
            capability,
            trigger,
        ),
{
    proof {
        reveal_strlit("keydown");
        reveal_strlit("keyup");
        assert("keydown"@.len() != "keyup"@.len());
    }
    if shortcut_recording_active {
        return WindowHotkeyAction::Ignore;
    }
    let down: bool = same_text(event.event_type.as_str(), "keydown");
    if down && same_text(event.key.as_str(), "Escape") {
        if qa.qa_active() {
            return WindowHotkeyAction::CloseQaPanel;
        }
        return WindowHotkeyAction::CancelSession;
    }
    if platform != Platform::Windows || !window_hotkey_fallback_enabled(capability) {
        return WindowHotkeyAction::Ignore;
    }
    let Some(known) = trigger else {
        return WindowHotkeyAction::Ignore;
    };
    if !window_key_matches_trigger(known, event.key.as_str(), event.code.as_str()) {
        return WindowHotkeyAction::Ignore;
    }
    if down {
        if event.repeat {
            return WindowHotkeyAction::Ignore;
        }
        return WindowHotkeyAction::Pressed;
    }
    if same_text(event.event_type.as_str(), "keyup") {
        return WindowHotkeyAction::Released;
    }
    WindowHotkeyAction::Ignore
}

/// Escape never touches the dictation while the panel of spoken questions is open.
pub proof fn escape_closes_the_panel_first(
    platform: Platform,
    qa: QaSessionState,
    event: WindowKeyEvent,
    capability: HotkeyCapability,
    trigger: Option<HotkeyTrigger>,
)
    requires
        event.event_type@ == "keydown"@,
        event.key@ == "Escape"@,
    ensures
        takes_escape(qa) ==> window_action(platform, false, qa, event, capability, trigger)
            == WindowHotkeyAction::CloseQaPanel,
        !takes_escape(qa) ==> window_action(platform, false, qa, event, capability, trigger)
            == WindowHotkeyAction::CancelSession,
{
}

/// What a shortcut monitor reports.
#[derive(Clone, Copy, Debug, PartialEq, Eq, Structural)]
pub enum HotkeyEvent {
    Pressed,
    Released,
    Cancelled,
    TranslationModifierPressed,
    QaShortcutPressed,
    /// A key of the device, by its number and that of the gesture.
    DeviceCustomKeyPressed { key: u8, gesture: u8 },
}

/// What a report of a shortcut monitor leads to.
#[derive(Clone, Copy, Debug, PartialEq, Eq, Structural)]
pub enum BridgeAction {
    Ignore,
    PressedEdge,
    ReleasedEdge,
    CancelSession,
    MarkTranslation,
    QaPressed,
    DeviceKey { key: u8, gesture: u8 },
}

/// What a report of a shortcut monitor leads to, and whether an idle cancel was handled already.
pub open spec fn bridged(
    idle_cancel_sent: bool,
    shortcut_recording_active: bool,
    event: HotkeyEvent,
    phase: SessionPhase,
    translation_by_modifier: bool,
) -> (bool, BridgeAction) {
    if shortcut_recording_active {
        (idle_cancel_sent, BridgeAction::Ignore)
    } else {
        match event {
            HotkeyEvent::Pressed => (idle_cancel_sent, BridgeAction::PressedEdge),
            HotkeyEvent::Released => (idle_cancel_sent, BridgeAction::ReleasedEdge),
            HotkeyEvent::Cancelled => (
                phase == SessionPhase::Idle,
                if phase == SessionPhase::Idle && idle_cancel_sent {
                    BridgeAction::Ignore
                } else {
                    BridgeAction::CancelSession
                },
            ),
            HotkeyEvent::TranslationModifierPressed => (
                idle_cancel_sent,
                if translation_by_modifier {
                    BridgeAction::MarkTranslation
                } else {
                    BridgeAction::Ignore
                },
            ),
            HotkeyEvent::QaShortcutPressed => (idle_cancel_sent, BridgeAction::QaPressed),
            HotkeyEvent::DeviceCustomKeyPressed { key, gesture } => (
                idle_cancel_sent,
                BridgeAction::DeviceKey { key, gesture },
            ),
        }
    }
}

/// Decides what a report of a shortcut monitor leads to.  Of several cancels without a session
/// only the first is handled.
pub fn hotkey_bridge_loop(
    idle_cancel_sent: &mut bool,
    shortcut_recording_active: bool,
    event: HotkeyEvent,
    phase: SessionPhase,
    translation_by_modifier: bool,
) -> (r: BridgeAction)
    ensures
        (*final(idle_cancel_sent), r) == bridged(
            *old(idle_cancel_sent),
            shortcut_recording_active,
            event,
            phase,
            translation_by_modifier,
        ),
{
    if shortcut_recording_active {
        return BridgeAction::Ignore;
    }
    match event {
        HotkeyEvent::Pressed => BridgeAction::PressedEdge,
        HotkeyEvent::Released => BridgeAction::ReleasedEdge,
        HotkeyEvent::Cancelled => {
            if phase == SessionPhase::Idle {
                let before: bool = *idle_cancel_sent;
                *idle_cancel_sent = true;
                if before {
                    return BridgeAction::Ignore;
                }
                BridgeAction::CancelSession
            } else {
                *idle_cancel_sent = false;
                BridgeAction::CancelSession
            }
        },
        HotkeyEvent::TranslationModifierPressed => {
            if translation_by_modifier {
                BridgeAction::MarkTranslation
            } else {
                BridgeAction::Ignore
            }
        },
        HotkeyEvent::QaShortcutPressed => BridgeAction::QaPressed,
        HotkeyEvent::DeviceCustomKeyPressed { key, gesture } => BridgeAction::DeviceKey {
            key,
            gesture,
        },
    }
}

/// A cancel without a session is handled once, however often it comes; a cancel of a session
/// always passes, and lets the next one without a session pass again.
pub proof fn idle_cancels_are_handled_once(sent: bool, running: SessionPhase)
    requires
        running != SessionPhase::Idle,
    ensures
        ({
            let first = bridged(sent, false, HotkeyEvent::Cancelled, SessionPhase::Idle, false);
            let again = bridged(first.0, false, HotkeyEvent::Cancelled, SessionPhase::Idle, false);
            let busy = bridged(again.0, false, HotkeyEvent::Cancelled, running, false);
            let after = bridged(busy.0, false, HotkeyEvent::Cancelled, SessionPhase::Idle, false);
            &&& again.1 == BridgeAction::Ignore
            &&& busy.1 == BridgeAction::CancelSession
            &&& after.1 == BridgeAction::CancelSession
        }),
{
}

/// What is known of a shortcut.
#[derive(Clone, Copy, Debug, PartialEq, Eq, Structural)]
pub struct ShortcutFacts {
    /// The single key that the shortcut consists of, where it is one.
    pub modifier_trigger: Option<HotkeyTrigger>,
    /// It consists of modifiers only.
    pub modifier_only: bool,
    /// No key was recorded for it.
    pub unconfigured: bool,
    /// It is the built-in shift key of translations.
    pub builtin_translation_shift: bool,
}

/// What happens to the monitor of a shortcut.
#[derive(Clone, Copy, Debug, PartialEq, Eq, Structural)]
pub enum MonitorStep {
    /// It is taken down.
    Close,
    /// The program has no window system yet; nothing happens.
    NotBound,
    Rebind,
    Install,
}

/// What a change of a shortcut leads to.
#[derive(Clone, Copy, Debug, PartialEq, Eq, Structural)]
pub struct BindingUpdate {
    pub monitor: MonitorStep,
    /// The single keys that the other monitor listens for are renewed.
    pub renew_modifiers: bool,
}

/// What happens to a monitor that is to listen.
pub open spec fn listening_step(app_bound: bool, installed: bool) -> MonitorStep {
    if !app_bound {
        MonitorStep::NotBound
    } else if installed {
        MonitorStep::Rebind
    } else {
        MonitorStep::Install
    }
}

fn listen(app_bound: bool, installed: bool) -> (r: MonitorStep)
    ensures
        r == listening_step(app_bound, installed),
{
    if !app_bound {
        MonitorStep::NotBound
    } else if installed {
        MonitorStep::Rebind
    } else {
        MonitorStep::Install
    }
}

/// A change of the dictation shortcut, as far as its combination is concerned: a single key and
/// a missing one take the monitor down.
pub fn update_combo_hotkey_binding(facts: ShortcutFacts, app_bound: bool, installed: bool) -> (r:
    BindingUpdate)
    ensures
        !r.renew_modifiers,
        r.monitor == (if facts.modifier_trigger is Some || facts.unconfigured {
            MonitorStep::Close
        } else {
            listening_step(app_bound, installed)
        }),
{
    if facts.modifier_trigger.is_some() || facts.unconfigured {
        return BindingUpdate { monitor: MonitorStep::Close, renew_modifiers: false };
    }
    BindingUpdate { monitor: listen(app_bound, installed), renew_modifiers: false }
}

/// A change of the shortcut for spoken questions: switching it off and a single key take the
/// monitor down; the single keys are renewed in any case.
pub fn update_qa_hotkey_binding(facts: Option<ShortcutFacts>, app_bound: bool, installed: bool) -> (r:
    BindingUpdate)
    ensures
        r.renew_modifiers,
        r.monitor == (if facts is None || facts->0.modifier_trigger is Some {
            MonitorStep::Close
        } else {
            listening_step(app_bound, installed)
        }),
{
    let closes: bool = match facts {
        None => true,
        Some(f) => f.modifier_trigger.is_some(),
    };
    if closes {
        return BindingUpdate { monitor: MonitorStep::Close, renew_modifiers: true };
    }
    BindingUpdate { monitor: listen(app_bound, installed), renew_modifiers: true }
}

/// A change of an action's shortcut: modifiers alone cannot be listened for and take the monitor
/// down.
pub fn update_action_hotkey_binding(facts: ShortcutFacts, app_bound: bool, installed: bool) -> (r:
    BindingUpdate)
    ensures
        !r.renew_modifiers,
        r.monitor == (if facts.modifier_only {
            MonitorStep::Close
        } else {
            listening_step(app_bound, installed)
        }),
{
    if facts.modifier_only {
        return BindingUpdate { monitor: MonitorStep::Close, renew_modifiers: false };
    }
    BindingUpdate { monitor: listen(app_bound, installed), renew_modifiers: false }
}

/// A change of the shortcut that switches the style.
pub fn update_switch_style_hotkey_binding(facts: ShortcutFacts, app_bound: bool, installed: bool) -> (r:
    BindingUpdate)
    ensures
        !r.renew_modifiers,
        r.monitor == (if facts.modifier_only {
            MonitorStep::Close
        } else {
            listening_step(app_bound, installed)
        }),
{
    update_action_hotkey_binding(facts, app_bound, installed)
}

/// A change of the shortcut that opens the program's window.
pub fn update_open_app_hotkey_binding(facts: ShortcutFacts, app_bound: bool, installed: bool) -> (r:
    BindingUpdate)
    ensures
        !r.renew_modifiers,
        r.monitor == (if facts.modifier_only {
            MonitorStep::Close
        } else {
            listening_step(app_bound, installed)
        }),
{
    update_action_hotkey_binding(facts, app_bound, installed)
}

/// Where a change of the translation shortcut stands.
#[derive(Debug)]
pub enum TranslationUpdate {
    /// A single key does it; the monitor is taken down.
    UsesModifier,
    /// The combination is registered.
    Register,
    Failed(String),
}

/// A change of the translation shortcut, up to its registration.  The single keys are renewed in
/// any case.
pub fn try_update_translation_hotkey_binding(facts: ShortcutFacts, app_bound: bool) -> (r:
    TranslationUpdate)
    ensures
        ({
            let single = facts.builtin_translation_shift || facts.modifier_trigger is Some;
            &&& r is UsesModifier <==> single
            &&& r is Register <==> !single && app_bound
            &&& r matches TranslationUpdate::Failed(words) ==> words@
                == "AppHandle 未 bind，无法注册翻译快捷键"@
        }),
{
    if facts.builtin_translation_shift || facts.modifier_trigger.is_some() {
        return TranslationUpdate::UsesModifier;
    }
    if !app_bound {
        return TranslationUpdate::Failed("AppHandle 未 bind，无法注册翻译快捷键".to_owned());
    }
    TranslationUpdate::Register
}

/// What the registration of the translation shortcut came to; without an answer in time it
/// failed.
pub fn translation_registration(answer: Option<Result<(), String>>) -> (r: Result<(), String>)
    ensures
        answer is Some ==> r == answer->0,
        answer is None ==> r is Err && r->Err_0@ == "注册翻译快捷键超时"@,
{
    match answer {
        Some(result) => result,
        None => Err("注册翻译快捷键超时".to_owned()),
    }
}

/// What a change of the dictation shortcut leads to.
#[derive(Clone, Copy, Debug, PartialEq, Eq, Structural)]
pub struct DictationShortcutUpdate {
    /// The monitor of combinations is taken down; otherwise it is brought up to date.
    pub close_combo: bool,
    /// What the monitor of single keys listens for.
    pub trigger: HotkeyTrigger,
}

/// A change of the dictation shortcut.  The monitor of single keys always runs: the other
/// shortcuts need it too.
pub fn update_hotkey_binding(facts: ShortcutFacts) -> (r: DictationShortcutUpdate)
    ensures
        r.close_combo == (facts.modifier_trigger is Some),
        r.trigger == (match facts.modifier_trigger {
            Some(trigger) => trigger,
            None => HotkeyTrigger::Custom,
        }),
{
    match facts.modifier_trigger {
        Some(trigger) => DictationShortcutUpdate { close_combo: true, trigger },
        None => DictationShortcutUpdate { close_combo: false, trigger: HotkeyTrigger::Custom },
    }
}

/// Whether the monitor of single keys works.
#[derive(Clone, Copy, Debug, PartialEq, Eq, Structural)]
pub enum HotkeyStatusState {
    Installed,
    Failed,
}

/// What is told about the monitor of single keys.
#[derive(Debug)]
pub struct HotkeyStatus {
    pub state: HotkeyStatusState,
    pub message: Option<String>,
    pub last_error: Option<String>,
}

/// What is told after an attempt to install the monitor of single keys.
pub fn ensure_modifier_hotkey_monitor(adapter_name: &str, failure: Option<String>) -> (r:
    HotkeyStatus)
    ensures
        failure is None ==> r.state == HotkeyStatusState::Installed && string_of(r.message) == Some(
            adapter_name@ + " 已安装"@,
        ) && r.last_error is None,
        failure matches Some(error) ==> r.state == HotkeyStatusState::Failed && string_of(r.message)
            == Some(error@) && string_of(r.last_error) == Some(error@),
{
    match failure {
        None => HotkeyStatus {
            state: HotkeyStatusState::Installed,
            message: Some(adapter_name.to_owned().concat(" 已安装")),
            last_error: None,
        },
        Some(error) => HotkeyStatus {
            state: HotkeyStatusState::Failed,
            message: Some(error.clone()),
            last_error: Some(error),
        },
    }
}

/// A gesture on a key of the device, and whether a monitor is installed for it.
#[derive(Clone, Copy, Debug, PartialEq, Eq, Structural)]
pub struct DeviceKeyMonitor {
    pub key: u8,
    pub gesture: u8,
    /// The key knows this gesture.
    pub supported: bool,
    pub installed: bool,
}

/// The shortcuts whose monitors are bound anew so that no key counts as held.
#[derive(Debug)]
pub struct HeldStateReset {
    pub qa: bool,
    pub translation: bool,
    pub switch_style: bool,
    pub open_app: bool,
    /// The monitors of the device's keys, in the order in which they were listed.
    pub device_keys: Vec<DeviceKeyMonitor>,
}

/// The monitors of the device's keys that are bound anew: those that are there.
pub open spec fn held_device_keys(monitors: Seq<DeviceKeyMonitor>) -> Seq<DeviceKeyMonitor> {
    monitors.filter(|monitor: DeviceKeyMonitor| monitor.supported && monitor.installed)
}

/// Which monitors are installed.
#[derive(Clone, Copy, Debug, PartialEq, Eq, Structural)]
pub struct InstalledMonitors {
    pub qa: bool,
    pub translation: bool,
    pub switch_style: bool,
    pub open_app: bool,
}

/// Decides which monitors are bound anew so that no key counts as held: those that are installed
/// for a combination.  The monitor of single keys is reset in any case.
pub fn reset_shortcut_held_state(
    qa: Option<ShortcutFacts>,
    translation: ShortcutFacts,
    switch_style: ShortcutFacts,
    open_app: ShortcutFacts,
    installed: InstalledMonitors,
    device_monitors: &Vec<DeviceKeyMonitor>,
) -> (r: HeldStateReset)
    ensures
        r.qa == (qa is Some && qa->0.modifier_trigger is None && installed.qa),
        r.translation == (!translation.builtin_translation_shift && translation.modifier_trigger
            is None && installed.translation),
        r.switch_style == (!switch_style.modifier_only && installed.switch_style),
        r.open_app == (!open_app.modifier_only && installed.open_app),
        r.device_keys@ == held_device_keys(device_monitors@),
{
    let mut device_keys: Vec<DeviceKeyMonitor> = Vec::new();
    let mut i: usize = 0;
    while i < device_monitors.len()
        invariant
            i <= device_monitors@.len(),
            device_keys@ == held_device_keys(device_monitors@.take(i as int)),
        decreases device_monitors@.len() - i,
    {
        let monitor: DeviceKeyMonitor = device_monitors[i];
        proof {
            reveal(Seq::filter);
            assert(device_monitors@.take(i + 1).drop_last() == device_monitors@.take(i as int));
        }
        if monitor.supported && monitor.installed {
            device_keys.push(monitor);
        }
        i = i + 1;
    }
    proof {
        reveal(Seq::filter);
        assert(device_monitors@.take(device_monitors@.len() as int) == device_monitors@);
    }
    let qa_combination: bool = match qa {
        Some(facts) => facts.modifier_trigger.is_none(),
        None => false,
    };
    HeldStateReset {
        qa: qa_combination && installed.qa,
        translation: !translation.builtin_translation_shift
            && translation.modifier_trigger.is_none() && installed.translation,
        switch_style: !switch_style.modifier_only && installed.switch_style,
        open_app: !open_app.modifier_only && installed.open_app,
        device_keys,
    }
}

/// Each trigger knows its own key by its name and its side, and takes no other.
pub proof fn a_trigger_takes_its_own_key(key: Seq<char>, code: Seq<char>)
    ensures
        key_matches(HotkeyTrigger::RightControl, "Control"@, "ControlRight"@),
        key_matches(HotkeyTrigger::LeftControl, "Control"@, "ControlLeft"@),
        key_matches(HotkeyTrigger::RightCommand, "Meta"@, "MetaRight"@),
        key_matches(HotkeyTrigger::RightAlt, "Alt"@, "AltRight"@),
        key_matches(HotkeyTrigger::RightAlt, "AltGraph"@, "AltRight"@),
        key_matches(HotkeyTrigger::LeftOption, "Alt"@, "AltLeft"@),
        key_matches(HotkeyTrigger::LeftOption, "AltGraph"@, "AltLeft"@),
        key_matches(HotkeyTrigger::RightOption, key, code) <==> key_matches(
            HotkeyTrigger::RightAlt,
            key,
            code,
        ),
        key_matches(HotkeyTrigger::Fn, key, code) <==> key_matches(
            HotkeyTrigger::RightControl,
            key,
            code,
        ),
        key_matches(HotkeyTrigger::RightControl, key, code) ==> key == "Control"@ && code
            == "ControlRight"@,
        key_matches(HotkeyTrigger::LeftControl, key, code) ==> key == "Control"@ && code
            == "ControlLeft"@,
        key_matches(HotkeyTrigger::RightCommand, key, code) ==> key == "Meta"@ && code
            == "MetaRight"@,
        key_matches(HotkeyTrigger::RightAlt, key, code) ==> (key == "Alt"@ || key == "AltGraph"@)
            && code == "AltRight"@,
        key_matches(HotkeyTrigger::LeftOption, key, code) ==> (key == "Alt"@ || key
            == "AltGraph"@) && code == "AltLeft"@,
{
}

/// Every action of the window has its cause.  While a shortcut is being recorded there is none, the
/// Escape key acts everywhere, and the dictation shortcut only on Windows, as a fallback, once for
/// each time it goes down and once for each time it comes up.
pub proof fn each_window_action_has_its_cause(
    platform: Platform,
    recording: bool,
    qa: QaSessionState,
    event: WindowKeyEvent,
    capability: HotkeyCapability,
    trigger: Option<HotkeyTrigger>,
)
    ensures
        ({
            let action = window_action(platform, recording, qa, event, capability, trigger);
            let down = event.event_type@ == "keydown"@;
            let up = event.event_type@ == "keyup"@;
            let escape = down && event.key@ == "Escape"@;
            let own = platform == Platform::Windows && capability.explicit_fallback_available
                && trigger is Some && key_matches(trigger->0, event.key@, event.code@);
            &&& recording ==> action == WindowHotkeyAction::Ignore
            &&& !recording && escape ==> action == WindowHotkeyAction::CloseQaPanel || action
                == WindowHotkeyAction::CancelSession
            &&& action == WindowHotkeyAction::CloseQaPanel <==> !recording && escape && (
            qa.panel_visible || qa.phase != crate::qa::QaPhase::Idle)
            &&& action == WindowHotkeyAction::Pressed <==> !recording && !escape && own && down
                && !event.repeat
            &&& action == WindowHotkeyAction::Released <==> !recording && !escape && own && !down
                && up
            &&& down && event.repeat && !escape ==> action == WindowHotkeyAction::Ignore
        }),
{
    reveal_strlit("keydown");
    reveal_strlit("keyup");
    assert("keydown"@.len() != "keyup"@.len());
}

/// Every event of a shortcut reaches what it is for, and while a shortcut is being recorded none does.
/// Only a cancel remembers anything: a cancel of a running session always gets through.
pub proof fn each_shortcut_reaches_its_action(
    sent: bool,
    recording: bool,
    event: HotkeyEvent,
    phase: SessionPhase,
    by_modifier: bool,
)
    ensures
        ({
            let (sent_after, action) = bridged(sent, recording, event, phase, by_modifier);
            &&& recording ==> action == BridgeAction::Ignore && sent_after == sent
            &&& action == BridgeAction::PressedEdge <==> !recording && event
                == HotkeyEvent::Pressed
            &&& action == BridgeAction::ReleasedEdge <==> !recording && event
                == HotkeyEvent::Released
            &&& action == BridgeAction::QaPressed <==> !recording && event
                == HotkeyEvent::QaShortcutPressed
            &&& action == BridgeAction::MarkTranslation <==> !recording && event
                == HotkeyEvent::TranslationModifierPressed && by_modifier
            &&& action == BridgeAction::CancelSession <==> !recording && event
                == HotkeyEvent::Cancelled && (phase != SessionPhase::Idle || !sent)
            &&& !recording && event == HotkeyEvent::Cancelled ==> sent_after == (phase
                == SessionPhase::Idle)
            &&& event != HotkeyEvent::Cancelled ==> sent_after == sent
            &&& !recording && event is DeviceCustomKeyPressed ==> action == (
            BridgeAction::DeviceKey { key: event->key, gesture: event->gesture })
        }),
{
}

/// A shortcut is listened to only where the program is bound, and renewed exactly where one is
/// installed.
pub proof fn a_shortcut_needs_a_bound_program(app_bound: bool, installed: bool)
    ensures
        listening_step(app_bound, installed) == MonitorStep::NotBound <==> !app_bound,
        listening_step(app_bound, installed) == MonitorStep::Rebind <==> app_bound && installed,
        listening_step(app_bound, installed) == MonitorStep::Install <==> app_bound && !installed,
{
}

/// Exactly the keys of the device that are supported and installed are let go, in their order.
pub proof fn only_installed_device_keys_are_let_go(
    monitors: Seq<DeviceKeyMonitor>,
    monitor: DeviceKeyMonitor,
)
    ensures
        held_device_keys(Seq::empty()).len() == 0,
        held_device_keys(monitors.push(monitor)) == (if monitor.supported && monitor.installed {
            held_device_keys(monitors).push(monitor)
        } else {
            held_device_keys(monitors)
        }),
{
    reveal(Seq::filter);
    assert(monitors.push(monitor).drop_last() == monitors);
}

} // verus!
