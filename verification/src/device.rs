//! The processing light of the device, and the feedback after a stop.

use vstd::prelude::*;
use crate::ble::EmbeddedBleSessionActorCommand;
use crate::endpoint::past;
use crate::preferences::DictationInputSource;
use crate::session::{SessionId, SessionPhase, SessionState};
use crate::text::{ascii_lowered, same_text, to_ascii_lowercase, trim, trimmed};

verus! {

/// The processing light stays on at least this long.
pub const DEVICE_AI_PROCESSING_MIN_VISIBLE_MS: u64 = 750;
/// The processing light goes out after this long at the latest.
pub const DEVICE_AI_PROCESSING_MAX_VISIBLE_MS: u64 = 5_000;

/// What the device link is used for at the moment.
#[derive(Clone, Copy, Debug, PartialEq, Eq, Structural)]
pub struct DeviceContext {
    /// A capture can be cancelled.
    pub cancel_flag_registered: bool,
    /// Statistics of a recording wait for their session.
    pub stats_present: bool,
    pub input_source: DictationInputSource,
}

impl DeviceContext {
    /// Whether the packet actor owns the running recording.
    pub open spec fn actor_active(self) -> bool {
        self.cancel_flag_registered || self.stats_present
    }

    /// Whether commands of this program go to the device.
    pub open spec fn control_active(self) -> bool {
        self.actor_active() || self.input_source == DictationInputSource::EmbeddedBle
    }

    /// Whether a cancel goes through the packet actor.
    pub open spec fn cancel_active(self, phase: SessionPhase) -> bool {
        self.actor_active() || (self.input_source == DictationInputSource::EmbeddedBle && (phase
            == SessionPhase::Starting || phase == SessionPhase::Listening || phase
            == SessionPhase::Processing))
    }

    /// Whether the packet actor owns the running recording.
    pub fn embedded_ble_actor_context_active(&self) -> (r: bool)
        ensures
            r == self.actor_active(),
    {
        self.cancel_flag_registered || self.stats_present
    }

    /// Whether commands of this program go to the device.
    pub fn embedded_ble_host_recording_control_context_active(&self) -> (r: bool)
        ensures
            r == self.control_active(),
    {
        self.embedded_ble_actor_context_active() || self.input_source
            == DictationInputSource::EmbeddedBle
    }

    /// Whether a cancel goes through the packet actor.
    pub fn embedded_ble_host_cancel_context_active(&self, state: &SessionState) -> (r: bool)
        ensures
            r == self.cancel_active(state.phase),
    {
        if self.embedded_ble_actor_context_active() {
            return true;
        }
        self.input_source == DictationInputSource::EmbeddedBle && (state.phase
            == SessionPhase::Starting || state.phase == SessionPhase::Listening || state.phase
            == SessionPhase::Processing)
    }
}

/// Whether a setting of the process reads as "yes".
pub open spec fn reads_as_yes(setting: Seq<char>) -> bool {
    let plain = ascii_lowered(trimmed(setting));
    plain == "1"@ || plain == "true"@ || plain == "yes"@ || plain == "on"@
}

/// Whether a setting of the process keeps the processing light out of it.
pub fn embedded_ble_processing_sync_disabled(setting: Option<&str>) -> (r: bool)
    ensures
        r == (setting is Some && reads_as_yes(setting->0@)),
{
    match setting {
        None => false,
        Some(value) => {
            let normalized = to_ascii_lowercase(trim(value));
            let plain = normalized.as_str();
            same_text(plain, "1") || same_text(plain, "true") || same_text(plain, "yes")
                || same_text(plain, "on")
        },
    }
}

/// Whether the device may be written to: never in a build made for tests.
pub fn device_ai_processing_io_allowed(test_build: bool) -> (r: bool)
    ensures
        r == !test_build,
{
    !test_build
}

/// Whether the processing light is driven at all.
pub fn should_sync_device_ai_processing(
    test_build: bool,
    context: DeviceContext,
    setting: Option<&str>,
) -> (r: bool)
    ensures
        r == (!test_build && context.control_active() && !(setting is Some && reads_as_yes(
            setting->0@,
        ))),
{
    device_ai_processing_io_allowed(test_build)
        && context.embedded_ble_host_recording_control_context_active()
        && !embedded_ble_processing_sync_disabled(setting)
}

/// How long the end of the light waits so that it was visible long enough.
pub open spec fn completion_delay(started_at: Option<u64>, now: u64) -> int {
    match started_at {
        None => 0,
        Some(at) => if past(now, at) >= DEVICE_AI_PROCESSING_MIN_VISIBLE_MS {
            0
        } else {
            DEVICE_AI_PROCESSING_MIN_VISIBLE_MS - past(now, at)
        },
    }
}

/// How long the end of the light waits so that it was visible long enough.
pub fn device_ai_processing_completion_delay(started_at: Option<u64>, now: u64) -> (r: u64)
    ensures
        r == completion_delay(started_at, now),
{
    match started_at {
        None => 0,
        Some(at) => DEVICE_AI_PROCESSING_MIN_VISIBLE_MS.saturating_sub(now.saturating_sub(at)),
    }
}

/// Whether the light can be ended: it is on, and its end was not shown yet.
pub fn device_ai_processing_completion_allowed(active: bool, completed: bool) -> (r: bool)
    ensures
        r == (active && !completed),
{
    active && !completed
}

/// The light of one session: it comes on at most once and its end is shown at most once.
#[derive(Clone, Copy, Debug, PartialEq, Eq, Structural)]
pub struct DeviceAiProcessingGuard {
    pub active: bool,
    pub completed: bool,
    pub started_at: Option<u64>,
    /// The limit of how long the light may be on runs.
    pub limit_running: bool,
}

impl DeviceAiProcessingGuard {
    /// The light is on exactly while its start is known and its limit runs, and not once its end
    /// was shown.
    pub open spec fn wf(self) -> bool {
        &&& self.active <==> self.started_at is Some
        &&& self.active <==> self.limit_running
        &&& self.completed ==> !self.active
    }

    /// The light after it came on.
    pub open spec fn started(self, sync: bool, now: u64) -> DeviceAiProcessingGuard {
        if self.completed || self.active || !sync {
            self
        } else {
            DeviceAiProcessingGuard {
                active: true,
                started_at: Some(now),
                limit_running: true,
                ..self
            }
        }
    }

    /// The light after its end was shown.
    pub open spec fn ended(self) -> DeviceAiProcessingGuard {
        if self.active && !self.completed {
            DeviceAiProcessingGuard {
                active: false,
                completed: true,
                started_at: None,
                limit_running: false,
            }
        } else {
            self
        }
    }

    /// A light that is off.
    pub fn defer() -> (r: DeviceAiProcessingGuard)
        ensures
            r == (DeviceAiProcessingGuard {
                active: false,
                completed: false,
                started_at: None,
                limit_running: false,
            }),
            r.wf(),
    {
        DeviceAiProcessingGuard {
            active: false,
            completed: false,
            started_at: None,
            limit_running: false,
        }
    }

    /// Turns the light on, where it is driven and was not on before.  `true` asks for the
    /// command to the device.
    pub fn start_if_needed(&mut self, sync: bool, now: u64) -> (r: bool)
        requires
            old(self).wf(),
        ensures
            r == (!old(self).completed && !old(self).active && sync),
            *final(self) == old(self).started(sync, now),
            final(self).wf(),
    {
        if self.completed || self.active || !sync {
            return false;
        }
        self.active = true;
        self.started_at = Some(now);
        self.limit_running = true;
        true
    }

    /// Shows the good end of the light.  The result is how long to wait before it is shown;
    /// without one nothing is shown.
    pub fn complete_success(&mut self, now: u64) -> (r: Option<u64>)
        requires
            old(self).wf(),
        ensures
            r is Some <==> old(self).active && !old(self).completed,
            r is Some ==> r->0 == completion_delay(old(self).started_at, now),
            *final(self) == old(self).ended(),
            final(self).wf(),
    {
        self.complete(now)
    }

    /// Shows the bad end of the light.  The result is how long to wait before it is shown;
    /// without one nothing is shown.
    pub fn complete_warning(&mut self, now: u64) -> (r: Option<u64>)
        requires
            old(self).wf(),
        ensures
            r is Some <==> old(self).active && !old(self).completed,
            r is Some ==> r->0 == completion_delay(old(self).started_at, now),
            *final(self) == old(self).ended(),
            final(self).wf(),
    {
        self.complete(now)
    }

    fn complete(&mut self, now: u64) -> (r: Option<u64>)
        requires
            old(self).wf(),
        ensures
            r is Some <==> old(self).active && !old(self).completed,
            r is Some ==> r->0 == completion_delay(old(self).started_at, now),
            *final(self) == old(self).ended(),
            final(self).wf(),
    {
        if !device_ai_processing_completion_allowed(self.active, self.completed) {
            return None;
        }
        let delay: u64 = device_ai_processing_completion_delay(self.started_at, now);
        self.limit_running = false;
        self.completed = true;
        self.active = false;
        self.started_at = None;
        Some(delay)
    }

    /// Ends the guard.  `true` asks for the light to be turned off without showing an end.
    pub fn close(self) -> (r: bool)
        requires
            self.wf(),
        ensures
            r == (self.active && !self.completed),
    {
        self.active && !self.completed
    }
}

/// Whether a delayed command of a session is still sent: its session is the current one.
pub fn delayed_command_is_current(expected: SessionId, state: &SessionState) -> (r: bool)
    ensures
        r == (state.session_id == expected),
{
    state.session_id == expected
}

/// What the limit of the light does when it is reached.
#[derive(Clone, Copy, Debug, PartialEq, Eq, Structural)]
pub enum LightLimit {
    /// The light was ended before.
    Ended,
    /// Another session owns the light.
    Stale,
    /// The light is not driven any more.
    NotDriven,
    /// The light goes out, without showing an end.
    TurnOff,
}

/// Decides what the limit of the light does when it is reached.
pub fn schedule_device_ai_processing_max_visible_timeout(
    limit_running: bool,
    expected: SessionId,
    state: &SessionState,
    sync: bool,
) -> (r: LightLimit)
    ensures
        r == (if !limit_running {
            LightLimit::Ended
        } else if state.session_id != expected {
            LightLimit::Stale
        } else if !sync {
            LightLimit::NotDriven
        } else {
            LightLimit::TurnOff
        }),
{
    if !limit_running {
        return LightLimit::Ended;
    }
    if !delayed_command_is_current(expected, state) {
        return LightLimit::Stale;
    }
    if !sync {
        return LightLimit::NotDriven;
    }
    LightLimit::TurnOff
}

/// The end of a light is shown at most once, whatever is done to it afterwards.
pub proof fn a_light_ends_once(guard: DeviceAiProcessingGuard, sync: bool, now: u64)
    requires
        guard.wf(),
        guard.active,
    ensures
        guard.ended().completed,
        guard.ended().started(sync, now) == guard.ended(),
        guard.ended().ended() == guard.ended(),
        !guard.ended().active,
{
}

/// A light that came on is visible for its minimum: the end is shown no earlier than that after
/// its start.
pub proof fn a_light_is_visible_long_enough(
    guard: DeviceAiProcessingGuard,
    started_at: u64,
    now: u64,
)
    requires
        guard.wf(),
        !guard.active,
        !guard.completed,
        started_at <= now,
    ensures
        now + completion_delay(guard.started(true, started_at).started_at, now) >= started_at
            + 750,
        completion_delay(guard.started(true, started_at).started_at, now) <= 750,
{
}

/// The guard of a wake is to be told that its session was stopped, so that text which comes later
/// does not count as its body.
#[derive(Clone, Copy, Debug, PartialEq, Eq, Structural)]
pub struct WakeStopNotice {
    pub session_id: SessionId,
}

/// What the user was shown about a stop.
#[derive(Clone, Copy, Debug, PartialEq, Eq, Structural)]
pub struct StopFeedback {
    pub latched: bool,
    /// The session whose stop was shown.
    pub session_id: Option<SessionId>,
    /// When it was shown.
    pub latched_at: u64,
}

impl StopFeedback {
    /// Forgets the stop.
    pub fn clear_embedded_audio_stop_feedback(&mut self)
        ensures
            !final(self).latched,
            final(self).session_id is None,
    {
        self.latched = false;
        self.session_id = None;
    }

    /// Remembers that a stop was shown, and tells whose wake guard is to be told of it.
    pub fn latch_embedded_audio_stop_feedback(&mut self, session_id: SessionId, now: u64) -> (r:
        WakeStopNotice)
        ensures
            r == (WakeStopNotice { session_id }),
            *final(self) == (StopFeedback {
                latched: true,
                session_id: Some(session_id),
                latched_at: now,
            }),
    {
        self.latched = true;
        self.session_id = Some(session_id);
        self.latched_at = now;
        WakeStopNotice { session_id }
    }

    /// How long a session took from its stop to its end; it can be asked once.
    pub fn take_stop_to_done_ms(&mut self, session_id: SessionId, now: u64) -> (r: Option<u64>)
        ensures
            r is Some <==> old(self).session_id == Some(session_id),
            r is Some ==> r->0 == past(now, old(self).latched_at),
            *final(self) == (StopFeedback {
                session_id: if r is Some {
                    None
                } else {
                    old(self).session_id
                },
                ..*old(self)
            }),
    {
        match self.session_id {
            Some(shown) => if shown == session_id {
                self.session_id = None;
                Some(now.saturating_sub(self.latched_at))
            } else {
                None
            },
            None => None,
        }
    }
}

/// The cancel flag of the running capture, by its number, and whether it was raised.
#[derive(Clone, Copy, Debug, PartialEq, Eq, Structural)]
pub struct CaptureCancelFlag {
    pub flag: u64,
    pub raised: bool,
}

/// Registers the cancel flag of a capture.
pub fn register_embedded_ble_cancel_flag(slot: &mut Option<CaptureCancelFlag>, flag: u64)
    ensures
        *final(slot) == Some(CaptureCancelFlag { flag, raised: false }),
{
    *slot = Some(CaptureCancelFlag { flag, raised: false });
}

/// Removes the cancel flag of a capture, unless another capture has registered its own.
pub fn clear_embedded_ble_cancel_flag(slot: &mut Option<CaptureCancelFlag>, flag: u64)
    ensures
        *final(slot) == (if *old(slot) is Some && old(slot)->0.flag == flag {
            None
        } else {
            *old(slot)
        }),
{
    let own: bool = match slot {
        Some(current) => current.flag == flag,
        None => false,
    };
    if own {
        *slot = None;
    }
}

/// Raises the cancel flag of the running capture, and tells whether there is one.
pub fn request_embedded_ble_capture_cancel_flag(slot: &mut Option<CaptureCancelFlag>) -> (r: bool)
    ensures
        r == (*old(slot) is Some),
        *final(slot) == (match *old(slot) {
            Some(current) => Some(CaptureCancelFlag { raised: true, ..current }),
            None => None,
        }),
{
    match *slot {
        Some(current) => {
            *slot = Some(CaptureCancelFlag { flag: current.flag, raised: true });
            true
        },
        None => false,
    }
}

/// What the end of a dictation with an error leads to.
#[derive(Clone, Copy, Debug, PartialEq, Eq, Structural)]
pub struct ErrorCloseout {
    /// The device shows a warning, at once.
    pub warn_device: bool,
    /// The text service is given back, the capsule hides after a while, and the failure is
    /// recorded.
    pub close: bool,
}

/// The end of a dictation with an error: the device is warned in any case, and the rest follows
/// only where the session was still there to fail.
pub fn finish_dictation_pipeline_error(published: bool) -> (r: ErrorCloseout)
    ensures
        r.warn_device,
        r.close == published,
{
    ErrorCloseout { warn_device: true, close: published }
}

/// The end of a dictation after a timeout: the same.
pub fn finish_dictation_timeout(published: bool) -> (r: ErrorCloseout)
    ensures
        r.warn_device,
        r.close == published,
{
    ErrorCloseout { warn_device: true, close: published }
}

/// How an event of a session is applied.
#[derive(Clone, Copy, Debug, PartialEq, Eq, Structural)]
pub enum EventRoute {
    /// In the order of the packet actor, and recorded there.
    Actor,
    Direct,
}

/// Decides how an event of a session is applied.
pub fn session_event_route(context: DeviceContext) -> (r: EventRoute)
    ensures
        r == (if context.actor_active() {
            EventRoute::Actor
        } else {
            EventRoute::Direct
        }),
{
    if context.embedded_ble_actor_context_active() {
        EventRoute::Actor
    } else {
        EventRoute::Direct
    }
}

/// How the end of recognition is applied to a session.
#[derive(Debug)]
pub struct AsrFinalPublication {
    pub route: EventRoute,
    pub command: EmbeddedBleSessionActorCommand,
    pub detail: &'static str,
}

/// Decides how a final transcript is applied to its session.
pub fn publish_embedded_ble_asr_final(context: DeviceContext, transcript_empty: bool) -> (r:
    AsrFinalPublication)
    ensures
        r.route == (if context.actor_active() {
            EventRoute::Actor
        } else {
            EventRoute::Direct
        }),
        r.command == EmbeddedBleSessionActorCommand::AsrFinal,
        r.detail@ == (if transcript_empty {
            "transcript_empty=true"@
        } else {
            "transcript_empty=false"@
        }),
{
    AsrFinalPublication {
        route: session_event_route(context),
        command: EmbeddedBleSessionActorCommand::AsrFinal,
        detail: if transcript_empty {
            "transcript_empty=true"
        } else {
            "transcript_empty=false"
        },
    }
}

/// How the timeout of a session is applied to it.
#[derive(Debug)]
pub struct TimeoutPublication {
    pub route: EventRoute,
    pub command: EmbeddedBleSessionActorCommand,
    /// What the actor records, where it applies the timeout.
    pub detail: String,
    /// What the user reads.
    pub message: String,
}

/// Decides how the timeout of a session is applied: the packet actor, where it owns the
/// recording, records it with the words that the user reads.
pub fn publish_dictation_timeout(context: DeviceContext, message: String) -> (r: TimeoutPublication)
    ensures
        r.route == (if context.actor_active() {
            EventRoute::Actor
        } else {
            EventRoute::Direct
        }),
        r.command == EmbeddedBleSessionActorCommand::Timeout,
        r.detail@ == message@,
        r.message@ == message@,
{
    TimeoutPublication {
        route: session_event_route(context),
        command: EmbeddedBleSessionActorCommand::Timeout,
        detail: message.as_str().to_owned(),
        message,
    }
}

/// Decides how the end of a session that heard nothing but its wake phrase is applied.
pub fn publish_embedded_ble_wake_only_expired(context: DeviceContext) -> (r: AsrFinalPublication)
    ensures
        r.route == (if context.actor_active() {
            EventRoute::Actor
        } else {
            EventRoute::Direct
        }),
        r.command == EmbeddedBleSessionActorCommand::AsrFinal,
        r.detail@ == "wake_only_expired transcript_empty=true"@,
{
    AsrFinalPublication {
        route: session_event_route(context),
        command: EmbeddedBleSessionActorCommand::AsrFinal,
        detail: "wake_only_expired transcript_empty=true",
    }
}

/// The packet actor owns what it has a flag or a count for; commands go to the device where it does
/// or the device is the chosen input; and a cancel goes through the actor where it does or the chosen
/// device is in the middle of a session.
pub proof fn commands_follow_the_owner(context: DeviceContext, phase: SessionPhase)
    ensures
        context.cancel_flag_registered ==> context.actor_active(),
        context.stats_present ==> context.actor_active(),
        context.actor_active() ==> context.cancel_flag_registered || context.stats_present,
        context.actor_active() ==> context.control_active() && context.cancel_active(phase),
        context.input_source == DictationInputSource::EmbeddedBle ==> context.control_active(),
        context.control_active() && !context.actor_active() ==> context.input_source
            == DictationInputSource::EmbeddedBle,
        context.input_source == DictationInputSource::EmbeddedBle && (phase
            == SessionPhase::Starting || phase == SessionPhase::Listening || phase
            == SessionPhase::Processing) ==> context.cancel_active(phase),
        context.cancel_active(phase) && !context.actor_active() ==> context.input_source
            == DictationInputSource::EmbeddedBle && phase != SessionPhase::Idle && phase
            != SessionPhase::Inserting,
{
}

/// A setting reads as a yes whatever its case and the white space around it, and nothing but the
/// four words does.
pub proof fn a_yes_is_read_in_any_case(setting: Seq<char>)
    ensures
        reads_as_yes(setting) <==> ascii_lowered(trimmed(setting)) == "1"@ || ascii_lowered(
            trimmed(setting),
        ) == "true"@ || ascii_lowered(trimmed(setting)) == "yes"@ || ascii_lowered(
            trimmed(setting),
        ) == "on"@,
        forall|other: Seq<char>| #[trigger]
            ascii_lowered(trimmed(other)) == ascii_lowered(trimmed(setting)) ==> reads_as_yes(other)
                == reads_as_yes(setting),
{
}

/// A light that was on long enough goes out at once, and one that was not stays on for exactly what
/// is missing; one that never went on has nothing to wait for.
pub proof fn a_light_waits_for_what_is_missing(started_at: u64, now: u64)
    requires
        started_at <= now,
    ensures
        completion_delay(None, now) == 0,
        now - started_at >= 750 ==> completion_delay(Some(started_at), now) == 0,
        now - started_at < 750 ==> now + completion_delay(Some(started_at), now) == started_at
            + 750,
{
}

/// A light goes on exactly where it is off, was not on before and the device is driven, and then
/// remembers when; and it ends only from on.
pub proof fn a_light_goes_on_once(guard: DeviceAiProcessingGuard, sync: bool, now: u64)
    ensures
        ({
            let on = guard.started(sync, now);
            let off = guard.ended();
            &&& !guard.active && !guard.completed && sync ==> on.active && on.started_at == Some(
                now,
            ) && on.limit_running && !on.completed
            &&& guard.active || guard.completed || !sync ==> on == guard
            &&& guard.active && !guard.completed ==> off.completed && !off.active && off.started_at
                is None && !off.limit_running
            &&& !guard.active || guard.completed ==> off == guard
            &&& guard.wf() ==> on.wf() && off.wf()
        }),
{
}

/// What a sound light says of itself agrees: it is on exactly while its start and its limit are
/// known, and one that ended is off.
pub proof fn a_sound_light_agrees_with_itself(guard: DeviceAiProcessingGuard)
    requires
        guard.wf(),
    ensures
        guard.active <==> guard.started_at is Some,
        guard.active <==> guard.limit_running,
        guard.completed ==> !guard.active,
{
}

} // verus!
