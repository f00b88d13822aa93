//! Owner endpoint policy: when a recording ends because its owner stopped talking.
//!
//! Two observers report speech: the recognition provider, whose coverage trails the microphone,
//! and a local speaker verifier, which labels short windows as the owner, as somebody else, or as
//! undecided.  The rules below fuse both into one owner boundary and decide when the silence
//! behind that boundary is long enough.

use vstd::prelude::*;
use crate::session::SessionId;

verus! {

/// Owner silence after which an ordinary body ends.
pub const EMBEDDED_TARGET_SPEAKER_END_TIMEOUT_MS: u64 = 3_000;
/// Silence after which a wake without any body is given up.
pub const EMBEDDED_AUTOMATIC_WAKE_NO_BODY_END_TIMEOUT_MS: u64 = 8_000;
/// How far capture must run ahead of the provider before its clock may be replaced.
pub const EMBEDDED_PROVIDER_STALL_FALLBACK_LAG_MS: u64 = 500;
/// How long provider coverage must stand still to count as stalled.
pub const EMBEDDED_PROVIDER_STALL_CONFIRM_MS: u64 = 1_000;
/// How closely an owner edge must follow the newest audio to be live.
pub const EMBEDDED_LIVE_OWNER_ACTIVITY_ALIGNMENT_MS: u64 = 600;
/// Speech this close behind an owner boundary is the same utterance.
pub const EMBEDDED_LOCAL_SPEECH_ALIGNMENT_SLACK_MS: u64 = 200;
/// How far a classified window may trail the speech it speaks of.
pub const EMBEDDED_LOCAL_SPEAKER_CLASSIFICATION_SLACK_MS: u64 = 600;
/// How far another speaker must be past the owner boundary to be told apart for certain.
pub const EMBEDDED_CONFIRMED_NON_TARGET_OWNER_GAP_MS: u64 = 1_000;
/// How long unclassified speech past the owner boundary may hold a stop back.
pub const EMBEDDED_UNRESOLVED_LOCAL_SPEECH_MAX_HOLD_MS: u64 = 2_000;

/// The verdict of the local verifier on its newest window.
#[derive(Clone, Copy, Debug, PartialEq, Eq, Structural)]
pub enum LocalSpeakerClassificationKind {
    Target,
    NonTarget,
    Uncertain,
}

/// One report on who has been heard until when.  All clocks count milliseconds of audio.
#[derive(Clone, Debug)]
pub struct TargetSpeakerUpdate {
    pub speaker_info_present: bool,
    pub speaker_id: Option<String>,
    pub audio_duration_ms: Option<u64>,
    pub provider_audio_duration_ms: Option<u64>,
    pub target_speech_end_ms: Option<u64>,
    pub stable_attributed_speech_end_ms: Option<u64>,
    pub local_speech_end_ms: Option<u64>,
    pub local_target_speech_end_ms: Option<u64>,
    pub local_non_target_speech_end_ms: Option<u64>,
    pub qualified_owner_speech_end_ms: Option<u64>,
    pub local_speaker_observation_end_ms: Option<u64>,
    pub local_speaker_tracking_enabled: bool,
    pub local_speaker_classification_kind: Option<LocalSpeakerClassificationKind>,
    pub local_speaker_signal_quality_sufficient: Option<bool>,
    pub target_activity_advanced: bool,
    pub pending_activity_advanced: bool,
    pub qualified_owner_activity_advanced: bool,
    pub pending_unattributed_speech: bool,
}

/// What one report says about the owner right now.
#[derive(Clone, Copy, Debug, PartialEq, Eq, Structural)]
pub enum TargetSpeakerFusionState {
    /// Provider or local owner evidence advanced on this update.
    OwnerContinuing,
    /// Speech went on past the last confirmed owner boundary and nobody else was identified.
    UncertainOwnerTail,
    /// Strong local evidence says that the newest speech is another person's.
    ConfirmedOther,
    /// No sign that anybody relevant is speaking.
    Quiet,
}

/// The later of two optional clocks; an absent one never wins.
pub open spec fn latest(a: Option<u64>, b: Option<u64>) -> Option<u64> {
    match (a, b) {
        (Some(x), Some(y)) => if x >= y { Some(x) } else { Some(y) },
        (Some(x), None) => Some(x),
        (None, _) => b,
    }
}

/// How far `a` lies past `b`, or nothing where it does not.
pub open spec fn past(a: u64, b: u64) -> int {
    if a >= b { a - b } else { 0 }
}

/// `a + b`, or the last representable clock where that lies beyond it.
pub open spec fn capped_sum(a: u64, b: u64) -> int {
    if a + b <= u64::MAX { a + b } else { u64::MAX as int }
}

impl TargetSpeakerUpdate {
    /// Whether the local verifier places speech that ended at `at` with another person.
    pub open spec fn other_at(self, at: u64) -> bool {
        self.local_non_target_speech_end_ms matches Some(n) && at
            <= n + EMBEDDED_LOCAL_SPEAKER_CLASSIFICATION_SLACK_MS
    }

    /// Whether the newest local speech is another person's.
    pub open spec fn newest_is_other(self) -> bool {
        self.local_speech_end_ms matches Some(at) && self.other_at(at)
    }

    /// Whether the newest window is a usable sighting of the owner.
    pub open spec fn sees_owner(self) -> bool {
        &&& self.local_speaker_classification_kind == Some(LocalSpeakerClassificationKind::Target)
        &&& self.local_speaker_signal_quality_sufficient == Some(true)
    }

    /// The qualified watermark describes exactly the window that was judged last, and nothing
    /// was heard after it.
    pub open spec fn watermark_is_current(self) -> bool {
        &&& self.local_speaker_tracking_enabled
        &&& self.sees_owner()
        &&& self.qualified_owner_speech_end_ms is Some
        &&& self.qualified_owner_speech_end_ms == self.local_speaker_observation_end_ms
        &&& (self.local_speech_end_ms matches Some(raw) ==> raw
            <= self.local_speaker_observation_end_ms->0)
    }

    /// Until when the owner was heard, from the strongest source at hand.
    pub open spec fn watermark(self) -> Option<u64> {
        if self.qualified_owner_speech_end_ms is Some {
            self.qualified_owner_speech_end_ms
        } else if !self.local_speaker_tracking_enabled && self.local_target_speech_end_ms is Some {
            self.local_target_speech_end_ms
        } else {
            self.target_speech_end_ms
        }
    }

    /// The owner edge of a usable sighting that still follows the live speech edge.
    pub open spec fn fresh_target_edge(self) -> Option<u64> {
        match (self.local_target_speech_end_ms, self.local_speech_end_ms) {
            (Some(target), Some(speech)) => if self.local_speaker_tracking_enabled
                && self.sees_owner() && past(target, speech)
                <= EMBEDDED_LIVE_OWNER_ACTIVITY_ALIGNMENT_MS && past(speech, target)
                <= EMBEDDED_LIVE_OWNER_ACTIVITY_ALIGNMENT_MS && !self.other_at(speech) {
                latest(Some(target), Some(speech))
            } else {
                None
            },
            _ => None,
        }
    }

    /// The newest edge that the local verifier vouches for.
    pub open spec fn local_authority(self) -> Option<u64> {
        latest(self.qualified_owner_speech_end_ms, self.fresh_target_edge())
    }

    /// A provider boundary counts beside a local one only while the verifier sees the owner in
    /// live speech that is close to both.
    pub open spec fn cloud_is_current(self, cloud: u64) -> bool {
        &&& self.sees_owner()
        &&& self.local_speech_end_ms matches Some(speech) && {
            &&& speech <= (match self.local_authority() {
                Some(a) => a as int,
                None => 0,
            }) + EMBEDDED_UNRESOLVED_LOCAL_SPEECH_MAX_HOLD_MS
            &&& !self.other_at(speech)
            &&& past(cloud, speech) <= EMBEDDED_LIVE_OWNER_ACTIVITY_ALIGNMENT_MS
        }
    }

    /// The owner boundary that endpointing goes by, given what the provider says.
    pub open spec fn boundary(self, cloud: Option<u64>) -> Option<u64> {
        if !self.local_speaker_tracking_enabled {
            latest(latest(cloud, self.qualified_owner_speech_end_ms), self.local_target_speech_end_ms)
        } else if self.local_authority() is None {
            cloud
        } else if cloud is Some && self.cloud_is_current(cloud->0) {
            latest(cloud, self.local_authority())
        } else {
            self.local_authority()
        }
    }

    /// Whether owner evidence advanced and stands at the live audio edge.
    pub open spec fn owner_is_live(self) -> bool {
        let audio = latest(self.audio_duration_ms, self.provider_audio_duration_ms);
        let owner = self.boundary(
            latest(self.target_speech_end_ms, self.stable_attributed_speech_end_ms),
        );
        &&& (self.target_activity_advanced || self.pending_activity_advanced
            || self.qualified_owner_activity_advanced)
        &&& !self.newest_is_other()
        &&& (self.local_speaker_tracking_enabled && self.qualified_owner_speech_end_ms is Some
            ==> self.qualified_owner_activity_advanced)
        &&& audio is Some
        &&& owner is Some
        &&& past(audio->0, owner->0) <= EMBEDDED_LIVE_OWNER_ACTIVITY_ALIGNMENT_MS
    }

    /// Speech ran on a little past the confirmed owner without being anybody else's.
    pub open spec fn owner_tail_is_uncertain(self, fresh_unclassified_speech: bool) -> bool {
        &&& self.local_speaker_tracking_enabled
        &&& fresh_unclassified_speech
        &&& self.qualified_owner_speech_end_ms matches Some(owner)
            && self.local_speech_end_ms matches Some(speech) && {
            &&& owner + EMBEDDED_LOCAL_SPEECH_ALIGNMENT_SLACK_MS < speech
            &&& speech <= owner + EMBEDDED_UNRESOLVED_LOCAL_SPEECH_MAX_HOLD_MS
            &&& !self.other_at(speech)
        }
    }

    /// An owner who was confirmed once keeps talking in windows that stay undecided.
    pub open spec fn owner_continues_uncertain(self) -> bool {
        &&& self.local_speaker_tracking_enabled
        &&& self.local_speaker_classification_kind == Some(
            LocalSpeakerClassificationKind::Uncertain,
        )
        &&& self.qualified_owner_speech_end_ms is Some
        &&& self.audio_duration_ms matches Some(audio) && self.local_speech_end_ms matches Some(
            speech,
        ) && past(audio, speech) < EMBEDDED_UNRESOLVED_LOCAL_SPEECH_MAX_HOLD_MS && !self.other_at(
            speech,
        )
    }

    /// The fused reading of one report.
    pub open spec fn fusion(self, fresh_unclassified_speech: bool) -> TargetSpeakerFusionState {
        if self.newest_is_other() {
            TargetSpeakerFusionState::ConfirmedOther
        } else if self.owner_is_live() {
            TargetSpeakerFusionState::OwnerContinuing
        } else if self.owner_tail_is_uncertain(fresh_unclassified_speech) {
            TargetSpeakerFusionState::UncertainOwnerTail
        } else {
            TargetSpeakerFusionState::Quiet
        }
    }

    /// Speech shortly past the owner boundary that nobody has classified yet.
    pub open spec fn recent_speech_unresolved(self, timeout_ms: u64) -> bool {
        &&& self.audio_duration_ms matches Some(audio) && self.watermark() matches Some(owner) && {
            let speech = match self.local_speech_end_ms {
                Some(s) => s,
                None => owner,
            };
            &&& !self.other_at(speech)
            &&& past(audio, speech) < timeout_ms
            &&& owner < speech
            &&& speech < capped_sum(owner, EMBEDDED_UNRESOLVED_LOCAL_SPEECH_MAX_HOLD_MS)
        }
    }

    /// Whether local capture may stand in for a provider whose coverage stalled.
    pub open spec fn stall_fallback(self, stalled: bool, timeout_ms: u64) -> bool {
        &&& stalled
        &&& self.local_speaker_tracking_enabled
        &&& self.provider_audio_duration_ms matches Some(provider)
            && self.audio_duration_ms matches Some(local) && self.target_speech_end_ms matches Some(
            cloud,
        ) && {
            &&& provider + EMBEDDED_PROVIDER_STALL_FALLBACK_LAG_MS <= local
            &&& !self.recent_speech_unresolved(timeout_ms)
            &&& (self.qualified_owner_speech_end_ms is Some || self.newest_is_other())
            &&& past(local, match self.boundary(Some(cloud)) {
                Some(b) => b,
                None => cloud,
            }) >= timeout_ms
        }
    }

    /// What the provider says about the owner, with stable attribution as long as local
    /// evidence does not contradict it.
    pub open spec fn provider_boundary(self) -> Option<u64> {
        let outrun = self.qualified_owner_speech_end_ms matches Some(owner)
            && self.local_speech_end_ms matches Some(speech) && speech > owner
            + EMBEDDED_UNRESOLVED_LOCAL_SPEECH_MAX_HOLD_MS;
        if self.newest_is_other() || outrun {
            self.target_speech_end_ms
        } else {
            latest(self.target_speech_end_ms, self.stable_attributed_speech_end_ms)
        }
    }

    /// The audio clock that the owner's silence is measured on.
    pub open spec fn endpoint_clock(self, stalled: bool, timeout_ms: u64) -> Option<u64> {
        if self.provider_audio_duration_ms is None || self.stall_fallback(stalled, timeout_ms) {
            self.audio_duration_ms
        } else {
            self.provider_audio_duration_ms
        }
    }

    /// Whether the recording is to end: somebody is known to be the owner, nothing unresolved
    /// was just said, and the owner boundary lies `timeout_ms` back.
    pub open spec fn endpoint_due(self, stalled: bool, timeout_ms: u64) -> bool {
        let clock = self.endpoint_clock(stalled, timeout_ms);
        let owner = self.boundary(self.provider_boundary());
        &&& ((self.speaker_info_present && self.speaker_id is Some) || (
        self.local_speaker_tracking_enabled && self.qualified_owner_speech_end_ms is Some))
        &&& !self.recent_speech_unresolved(timeout_ms)
        &&& clock is Some
        &&& owner is Some
        &&& past(clock->0, owner->0) >= timeout_ms
    }
}

/// The later of two optional clocks.
fn later(a: Option<u64>, b: Option<u64>) -> (r: Option<u64>)
    ensures
        r == latest(a, b),
{
    match (a, b) {
        (Some(x), Some(y)) => if x >= y {
            Some(x)
        } else {
            Some(y)
        },
        (Some(x), None) => Some(x),
        (None, _) => b,
    }
}

fn sees_owner(update: &TargetSpeakerUpdate) -> (r: bool)
    ensures
        r == update.sees_owner(),
{
    let target: bool = match update.local_speaker_classification_kind {
        Some(LocalSpeakerClassificationKind::Target) => true,
        _ => false,
    };
    let sufficient: bool = match update.local_speaker_signal_quality_sufficient {
        Some(q) => q,
        None => false,
    };
    target && sufficient
}

fn newest_is_other(update: &TargetSpeakerUpdate) -> (r: bool)
    ensures
        r == update.newest_is_other(),
{
    match update.local_speech_end_ms {
        Some(at) => local_speech_confidently_non_target(update, at),
        None => false,
    }
}

/// The quality-qualified owner watermark.
pub fn qualified_owner_speech_end_ms(update: &TargetSpeakerUpdate) -> (r: Option<u64>)
    ensures
        r == update.qualified_owner_speech_end_ms,
{
    update.qualified_owner_speech_end_ms
}

/// Whether the qualified watermark describes exactly the window that was judged last.
pub fn has_current_qualified_owner_observation(update: &TargetSpeakerUpdate) -> (r: bool)
    ensures
        r == update.watermark_is_current(),
{
    if !update.local_speaker_tracking_enabled || !sees_owner(update) {
        return false;
    }
    match (qualified_owner_speech_end_ms(update), update.local_speaker_observation_end_ms) {
        (Some(qualified), Some(observed)) => {
            let nothing_later: bool = match update.local_speech_end_ms {
                Some(raw) => raw <= observed,
                None => true,
            };
            qualified == observed && nothing_later
        },
        _ => false,
    }
}

/// Until when the owner was heard, from the strongest source at hand.
pub fn endpoint_owner_watermark(update: &TargetSpeakerUpdate) -> (r: Option<u64>)
    ensures
        r == update.watermark(),
{
    let qualified: Option<u64> = qualified_owner_speech_end_ms(update);
    if qualified.is_some() {
        qualified
    } else if !update.local_speaker_tracking_enabled && update.local_target_speech_end_ms.is_some() {
        update.local_target_speech_end_ms
    } else {
        update.target_speech_end_ms
    }
}

/// The owner edge of a usable sighting that still follows the live speech edge.
pub fn local_target_edge_is_fresh_target_observation(update: &TargetSpeakerUpdate) -> (r: Option<
    u64,
>)
    ensures
        r == update.fresh_target_edge(),
{
    if !update.local_speaker_tracking_enabled || !sees_owner(update) {
        return None;
    }
    match (update.local_target_speech_end_ms, update.local_speech_end_ms) {
        (Some(target), Some(speech)) => {
            let apart: u64 = if target >= speech {
                target - speech
            } else {
                speech - target
            };
            if apart <= EMBEDDED_LIVE_OWNER_ACTIVITY_ALIGNMENT_MS
                && !local_speech_confidently_non_target(update, speech) {
                later(Some(target), Some(speech))
            } else {
                None
            }
        },
        _ => None,
    }
}

/// Selects the owner boundary that endpointing goes by.
///
/// The provider's row is the only source until the local verifier has seen the owner; from then
/// on it may merge a second voice into the owner's and counts only beside live owner speech.
pub fn authoritative_owner_endpoint_boundary(
    update: &TargetSpeakerUpdate,
    cloud_owner_boundary_ms: Option<u64>,
) -> (r: Option<u64>)
    ensures
        r == update.boundary(cloud_owner_boundary_ms),
{
    let qualified: Option<u64> = qualified_owner_speech_end_ms(update);
    if !update.local_speaker_tracking_enabled {
        return later(later(cloud_owner_boundary_ms, qualified), update.local_target_speech_end_ms);
    }
    let fresh: Option<u64> = local_target_edge_is_fresh_target_observation(update);
    let local: Option<u64> = later(qualified, fresh);
    let authority: u64 = match local {
        Some(a) => a,
        None => {
            return cloud_owner_boundary_ms;
        },
    };
    let current: bool = match (update.local_speech_end_ms, cloud_owner_boundary_ms) {
        (Some(speech), Some(cloud)) => sees_owner(update) && speech <= authority.saturating_add(
            EMBEDDED_UNRESOLVED_LOCAL_SPEECH_MAX_HOLD_MS,
        ) && !local_speech_confidently_non_target(update, speech) && cloud.saturating_sub(speech)
            <= EMBEDDED_LIVE_OWNER_ACTIVITY_ALIGNMENT_MS,
        _ => false,
    };
    if current {
        later(cloud_owner_boundary_ms, local)
    } else {
        local
    }
}

/// Whether owner evidence advanced and stands at the live audio edge.
pub fn target_speaker_update_has_live_owner_activity(update: &TargetSpeakerUpdate) -> (r: bool)
    ensures
        r == update.owner_is_live(),
{
    if !update.target_activity_advanced && !update.pending_activity_advanced
        && !update.qualified_owner_activity_advanced {
        return false;
    }
    if newest_is_other(update) {
        return false;
    }
    if update.local_speaker_tracking_enabled && qualified_owner_speech_end_ms(update).is_some()
        && !update.qualified_owner_activity_advanced {
        return false;
    }
    let audio: Option<u64> = later(update.audio_duration_ms, update.provider_audio_duration_ms);
    let cloud: Option<u64> = later(
        update.target_speech_end_ms,
        update.stable_attributed_speech_end_ms,
    );
    match (audio, authoritative_owner_endpoint_boundary(update, cloud)) {
        (Some(a), Some(o)) => a.saturating_sub(o) <= EMBEDDED_LIVE_OWNER_ACTIVITY_ALIGNMENT_MS,
        _ => false,
    }
}

/// Whether the ordinary owner silence has passed.
pub fn target_speaker_endpoint_due(update: &TargetSpeakerUpdate) -> (r: bool)
    ensures
        r == update.endpoint_due(false, 3_000),
{
    target_speaker_endpoint_due_with_timeout(update, EMBEDDED_TARGET_SPEAKER_END_TIMEOUT_MS)
}

/// Whether `endpoint_timeout_ms` of owner silence has passed.
pub fn target_speaker_endpoint_due_with_timeout(
    update: &TargetSpeakerUpdate,
    endpoint_timeout_ms: u64,
) -> (r: bool)
    ensures
        r == update.endpoint_due(false, endpoint_timeout_ms),
{
    target_speaker_endpoint_due_with_provider_stall(update, false, endpoint_timeout_ms)
}

/// Whether the local verifier places speech that ended at `local_speech_ms` with another person.
pub fn local_speech_confidently_non_target(
    update: &TargetSpeakerUpdate,
    local_speech_ms: u64,
) -> (r: bool)
    ensures
        r == update.other_at(local_speech_ms),
{
    match update.local_non_target_speech_end_ms {
        Some(n) => n.saturating_add(EMBEDDED_LOCAL_SPEAKER_CLASSIFICATION_SLACK_MS)
            >= local_speech_ms,
        None => false,
    }
}

/// Whether speech ran on a little past the confirmed owner without being anybody else's.
/// `fresh_unclassified_speech` tells whether unclassified local speech was heard within the
/// ordinary owner silence.
pub fn has_uncertain_owner_identity_tail(
    update: &TargetSpeakerUpdate,
    fresh_unclassified_speech: bool,
) -> (r: bool)
    ensures
        r == update.owner_tail_is_uncertain(fresh_unclassified_speech),
{
    if !update.local_speaker_tracking_enabled || !fresh_unclassified_speech {
        return false;
    }
    match (qualified_owner_speech_end_ms(update), update.local_speech_end_ms) {
        (Some(owner), Some(speech)) => speech > owner.saturating_add(
            EMBEDDED_LOCAL_SPEECH_ALIGNMENT_SLACK_MS,
        ) && speech <= owner.saturating_add(EMBEDDED_UNRESOLVED_LOCAL_SPEECH_MAX_HOLD_MS)
            && !local_speech_confidently_non_target(update, speech),
        _ => false,
    }
}

/// Whether an owner who was confirmed once keeps talking in windows that stay undecided.
pub fn has_established_owner_uncertain_continuation(update: &TargetSpeakerUpdate) -> (r: bool)
    ensures
        r == update.owner_continues_uncertain(),
{
    let undecided: bool = match update.local_speaker_classification_kind {
        Some(LocalSpeakerClassificationKind::Uncertain) => true,
        _ => false,
    };
    if !update.local_speaker_tracking_enabled || !undecided || qualified_owner_speech_end_ms(
        update,
    ).is_none() {
        return false;
    }
    match (update.audio_duration_ms, update.local_speech_end_ms) {
        (Some(audio), Some(speech)) => audio.saturating_sub(speech)
            < EMBEDDED_UNRESOLVED_LOCAL_SPEECH_MAX_HOLD_MS && !local_speech_confidently_non_target(
            update,
            speech,
        ),
        _ => false,
    }
}

/// The fused reading of one report.  Explicit evidence of another speaker wins over provider
/// growth, because the provider may merge two simultaneous voices.
pub fn target_speaker_fusion_state(
    update: &TargetSpeakerUpdate,
    fresh_unclassified_speech: bool,
) -> (r: TargetSpeakerFusionState)
    ensures
        r == update.fusion(fresh_unclassified_speech),
{
    if newest_is_other(update) {
        TargetSpeakerFusionState::ConfirmedOther
    } else if target_speaker_update_has_live_owner_activity(update) {
        TargetSpeakerFusionState::OwnerContinuing
    } else if has_uncertain_owner_identity_tail(update, fresh_unclassified_speech) {
        TargetSpeakerFusionState::UncertainOwnerTail
    } else {
        TargetSpeakerFusionState::Quiet
    }
}

/// The silence that ends a recording.  No fused reading lengthens or shortens it.
pub fn target_speaker_endpoint_timeout_with_fusion(
    _fusion_state: TargetSpeakerFusionState,
    mode_timeout_ms: u64,
) -> (r: u64)
    ensures
        r == mode_timeout_ms,
{
    mode_timeout_ms
}

/// The situations in which a stop has to wait for a live owner.
pub open spec fn stop_blocked(
    fusion_state: TargetSpeakerFusionState,
    update: TargetSpeakerUpdate,
    body_started: bool,
    preview_grew_recently: bool,
    body_started_recently: bool,
    fresh_unclassified_speech: bool,
) -> bool {
    match fusion_state {
        TargetSpeakerFusionState::ConfirmedOther => body_started && preview_grew_recently,
        TargetSpeakerFusionState::OwnerContinuing => true,
        TargetSpeakerFusionState::UncertainOwnerTail => true,
        TargetSpeakerFusionState::Quiet => {
            ||| body_started_recently
            ||| !body_started && fresh_unclassified_speech
            ||| body_started && preview_grew_recently && update.owner_is_live()
        },
    }
}

/// Whether a stop has to wait for a live owner.  `fresh_unclassified_speech` tells whether
/// unclassified local speech was heard within the last second.
pub fn owner_endpoint_stop_blocked_by_live_owner(
    fusion_state: TargetSpeakerFusionState,
    update: &TargetSpeakerUpdate,
    body_started: bool,
    preview_grew_recently: bool,
    body_started_recently: bool,
    fresh_unclassified_speech: bool,
) -> (r: bool)
    ensures
        r == stop_blocked(
            fusion_state,
            *update,
            body_started,
            preview_grew_recently,
            body_started_recently,
            fresh_unclassified_speech,
        ),
{
    match fusion_state {
        TargetSpeakerFusionState::ConfirmedOther => body_started && preview_grew_recently,
        TargetSpeakerFusionState::OwnerContinuing => true,
        TargetSpeakerFusionState::UncertainOwnerTail => true,
        TargetSpeakerFusionState::Quiet => {
            if body_started_recently || (!body_started && fresh_unclassified_speech) {
                return true;
            }
            body_started && preview_grew_recently && target_speaker_update_has_live_owner_activity(
                update,
            )
        },
    }
}

/// Whether speech shortly past the owner boundary still waits to be classified.
pub fn has_unresolved_recent_owner_speech(
    update: &TargetSpeakerUpdate,
    endpoint_timeout_ms: u64,
) -> (r: bool)
    ensures
        r == update.recent_speech_unresolved(endpoint_timeout_ms),
{
    match (update.audio_duration_ms, endpoint_owner_watermark(update)) {
        (Some(audio), Some(owner)) => {
            let speech: u64 = match update.local_speech_end_ms {
                Some(s) => s,
                None => owner,
            };
            if local_speech_confidently_non_target(update, speech) || audio.saturating_sub(speech)
                >= endpoint_timeout_ms || speech >= owner.saturating_add(
                EMBEDDED_UNRESOLVED_LOCAL_SPEECH_MAX_HOLD_MS,
            ) {
                return false;
            }
            speech > owner
        },
        _ => false,
    }
}

/// Whether the recording is to end because its owner fell silent.
pub fn target_speaker_endpoint_due_with_provider_stall(
    update: &TargetSpeakerUpdate,
    provider_stall_confirmed: bool,
    endpoint_timeout_ms: u64,
) -> (r: bool)
    ensures
        r == update.endpoint_due(provider_stall_confirmed, endpoint_timeout_ms),
{
    let unresolved: bool = has_unresolved_recent_owner_speech(update, endpoint_timeout_ms);
    let local_authority: bool = update.local_speaker_tracking_enabled
        && qualified_owner_speech_end_ms(update).is_some();
    let cloud_authority: bool = update.speaker_info_present && update.speaker_id.is_some();
    let other: bool = newest_is_other(update);
    let other_for_certain: bool = match (
        update.local_non_target_speech_end_ms,
        qualified_owner_speech_end_ms(update),
    ) {
        (Some(n), Some(owner)) => n.saturating_sub(owner)
            >= EMBEDDED_CONFIRMED_NON_TARGET_OWNER_GAP_MS,
        _ => false,
    };
    let outrun: bool = match (update.qualified_owner_speech_end_ms, update.local_speech_end_ms) {
        (Some(owner), Some(speech)) => speech > owner.saturating_add(
            EMBEDDED_UNRESOLVED_LOCAL_SPEECH_MAX_HOLD_MS,
        ),
        _ => false,
    };
    let pending_blocks: bool = update.pending_unattributed_speech && unresolved && !(other
        && other_for_certain);
    let cloud: Option<u64> = if !other && !outrun {
        later(update.target_speech_end_ms, update.stable_attributed_speech_end_ms)
    } else {
        update.target_speech_end_ms
    };
    let owner: Option<u64> = authoritative_owner_endpoint_boundary(update, cloud);
    let fallback: bool = provider_stall_local_endpoint_due(
        update,
        provider_stall_confirmed,
        endpoint_timeout_ms,
    );
    let clock: Option<u64> = if fallback || update.provider_audio_duration_ms.is_none() {
        update.audio_duration_ms
    } else {
        update.provider_audio_duration_ms
    };
    let silent: bool = match (clock, owner) {
        (Some(audio), Some(target)) => audio.saturating_sub(target) >= endpoint_timeout_ms,
        _ => false,
    };
    (cloud_authority || local_authority) && !pending_blocks && !unresolved && silent
}

/// Whether local capture may stand in for a provider whose coverage stalled.
pub fn provider_stall_local_endpoint_due(
    update: &TargetSpeakerUpdate,
    provider_stall_confirmed: bool,
    endpoint_timeout_ms: u64,
) -> (r: bool)
    ensures
        r == update.stall_fallback(provider_stall_confirmed, endpoint_timeout_ms),
{
    let provider: u64 = match update.provider_audio_duration_ms {
        Some(v) => v,
        None => {
            return false;
        },
    };
    let local: u64 = match update.audio_duration_ms {
        Some(v) => v,
        None => {
            return false;
        },
    };
    let cloud: u64 = match update.target_speech_end_ms {
        Some(v) => v,
        None => {
            return false;
        },
    };
    if !provider_stall_confirmed || !update.local_speaker_tracking_enabled || local.saturating_sub(
        provider,
    ) < EMBEDDED_PROVIDER_STALL_FALLBACK_LAG_MS {
        return false;
    }
    if has_unresolved_recent_owner_speech(update, endpoint_timeout_ms) {
        return false;
    }
    if qualified_owner_speech_end_ms(update).is_none() && !newest_is_other(update) {
        return false;
    }
    let newest: u64 = match authoritative_owner_endpoint_boundary(update, Some(cloud)) {
        Some(b) => b,
        None => cloud,
    };
    local.saturating_sub(newest) >= endpoint_timeout_ms
}

/// The label under which an inactivity stop is reported.
pub open spec fn stop_reason(timeout_ms: u64) -> Seq<char> {
    if timeout_ms >= EMBEDDED_AUTOMATIC_WAKE_NO_BODY_END_TIMEOUT_MS {
        "target_speaker_inactive_no_body_8000ms"@
    } else if timeout_ms > EMBEDDED_TARGET_SPEAKER_END_TIMEOUT_MS {
        "target_speaker_inactive_3500ms"@
    } else {
        "target_speaker_inactive_3000ms"@
    }
}

/// The label under which an inactivity stop is reported.
pub fn target_speaker_inactive_stop_reason(timeout_ms: u64) -> (r: &'static str)
    ensures
        r@ == stop_reason(timeout_ms),
{
    if timeout_ms >= EMBEDDED_AUTOMATIC_WAKE_NO_BODY_END_TIMEOUT_MS {
        "target_speaker_inactive_no_body_8000ms"
    } else if timeout_ms > EMBEDDED_TARGET_SPEAKER_END_TIMEOUT_MS {
        "target_speaker_inactive_3500ms"
    } else {
        "target_speaker_inactive_3000ms"
    }
}

/// The provider coverage that was seen last in a session, and when it grew last.
#[derive(Clone, Copy, Debug, PartialEq, Eq, Structural)]
pub struct ProviderProgressGuard {
    pub session_id: SessionId,
    pub provider_audio_ms: u64,
    pub last_advanced_at: u64,
}

/// What a report of coverage `provider_audio_ms` at `now` leaves in the progress slot.
pub open spec fn progress_after(
    slot: Option<ProviderProgressGuard>,
    session_id: SessionId,
    provider_audio_ms: u64,
    now: u64,
) -> ProviderProgressGuard {
    if slot is Some && slot->0.session_id == session_id && provider_audio_ms
        <= slot->0.provider_audio_ms {
        slot->0
    } else {
        (ProviderProgressGuard { session_id, provider_audio_ms, last_advanced_at: now })
    }
}

/// Records the provider's coverage and tells whether it has stood still for a full second.
pub fn provider_progress_stalled(
    slot: &mut Option<ProviderProgressGuard>,
    session_id: SessionId,
    update: &TargetSpeakerUpdate,
    now: u64,
) -> (r: bool)
    ensures
        update.provider_audio_duration_ms is None ==> !r && *final(slot) == *old(slot),
        update.provider_audio_duration_ms matches Some(audio) ==> *final(slot) == Some(
            progress_after(*old(slot), session_id, audio, now),
        ),
        r <==> {
            &&& update.provider_audio_duration_ms matches Some(audio) && *old(slot) == Some(
                (ProviderProgressGuard {
                    session_id,
                    provider_audio_ms: audio,
                    last_advanced_at: old(slot)->0.last_advanced_at,
                }),
            )
            &&& past(now, old(slot)->0.last_advanced_at) >= 1_000
        },
{
    let audio: u64 = match update.provider_audio_duration_ms {
        Some(v) => v,
        None => {
            return false;
        },
    };
    match *slot {
        Some(guard) if guard.session_id == session_id && audio <= guard.provider_audio_ms => {
            audio == guard.provider_audio_ms && now.saturating_sub(guard.last_advanced_at)
                >= EMBEDDED_PROVIDER_STALL_CONFIRM_MS
        },
        _ => {
            *slot = Some(
                ProviderProgressGuard { session_id, provider_audio_ms: audio, last_advanced_at: now },
            );
            false
        },
    }
}

/// Speech that is placed with another person never counts as a live owner, and the report reads
/// as that other person whatever else it holds.
pub proof fn another_speaker_never_renews_the_owner(update: TargetSpeakerUpdate, fresh: bool)
    requires
        update.newest_is_other(),
    ensures
        !update.owner_is_live(),
        update.fusion(fresh) == TargetSpeakerFusionState::ConfirmedOther,
        !stop_blocked(update.fusion(fresh), update, false, true, true, fresh),
{
}

/// Once the local verifier vouches for an owner edge but does not see the owner in its newest
/// window, no provider row moves the owner boundary.
pub proof fn merged_provider_row_cannot_move_the_boundary(
    update: TargetSpeakerUpdate,
    one: Option<u64>,
    two: Option<u64>,
)
    requires
        update.local_speaker_tracking_enabled,
        update.local_authority() is Some,
        !update.sees_owner(),
    ensures
        update.boundary(one) == update.boundary(two),
{
}

/// The owner boundary never lies before an edge that the local verifier vouches for.
pub proof fn boundary_respects_local_authority(update: TargetSpeakerUpdate, cloud: Option<u64>)
    requires
        update.local_speaker_tracking_enabled,
        update.local_authority() is Some,
    ensures
        update.boundary(cloud) is Some,
        update.boundary(cloud)->0 >= update.local_authority()->0,
{
}

/// A recording that would end after some silence would also end after any shorter one.
pub proof fn shorter_silence_never_delays_the_endpoint(
    update: TargetSpeakerUpdate,
    stalled: bool,
    longer: u64,
    shorter: u64,
)
    requires
        shorter <= longer,
        update.endpoint_due(stalled, longer),
    ensures
        update.endpoint_due(stalled, shorter),
{
}

/// While speech past the owner boundary waits to be classified, nothing ends the recording: not
/// the ordinary silence, and not the stall fallback.
pub proof fn unresolved_speech_holds_every_stop(
    update: TargetSpeakerUpdate,
    stalled: bool,
    timeout_ms: u64,
)
    requires
        update.recent_speech_unresolved(timeout_ms),
    ensures
        !update.endpoint_due(stalled, timeout_ms),
        !update.stall_fallback(stalled, timeout_ms),
{
}

/// Unclassified speech cannot hold a stop for ever: once it has run more than two seconds past
/// the owner boundary, it is neither unresolved nor an uncertain owner tail.
pub proof fn unresolved_hold_is_bounded(
    update: TargetSpeakerUpdate,
    timeout_ms: u64,
    fresh: bool,
)
    requires
        update.watermark() is Some,
        update.local_speech_end_ms is Some,
        update.local_speech_end_ms->0 > update.watermark()->0
            + EMBEDDED_UNRESOLVED_LOCAL_SPEECH_MAX_HOLD_MS,
    ensures
        !update.recent_speech_unresolved(timeout_ms),
        !update.owner_tail_is_uncertain(fresh),
{
}

/// Coverage that grew less than a second ago is never a stall, and a stall needs the same
/// coverage to have been reported before.
pub proof fn growth_clears_a_stall(
    slot: Option<ProviderProgressGuard>,
    session_id: SessionId,
    first: u64,
    second: u64,
    at: u64,
)
    requires
        slot is Some && slot->0.session_id == session_id ==> slot->0.provider_audio_ms < first,
    ensures
        progress_after(slot, session_id, first, at) == (ProviderProgressGuard {
            session_id,
            provider_audio_ms: first,
            last_advanced_at: at,
        }),
        second <= first ==> progress_after(
            Some(progress_after(slot, session_id, first, at)),
            session_id,
            second,
            at,
        ).last_advanced_at == at,
{
}

/// Silence of everybody ends the recording: once somebody is known to be the owner and was heard,
/// and every clock that is reported lies `timeout_ms` past everything that was heard of anybody,
/// the endpoint is due.  Neither the local verifier nor a provider that keeps reporting holds it
/// up, and no stall has to be confirmed.
pub proof fn silence_of_everybody_ends_the_recording(
    update: TargetSpeakerUpdate,
    stalled: bool,
    timeout_ms: u64,
    quiet_since: u64,
)
    requires
        (update.speaker_info_present && update.speaker_id is Some && update.target_speech_end_ms
            is Some) || (update.local_speaker_tracking_enabled
            && update.qualified_owner_speech_end_ms is Some),
        update.target_speech_end_ms matches Some(at) ==> at <= quiet_since,
        update.stable_attributed_speech_end_ms matches Some(at) ==> at <= quiet_since,
        update.local_speech_end_ms matches Some(at) ==> at <= quiet_since,
        update.local_target_speech_end_ms matches Some(at) ==> at <= quiet_since,
        update.qualified_owner_speech_end_ms matches Some(at) ==> at <= quiet_since,
        update.audio_duration_ms matches Some(at) ==> at >= quiet_since + timeout_ms,
        update.provider_audio_duration_ms matches Some(at) ==> at >= quiet_since + timeout_ms,
        update.audio_duration_ms is Some || update.provider_audio_duration_ms is Some,
    ensures
        update.endpoint_due(stalled, timeout_ms),
{
}

/// The endpoint is due as soon as the clock lies `timeout_ms` past the owner boundary: the
/// provider's clock, or the local one where the provider reports none.  This holds whether or not
/// the local verifier is on, and without any stall.
pub proof fn the_endpoint_comes_with_the_owners_silence(
    update: TargetSpeakerUpdate,
    stalled: bool,
    timeout_ms: u64,
    owner: u64,
    clock: u64,
)
    requires
        (update.speaker_info_present && update.speaker_id is Some) || (
        update.local_speaker_tracking_enabled && update.qualified_owner_speech_end_ms is Some),
        !update.recent_speech_unresolved(timeout_ms),
        update.boundary(update.provider_boundary()) == Some(owner),
        clock >= owner + timeout_ms,
        update.provider_audio_duration_ms == Some(clock) || (update.provider_audio_duration_ms
            is None && update.audio_duration_ms == Some(clock)),
    ensures
        update.endpoint_due(stalled, timeout_ms),
{
}

/// Nobody's silence ends a recording whose owner is unknown, or of whom nothing was heard.
pub proof fn an_unknown_owner_ends_nothing(
    update: TargetSpeakerUpdate,
    stalled: bool,
    timeout_ms: u64,
)
    ensures
        !(update.speaker_info_present && update.speaker_id is Some) && !(
        update.local_speaker_tracking_enabled && update.qualified_owner_speech_end_ms is Some)
            ==> !update.endpoint_due(stalled, timeout_ms),
        update.target_speech_end_ms is None && update.stable_attributed_speech_end_ms is None
            && update.local_target_speech_end_ms is None && update.qualified_owner_speech_end_ms
            is None ==> !update.endpoint_due(stalled, timeout_ms),
        update.audio_duration_ms is None && update.provider_audio_duration_ms is None
            ==> !update.endpoint_due(stalled, timeout_ms),
{
}

/// An owner who spoke within `timeout_ms` of every clock is not cut off: not one whom the local
/// verifier qualified, and not one whom the provider names while no verifier has seen the owner.
pub proof fn a_talking_owner_is_not_cut_off(
    update: TargetSpeakerUpdate,
    stalled: bool,
    timeout_ms: u64,
    owner: u64,
)
    requires
        timeout_ms > 0,
        update.qualified_owner_speech_end_ms == Some(owner) || (
        !update.local_speaker_tracking_enabled && (update.target_speech_end_ms == Some(owner)
            || update.local_target_speech_end_ms == Some(owner))) || (
        update.local_speaker_tracking_enabled && update.qualified_owner_speech_end_ms is None
            && update.local_target_speech_end_ms is None && update.target_speech_end_ms == Some(
            owner,
        )),
        update.audio_duration_ms matches Some(at) ==> at < owner + timeout_ms,
        update.provider_audio_duration_ms matches Some(at) ==> at < owner + timeout_ms,
    ensures
        !update.endpoint_due(stalled, timeout_ms),
{
}

/// Capture that runs ahead of the provider does not end a recording: while the provider reports
/// its coverage and is not known to have stalled, or trails by less than half a second, its
/// coverage must itself lie `timeout_ms` past a qualified owner.
pub proof fn capture_ahead_of_the_provider_ends_nothing(
    update: TargetSpeakerUpdate,
    stalled: bool,
    timeout_ms: u64,
    owner: u64,
    provider: u64,
)
    requires
        timeout_ms > 0,
        update.qualified_owner_speech_end_ms == Some(owner),
        update.provider_audio_duration_ms == Some(provider),
        provider < owner + timeout_ms,
        !stalled || (update.audio_duration_ms matches Some(local) ==> local < provider + 500),
    ensures
        !update.endpoint_due(stalled, timeout_ms),
{
}

/// A confirmed stall lets the local clock decide: with a qualified owner, capture half a second
/// or more ahead, and everything heard at least `timeout_ms` before the newest capture, the
/// endpoint is due although the provider's coverage stands still.
pub proof fn a_stalled_provider_does_not_keep_the_recording_open(
    update: TargetSpeakerUpdate,
    timeout_ms: u64,
    quiet_since: u64,
    provider: u64,
    local: u64,
)
    requires
        update.local_speaker_tracking_enabled,
        update.qualified_owner_speech_end_ms is Some,
        update.target_speech_end_ms is Some,
        update.provider_audio_duration_ms == Some(provider),
        update.audio_duration_ms == Some(local),
        provider + 500 <= local,
        local >= quiet_since + timeout_ms,
        update.target_speech_end_ms->0 <= quiet_since,
        update.qualified_owner_speech_end_ms->0 <= quiet_since,
        update.stable_attributed_speech_end_ms matches Some(at) ==> at <= quiet_since,
        update.local_speech_end_ms matches Some(at) ==> at <= quiet_since,
        update.local_target_speech_end_ms matches Some(at) ==> at <= quiet_since,
    ensures
        update.endpoint_due(true, timeout_ms),
{
}

/// Fresh speech just behind a qualified owner holds the endpoint while nobody has placed it with
/// another person: it ended less than two seconds past the owner and less than `timeout_ms` ago.
pub proof fn an_unplaced_tail_holds_the_endpoint(
    update: TargetSpeakerUpdate,
    stalled: bool,
    timeout_ms: u64,
    owner: u64,
    speech: u64,
    audio: u64,
)
    requires
        timeout_ms > 0,
        update.qualified_owner_speech_end_ms == Some(owner),
        update.local_speech_end_ms == Some(speech),
        update.audio_duration_ms == Some(audio),
        owner < speech < owner + 2_000,
        speech < u64::MAX,
        audio < speech + timeout_ms,
        update.local_non_target_speech_end_ms matches Some(other) ==> other + 600 < speech,
    ensures
        update.recent_speech_unresolved(timeout_ms),
        !update.endpoint_due(stalled, timeout_ms),
{
}

/// Nothing is unresolved where nothing was heard past the owner, where it was heard long enough
/// ago, where it ran two seconds past the owner, or where it was placed with another person.
pub proof fn a_resolved_tail_holds_nothing(
    update: TargetSpeakerUpdate,
    timeout_ms: u64,
    owner: u64,
)
    requires
        update.qualified_owner_speech_end_ms == Some(owner),
        update.local_speech_end_ms matches Some(speech) ==> {
            ||| speech <= owner
            ||| speech >= owner + 2_000
            ||| (update.audio_duration_ms matches Some(audio) ==> audio >= speech + timeout_ms)
            ||| (update.local_non_target_speech_end_ms matches Some(other) && speech <= other + 600)
        },
    ensures
        !update.recent_speech_unresolved(timeout_ms),
{
}

/// More silence never takes an endpoint back: where nothing new was heard, later clocks keep it
/// due.
pub proof fn more_silence_keeps_the_endpoint(
    earlier: TargetSpeakerUpdate,
    later: TargetSpeakerUpdate,
    timeout_ms: u64,
)
    requires
        earlier.endpoint_due(false, timeout_ms),
        later == (TargetSpeakerUpdate {
            audio_duration_ms: later.audio_duration_ms,
            provider_audio_duration_ms: later.provider_audio_duration_ms,
            ..earlier
        }),
        earlier.audio_duration_ms is Some <==> later.audio_duration_ms is Some,
        earlier.provider_audio_duration_ms is Some <==> later.provider_audio_duration_ms is Some,
        earlier.audio_duration_ms is Some ==> earlier.audio_duration_ms->0
            <= later.audio_duration_ms->0,
        earlier.provider_audio_duration_ms is Some ==> earlier.provider_audio_duration_ms->0
            <= later.provider_audio_duration_ms->0,
    ensures
        later.endpoint_due(false, timeout_ms),
{
}

/// Text that nobody was named for, advances that were reported and the fused reading play no part
/// in the endpoint: only who was heard until when does.
pub proof fn only_boundaries_and_clocks_count(
    one: TargetSpeakerUpdate,
    other: TargetSpeakerUpdate,
    stalled: bool,
    timeout_ms: u64,
)
    requires
        other == (TargetSpeakerUpdate {
            pending_unattributed_speech: other.pending_unattributed_speech,
            target_activity_advanced: other.target_activity_advanced,
            pending_activity_advanced: other.pending_activity_advanced,
            qualified_owner_activity_advanced: other.qualified_owner_activity_advanced,
            local_speaker_observation_end_ms: other.local_speaker_observation_end_ms,
            ..one
        }),
    ensures
        one.endpoint_due(stalled, timeout_ms) == other.endpoint_due(stalled, timeout_ms),
{
}

/// Without a local verifier the owner boundary is the latest of what anybody reports of the owner.
pub proof fn without_a_verifier_the_latest_report_counts(
    update: TargetSpeakerUpdate,
    cloud: Option<u64>,
)
    requires
        !update.local_speaker_tracking_enabled,
    ensures
        ({
            let b = update.boundary(cloud);
            &&& b is None <==> cloud is None && update.qualified_owner_speech_end_ms is None
                && update.local_target_speech_end_ms is None
            &&& b is Some ==> b == cloud || b == update.qualified_owner_speech_end_ms || b
                == update.local_target_speech_end_ms
            &&& cloud is Some ==> b->0 >= cloud->0
            &&& update.qualified_owner_speech_end_ms is Some ==> b->0
                >= update.qualified_owner_speech_end_ms->0
            &&& update.local_target_speech_end_ms is Some ==> b->0
                >= update.local_target_speech_end_ms->0
        }),
{
}

/// With a verifier that does not see the owner in a usable window, a qualified owner alone is the
/// boundary; before there is one, the provider alone is.
pub proof fn a_verifier_overrules_the_provider(update: TargetSpeakerUpdate, cloud: Option<u64>)
    requires
        update.local_speaker_tracking_enabled,
        update.local_speaker_classification_kind != Some(LocalSpeakerClassificationKind::Target)
            || update.local_speaker_signal_quality_sufficient != Some(true),
    ensures
        update.qualified_owner_speech_end_ms is Some ==> update.boundary(cloud)
            == update.qualified_owner_speech_end_ms,
        update.qualified_owner_speech_end_ms is None ==> update.boundary(cloud) == cloud,
{
}

/// While a usable window shows the owner in live speech close to both observers, the boundary is
/// the latest of what the provider, the qualified watermark and the live owner edge say.
pub proof fn a_seen_owner_takes_the_latest_edge(
    update: TargetSpeakerUpdate,
    cloud: u64,
    owner: u64,
    target: u64,
    speech: u64,
)
    requires
        update.local_speaker_tracking_enabled,
        update.local_speaker_classification_kind == Some(LocalSpeakerClassificationKind::Target),
        update.local_speaker_signal_quality_sufficient == Some(true),
        update.qualified_owner_speech_end_ms == Some(owner),
        update.local_target_speech_end_ms == Some(target),
        update.local_speech_end_ms == Some(speech),
        target <= speech + 600,
        speech <= target + 600,
        cloud <= speech + 600,
        update.local_non_target_speech_end_ms matches Some(other) ==> other + 600 < speech,
    ensures
        update.boundary(Some(cloud)) is Some,
        update.boundary(Some(cloud))->0 >= cloud,
        update.boundary(Some(cloud))->0 >= owner,
        update.boundary(Some(cloud))->0 >= target,
        update.boundary(Some(cloud))->0 >= speech,
        update.boundary(Some(cloud))->0 == cloud || update.boundary(Some(cloud))->0 == owner
            || update.boundary(Some(cloud))->0 == target || update.boundary(Some(cloud))->0
            == speech,
{
}

/// A provider row that runs more than 0.6 s ahead of the live speech, or speech that runs more
/// than two seconds past everything the verifier vouches for, leaves the boundary to the
/// verifier.
pub proof fn a_runaway_provider_row_is_ignored(
    update: TargetSpeakerUpdate,
    cloud: u64,
    owner: u64,
    speech: u64,
)
    requires
        update.local_speaker_tracking_enabled,
        update.qualified_owner_speech_end_ms == Some(owner),
        update.local_target_speech_end_ms is None,
        update.local_speech_end_ms == Some(speech),
        cloud > speech + 600 || speech > owner + 2_000 || (
        update.local_non_target_speech_end_ms matches Some(other) && speech <= other + 600),
    ensures
        update.boundary(Some(cloud)) == Some(owner),
{
}

/// A stable attribution counts like the owner's own row, unless the newest speech is another
/// person's or runs more than two seconds past a qualified owner.
pub proof fn a_stable_attribution_counts_for_the_owner(update: TargetSpeakerUpdate)
    ensures
        ({
            let other = update.local_speech_end_ms is Some && update.local_non_target_speech_end_ms
                is Some && update.local_speech_end_ms->0
                <= update.local_non_target_speech_end_ms->0 + 600;
            let outrun = update.qualified_owner_speech_end_ms is Some && update.local_speech_end_ms
                is Some && update.local_speech_end_ms->0 > update.qualified_owner_speech_end_ms->0
                + 2_000;
            let b = update.provider_boundary();
            &&& other || outrun ==> b == update.target_speech_end_ms
            &&& !other && !outrun ==> {
                &&& b is None <==> update.target_speech_end_ms is None
                    && update.stable_attributed_speech_end_ms is None
                &&& b is Some ==> b == update.target_speech_end_ms || b
                    == update.stable_attributed_speech_end_ms
                &&& update.target_speech_end_ms is Some ==> b->0 >= update.target_speech_end_ms->0
                &&& update.stable_attributed_speech_end_ms is Some ==> b->0
                    >= update.stable_attributed_speech_end_ms->0
            }
        }),
{
}

/// An owner counts as live only where some owner evidence advanced, the newest speech is nobody
/// else's, a qualified owner advanced as such, and a clock stands within 0.6 s of what was heard.
pub proof fn a_live_owner_advanced_just_now(update: TargetSpeakerUpdate, heard_until: u64)
    requires
        update.owner_is_live(),
        update.target_speech_end_ms matches Some(at) ==> at <= heard_until,
        update.stable_attributed_speech_end_ms matches Some(at) ==> at <= heard_until,
        update.local_speech_end_ms matches Some(at) ==> at <= heard_until,
        update.local_target_speech_end_ms matches Some(at) ==> at <= heard_until,
        update.qualified_owner_speech_end_ms matches Some(at) ==> at <= heard_until,
    ensures
        update.target_activity_advanced || update.pending_activity_advanced
            || update.qualified_owner_activity_advanced,
        update.local_speaker_tracking_enabled && update.qualified_owner_speech_end_ms is Some
            ==> update.qualified_owner_activity_advanced,
        update.local_speech_end_ms is Some && update.local_non_target_speech_end_ms is Some
            ==> update.local_speech_end_ms->0 > update.local_non_target_speech_end_ms->0 + 600,
        update.audio_duration_ms is Some || update.provider_audio_duration_ms is Some,
        update.audio_duration_ms matches Some(at) ==> at <= heard_until + 600,
        update.provider_audio_duration_ms matches Some(at) ==> at <= heard_until + 600,
{
}

/// An owner whose evidence advanced and reaches the newest audio counts as live.
pub proof fn advancing_owner_speech_is_live(update: TargetSpeakerUpdate, owner: u64)
    requires
        update.qualified_owner_activity_advanced || (!update.local_speaker_tracking_enabled && (
        update.target_activity_advanced || update.pending_activity_advanced)),
        update.qualified_owner_speech_end_ms == Some(owner) || (
        !update.local_speaker_tracking_enabled && update.target_speech_end_ms == Some(owner)),
        update.audio_duration_ms is Some || update.provider_audio_duration_ms is Some,
        update.audio_duration_ms matches Some(at) ==> at <= owner + 600,
        update.provider_audio_duration_ms matches Some(at) ==> at <= owner + 600,
        update.local_non_target_speech_end_ms is None || update.local_speech_end_ms is None,
    ensures
        update.owner_is_live(),
{
}

/// What the fused reading says of a report, and what it rests on: another person where the newest
/// speech was placed with one, else the owner where the owner is live, else an uncertain tail
/// behind a qualified owner, and otherwise quiet.
pub proof fn each_fused_reading_has_its_reason(update: TargetSpeakerUpdate, fresh: bool)
    ensures
        update.fusion(fresh) is ConfirmedOther <==> update.local_speech_end_ms is Some
            && update.local_non_target_speech_end_ms is Some && update.local_speech_end_ms->0
            <= update.local_non_target_speech_end_ms->0 + 600,
        update.fusion(fresh) is OwnerContinuing <==> update.owner_is_live(),
        update.fusion(fresh) is UncertainOwnerTail ==> {
            &&& fresh
            &&& update.local_speaker_tracking_enabled
            &&& update.qualified_owner_speech_end_ms is Some
            &&& update.local_speech_end_ms is Some
            &&& update.qualified_owner_speech_end_ms->0 + 200 < update.local_speech_end_ms->0
            &&& update.local_speech_end_ms->0 <= update.qualified_owner_speech_end_ms->0 + 2_000
        },
        update.fusion(fresh) is Quiet ==> !(fresh && update.local_speaker_tracking_enabled
            && update.qualified_owner_speech_end_ms is Some && update.local_speech_end_ms is Some
            && update.qualified_owner_speech_end_ms->0 + 200 < update.local_speech_end_ms->0
            && update.local_speech_end_ms->0 <= update.qualified_owner_speech_end_ms->0 + 2_000),
{
}

/// What holds a stop back: an owner who goes on or may be going on always does; another person
/// only does while a body is being dictated and still grows; and in quiet only a body that began
/// just now, fresh speech before any body, or a growing body of a live owner do.
pub proof fn each_held_stop_has_its_reason(
    fusion: TargetSpeakerFusionState,
    update: TargetSpeakerUpdate,
    body: bool,
    grew: bool,
    began: bool,
    fresh: bool,
)
    ensures
        fusion is OwnerContinuing || fusion is UncertainOwnerTail ==> stop_blocked(
            fusion,
            update,
            body,
            grew,
            began,
            fresh,
        ),
        fusion is ConfirmedOther ==> (stop_blocked(fusion, update, body, grew, began, fresh)
            <==> body && grew),
        fusion is Quiet && began ==> stop_blocked(fusion, update, body, grew, began, fresh),
        fusion is Quiet && !began && !body ==> (stop_blocked(
            fusion,
            update,
            body,
            grew,
            began,
            fresh,
        ) <==> fresh),
        fusion is Quiet && !began && body ==> (stop_blocked(
            fusion,
            update,
            body,
            grew,
            began,
            fresh,
        ) <==> grew && update.owner_is_live()),
{
}

/// The qualified watermark is current only while a usable window of the owner was judged last,
/// reached exactly that far, and nothing was heard after it.
pub proof fn a_current_watermark_is_the_newest_word(
    update: TargetSpeakerUpdate,
    owner: u64,
    observed: u64,
)
    requires
        update.qualified_owner_speech_end_ms == Some(owner),
        update.local_speaker_observation_end_ms == Some(observed),
    ensures
        update.watermark_is_current() <==> update.local_speaker_tracking_enabled
            && update.local_speaker_classification_kind == Some(
            LocalSpeakerClassificationKind::Target,
        ) && update.local_speaker_signal_quality_sufficient == Some(true) && owner == observed && (
        update.local_speech_end_ms is None || update.local_speech_end_ms->0 <= observed),
{
}

/// The owner was heard until the qualified watermark; before there is one, until the local edge
/// where no verifier is on, and otherwise until what the provider says.
pub proof fn the_strongest_witness_dates_the_owner(update: TargetSpeakerUpdate)
    ensures
        update.qualified_owner_speech_end_ms is Some ==> update.watermark()
            == update.qualified_owner_speech_end_ms,
        update.qualified_owner_speech_end_ms is None && update.local_speaker_tracking_enabled
            ==> update.watermark() == update.target_speech_end_ms,
        update.qualified_owner_speech_end_ms is None && !update.local_speaker_tracking_enabled
            && update.local_target_speech_end_ms is None ==> update.watermark()
            == update.target_speech_end_ms,
        update.qualified_owner_speech_end_ms is None && !update.local_speaker_tracking_enabled
            && update.local_target_speech_end_ms is Some ==> update.watermark()
            == update.local_target_speech_end_ms,
{
}

/// A confirmed owner keeps talking in undecided windows exactly while the newest speech is less
/// than two seconds old and nobody else's.
pub proof fn undecided_windows_continue_a_confirmed_owner(
    update: TargetSpeakerUpdate,
    audio: u64,
    speech: u64,
)
    requires
        update.audio_duration_ms == Some(audio),
        update.local_speech_end_ms == Some(speech),
        update.local_non_target_speech_end_ms is None,
    ensures
        update.owner_continues_uncertain() <==> update.local_speaker_tracking_enabled
            && update.local_speaker_classification_kind == Some(
            LocalSpeakerClassificationKind::Uncertain,
        ) && update.qualified_owner_speech_end_ms is Some && audio < speech + 2_000,
{
}

/// Coverage that grows, or that a new session reports, is dated now; coverage that does not grow
/// keeps its date, so that its standstill can be told.
pub proof fn standing_coverage_keeps_its_date(
    held: ProviderProgressGuard,
    session_id: SessionId,
    covered: u64,
    now: u64,
)
    ensures
        held.session_id == session_id && covered <= held.provider_audio_ms ==> progress_after(
            Some(held),
            session_id,
            covered,
            now,
        ) == held,
        held.session_id != session_id || covered > held.provider_audio_ms ==> progress_after(
            Some(held),
            session_id,
            covered,
            now,
        ) == (ProviderProgressGuard {
            session_id,
            provider_audio_ms: covered,
            last_advanced_at: now,
        }),
{
}

/// An inactivity stop is reported under the time it waited: eight seconds where no body came, a
/// longer end of speech behind three seconds, and three seconds otherwise.
pub proof fn a_stop_is_reported_under_its_wait(timeout_ms: u64)
    ensures
        timeout_ms >= 8_000 ==> stop_reason(timeout_ms)
            == "target_speaker_inactive_no_body_8000ms"@,
        3_000 < timeout_ms < 8_000 ==> stop_reason(timeout_ms)
            == "target_speaker_inactive_3500ms"@,
        timeout_ms <= 3_000 ==> stop_reason(timeout_ms) == "target_speaker_inactive_3000ms"@,
{
}

/// A provider row counts beside a qualified owner exactly while a usable window shows the owner, the
/// live speech is nobody else's and at most two seconds past that owner, and the row is at most 0.6 s
/// ahead of it; then the later of the two is the boundary.
pub proof fn a_close_provider_row_counts(
    update: TargetSpeakerUpdate,
    cloud: u64,
    owner: u64,
    speech: u64,
)
    requires
        update.local_speaker_tracking_enabled,
        update.qualified_owner_speech_end_ms == Some(owner),
        update.local_target_speech_end_ms is None,
        update.local_speech_end_ms == Some(speech),
        update.local_speaker_classification_kind == Some(LocalSpeakerClassificationKind::Target),
        update.local_speaker_signal_quality_sufficient == Some(true),
        update.local_non_target_speech_end_ms is None,
        cloud > owner,
    ensures
        update.boundary(Some(cloud)) == Some(cloud) <==> speech <= owner + 2_000 && cloud <= speech
            + 600,
        update.boundary(Some(cloud)) == Some(owner) <==> speech > owner + 2_000 || cloud > speech
            + 600,
{
}

} // verus!
