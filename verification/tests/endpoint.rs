use listener_coordinator::endpoint::{
    authoritative_owner_endpoint_boundary, endpoint_owner_watermark,
    has_current_qualified_owner_observation, has_established_owner_uncertain_continuation,
    has_uncertain_owner_identity_tail, has_unresolved_recent_owner_speech,
    local_speech_confidently_non_target, local_target_edge_is_fresh_target_observation,
    owner_endpoint_stop_blocked_by_live_owner, provider_progress_stalled,
    provider_stall_local_endpoint_due, qualified_owner_speech_end_ms, target_speaker_endpoint_due,
    target_speaker_endpoint_due_with_provider_stall, target_speaker_endpoint_due_with_timeout,
    target_speaker_endpoint_timeout_with_fusion, target_speaker_fusion_state,
    target_speaker_inactive_stop_reason, target_speaker_update_has_live_owner_activity,
    LocalSpeakerClassificationKind, ProviderProgressGuard, TargetSpeakerFusionState,
    TargetSpeakerUpdate,
};
use listener_coordinator::session::SessionId;

fn quiet() -> TargetSpeakerUpdate {
    TargetSpeakerUpdate {
        speaker_info_present: true,
        speaker_id: Some("1".to_string()),
        audio_duration_ms: Some(10_000),
        provider_audio_duration_ms: None,
        target_speech_end_ms: None,
        stable_attributed_speech_end_ms: None,
        local_speech_end_ms: None,
        local_target_speech_end_ms: None,
        local_non_target_speech_end_ms: None,
        qualified_owner_speech_end_ms: None,
        local_speaker_observation_end_ms: None,
        local_speaker_tracking_enabled: false,
        local_speaker_classification_kind: None,
        local_speaker_signal_quality_sufficient: None,
        target_activity_advanced: false,
        pending_activity_advanced: false,
        qualified_owner_activity_advanced: false,
        pending_unattributed_speech: false,
    }
}

fn followed() -> TargetSpeakerUpdate {
    TargetSpeakerUpdate {
        local_speaker_tracking_enabled: true,
        local_speaker_classification_kind: Some(LocalSpeakerClassificationKind::Target),
        local_speaker_signal_quality_sufficient: Some(true),
        ..quiet()
    }
}

#[test]
fn three_seconds_of_silence_end_a_recording() {
    let mut update = quiet();
    update.target_speech_end_ms = Some(7_001);
    assert!(!target_speaker_endpoint_due(&update));
    update.target_speech_end_ms = Some(7_000);
    assert!(target_speaker_endpoint_due(&update));
    assert!(target_speaker_endpoint_due_with_timeout(&update, 2_000));
    assert!(!target_speaker_endpoint_due_with_timeout(&update, 3_001));
    update.speaker_id = None;
    assert!(!target_speaker_endpoint_due(&update));
    update.speaker_id = Some("1".to_string());
    update.audio_duration_ms = None;
    assert!(!target_speaker_endpoint_due(&update));
}

#[test]
fn silence_is_measured_on_the_provider_clock() {
    let mut update = quiet();
    update.target_speech_end_ms = Some(7_000);
    update.provider_audio_duration_ms = Some(9_000);
    assert!(!target_speaker_endpoint_due(&update));
    update.provider_audio_duration_ms = Some(10_500);
    assert!(target_speaker_endpoint_due(&update));
}

#[test]
fn another_voice_does_not_renew_the_owner() {
    let mut update = quiet();
    update.target_activity_advanced = true;
    update.target_speech_end_ms = Some(9_900);
    assert!(target_speaker_update_has_live_owner_activity(&update));
    assert_eq!(target_speaker_fusion_state(&update, false), TargetSpeakerFusionState::OwnerContinuing);
    update.local_speech_end_ms = Some(9_900);
    update.local_non_target_speech_end_ms = Some(9_300);
    assert!(local_speech_confidently_non_target(&update, 9_900));
    assert!(!local_speech_confidently_non_target(&update, 9_901));
    assert!(!target_speaker_update_has_live_owner_activity(&update));
    let state = target_speaker_fusion_state(&update, true);
    assert_eq!(state, TargetSpeakerFusionState::ConfirmedOther);
    assert!(!owner_endpoint_stop_blocked_by_live_owner(state, &update, false, true, true, true));
    assert!(owner_endpoint_stop_blocked_by_live_owner(state, &update, true, true, false, false));
}

#[test]
fn the_local_verifier_outweighs_a_merged_row() {
    let mut update = followed();
    update.local_speaker_classification_kind = Some(LocalSpeakerClassificationKind::NonTarget);
    update.qualified_owner_speech_end_ms = Some(5_000);
    update.local_speech_end_ms = Some(9_000);
    assert_eq!(authoritative_owner_endpoint_boundary(&update, Some(9_500)), Some(5_000));
    assert_eq!(authoritative_owner_endpoint_boundary(&update, None), Some(5_000));
    update.local_speaker_classification_kind = Some(LocalSpeakerClassificationKind::Target);
    update.local_speech_end_ms = Some(6_000);
    assert_eq!(authoritative_owner_endpoint_boundary(&update, Some(6_600)), Some(6_600));
    assert_eq!(authoritative_owner_endpoint_boundary(&update, Some(6_601)), Some(5_000));
    update.qualified_owner_speech_end_ms = None;
    assert_eq!(authoritative_owner_endpoint_boundary(&update, Some(1)), Some(1));
    let mut plain = quiet();
    plain.qualified_owner_speech_end_ms = Some(3);
    plain.local_target_speech_end_ms = Some(4);
    assert_eq!(authoritative_owner_endpoint_boundary(&plain, Some(2)), Some(4));
}

#[test]
fn a_sighting_must_follow_the_live_edge() {
    let mut update = followed();
    update.local_target_speech_end_ms = Some(5_000);
    update.local_speech_end_ms = Some(5_600);
    assert_eq!(local_target_edge_is_fresh_target_observation(&update), Some(5_600));
    update.local_speech_end_ms = Some(5_601);
    assert_eq!(local_target_edge_is_fresh_target_observation(&update), None);
    update.local_speech_end_ms = Some(4_500);
    assert_eq!(local_target_edge_is_fresh_target_observation(&update), Some(5_000));
    update.local_speaker_signal_quality_sufficient = Some(false);
    assert_eq!(local_target_edge_is_fresh_target_observation(&update), None);
    let mut current = followed();
    current.qualified_owner_speech_end_ms = Some(4_000);
    current.local_speaker_observation_end_ms = Some(4_000);
    assert!(has_current_qualified_owner_observation(&current));
    current.local_speech_end_ms = Some(4_001);
    assert!(!has_current_qualified_owner_observation(&current));
}

#[test]
fn watermarks_come_from_the_strongest_source() {
    let mut update = quiet();
    update.target_speech_end_ms = Some(1);
    assert_eq!(endpoint_owner_watermark(&update), Some(1));
    update.local_target_speech_end_ms = Some(2);
    assert_eq!(endpoint_owner_watermark(&update), Some(2));
    update.local_speaker_tracking_enabled = true;
    assert_eq!(endpoint_owner_watermark(&update), Some(1));
    update.qualified_owner_speech_end_ms = Some(3);
    assert_eq!(endpoint_owner_watermark(&update), Some(3));
    assert_eq!(qualified_owner_speech_end_ms(&update), Some(3));
}

#[test]
fn unresolved_speech_holds_a_stop_for_a_while() {
    let mut update = followed();
    update.qualified_owner_speech_end_ms = Some(6_000);
    update.local_speech_end_ms = Some(7_500);
    update.local_speaker_classification_kind = Some(LocalSpeakerClassificationKind::Uncertain);
    assert!(has_unresolved_recent_owner_speech(&update, 3_000));
    assert!(!target_speaker_endpoint_due(&update));
    assert!(has_uncertain_owner_identity_tail(&update, true));
    assert!(!has_uncertain_owner_identity_tail(&update, false));
    assert_eq!(target_speaker_fusion_state(&update, true), TargetSpeakerFusionState::UncertainOwnerTail);
    update.local_speech_end_ms = Some(8_001);
    assert!(!has_unresolved_recent_owner_speech(&update, 3_000));
    assert!(!has_uncertain_owner_identity_tail(&update, true));
    assert!(target_speaker_endpoint_due(&update));
    assert!(has_established_owner_uncertain_continuation(&update));
    update.audio_duration_ms = Some(10_001);
    assert!(!has_established_owner_uncertain_continuation(&update));
}

#[test]
fn a_stalled_provider_does_not_hold_a_recording_open() {
    let mut update = followed();
    update.provider_audio_duration_ms = Some(7_000);
    update.target_speech_end_ms = Some(6_000);
    update.qualified_owner_speech_end_ms = Some(6_000);
    assert!(!target_speaker_endpoint_due_with_provider_stall(&update, false, 3_000));
    assert!(provider_stall_local_endpoint_due(&update, true, 3_000));
    assert!(target_speaker_endpoint_due_with_provider_stall(&update, true, 3_000));
    update.provider_audio_duration_ms = Some(9_501);
    assert!(!provider_stall_local_endpoint_due(&update, true, 3_000));
    update.provider_audio_duration_ms = Some(7_000);
    update.qualified_owner_speech_end_ms = None;
    assert!(!provider_stall_local_endpoint_due(&update, true, 3_000));
}

#[test]
fn coverage_that_stands_still_is_a_stall() {
    let session = SessionId { bits: 1 };
    let mut slot: Option<ProviderProgressGuard> = None;
    let at = |ms| TargetSpeakerUpdate { provider_audio_duration_ms: Some(ms), ..quiet() };
    assert!(!provider_progress_stalled(&mut slot, session, &at(100), 0));
    assert!(!provider_progress_stalled(&mut slot, session, &at(100), 999));
    assert!(provider_progress_stalled(&mut slot, session, &at(100), 1_000));
    assert!(!provider_progress_stalled(&mut slot, session, &at(90), 2_000));
    assert!(!provider_progress_stalled(&mut slot, session, &at(200), 2_000));
    assert!(!provider_progress_stalled(&mut slot, session, &at(200), 2_500));
    assert_eq!(slot.unwrap().last_advanced_at, 2_000);
    assert!(!provider_progress_stalled(&mut slot, SessionId { bits: 2 }, &at(200), 9_000));
    assert!(!provider_progress_stalled(&mut slot, session, &quiet(), 20_000));
}

#[test]
fn stops_wait_for_a_live_owner() {
    let update = quiet();
    let blocked = |state, started, grew, recently, fresh| {
        owner_endpoint_stop_blocked_by_live_owner(state, &update, started, grew, recently, fresh)
    };
    assert!(blocked(TargetSpeakerFusionState::OwnerContinuing, false, false, false, false));
    assert!(blocked(TargetSpeakerFusionState::UncertainOwnerTail, false, false, false, false));
    assert!(!blocked(TargetSpeakerFusionState::Quiet, true, true, false, true));
    assert!(blocked(TargetSpeakerFusionState::Quiet, false, false, false, true));
    assert!(blocked(TargetSpeakerFusionState::Quiet, true, false, true, false));
    assert_eq!(target_speaker_endpoint_timeout_with_fusion(TargetSpeakerFusionState::Quiet, 5), 5);
    assert_eq!(target_speaker_inactive_stop_reason(3_000), "target_speaker_inactive_3000ms");
    assert_eq!(target_speaker_inactive_stop_reason(3_500), "target_speaker_inactive_3500ms");
    assert_eq!(target_speaker_inactive_stop_reason(8_000), "target_speaker_inactive_no_body_8000ms");
}
