use listener_coordinator::candidate::{
    confirmed_stretch, poll_wake_detector_init, reject_hidden_automatic_candidate, show_early_wake_recording_capsule,
    speaker_candidate_may_reach_asr, take_early_capsule_session_id, AbsentCoverage, BufferedSpeakerCandidate,
    BufferedSpeakerCandidateKind, DetectorPoll, DetectorState, HiddenCandidateTransportState,
    NearPhraseEvidence, PendingAutomaticPhraseMatch, PhraseSignal, WakeMatch,
};
use listener_coordinator::closeout::EmbeddedAudioTranscriptResult;
use listener_coordinator::release::{
    event_is_awaited as release_awaits, try_release_automatic_candidate, ConfirmationVerdict, LadderEvidence,
    PendingSecondaryDecision, RejectReason, ReleaseAction, ReleaseEvent, ReleaseStage, ReleaseStep, WakeTuning, WindowAge,
};
use listener_coordinator::session::{SessionId, SessionPhase};
use listener_coordinator::stream::{
    body_started_before_stop, device_failure, embedded_audio_stop_is_user_initiated,
    proactive_stop_due, settle_completion, BeginAnswers, BeginDecision, BeginFacts,
    BeginQuestion, CandidateWork,
    EmbeddedStreamingDictation, PacketDecision, PacketEvent, SessionStartOrigin,
    SessionStopOrigin, StreamEnd, StreamError, StreamLimits, StreamingSession,
};
use listener_coordinator::terminal::{
    event_is_awaited as terminal_awaits, finish_buffered_speaker_candidate, join_confirmation,
    ConfirmationJoin, EnrollmentEnd, LastConfirmation, TerminalAction,
    TerminalEvent, TerminalInflightLocalDecision, TerminalReject, TerminalStage, TerminalStep,
    TerminalTuning,
};

const TUNING: WakeTuning = WakeTuning {
    feed_batch_bytes: 640,
    immediate_confirm_min_bytes: 25_600,
    confirm_retry_bytes: 9_600,
    absent_reject_count: 2,
    owner_verification_start_ms: 1_200,
    confirms_locally: true,
};
const ENDING: TerminalTuning = TerminalTuning { confirms_locally: true, confirmation_start_bytes: 57_600 };
const LIMITS: StreamLimits = StreamLimits { max_candidate_bytes: 1_000, activation_race_window_ms: 2_000 };

fn id(bits: u128) -> SessionId {
    SessionId { bits }
}

fn candidate(pcm_bytes: usize) -> BufferedSpeakerCandidate {
    let mut c = BufferedSpeakerCandidate::new(BufferedSpeakerCandidateKind::Verification, 0);
    assert!(c.append(pcm_bytes, 1_000_000));
    c
}

fn ready(pcm_bytes: usize) -> BufferedSpeakerCandidate {
    let mut c = candidate(pcm_bytes);
    assert!(poll_wake_detector_init(&mut c, DetectorPoll::Loaded).ready);
    c
}

const FRESH: WindowAge = WindowAge { stale: false, still_activates: false };
const NEAR: NearPhraseEvidence =
    NearPhraseEvidence { phrase_absent: true, best_distance: 2, transcript_chars: 5, phrase_chars: 4 };

fn phrase(owner_verification_start_ms: usize) -> PendingAutomaticPhraseMatch {
    PendingAutomaticPhraseMatch {
        wake_match: WakeMatch::Keyword,
        phrase_signal: PhraseSignal::KeywordModel,
        local_confirmation_ms: 0,
        owner_verification_start_ms,
        owner_verified_by_extraction: false,
    }
}

fn step(c: &mut BufferedSpeakerCandidate, stage: ReleaseStage, event: ReleaseEvent) -> ReleaseStep {
    assert!(release_awaits(c, stage, event));
    try_release_automatic_candidate(c, stage, event, TUNING)
}

fn heard(heard: Option<bool>) -> ReleaseEvent {
    ReleaseEvent::Fed { heard, step_ms: 5, stream_origin_bytes: 0, advance_window: false, now: 9 }
}

#[test]
fn a_detector_is_loaded_in_the_background() {
    let mut c = candidate(64);
    assert_eq!(c.detector, DetectorState::Loading);
    assert!(!poll_wake_detector_init(&mut c, DetectorPoll::Running).ready);
    assert!(show_early_wake_recording_capsule(&mut c, SessionPhase::Idle, id(9), 70));
    assert_eq!(c.early_capsule_request_ms, Some(70));
    assert!(!show_early_wake_recording_capsule(&mut c, SessionPhase::Idle, id(8), 80));
    let failed = poll_wake_detector_init(&mut c, DetectorPoll::Failed);
    assert_eq!((failed.ready, failed.dismiss_capsule), (false, Some(id(9))));
    assert_eq!(c.kind, BufferedSpeakerCandidateKind::Rejected);
    assert_eq!(take_early_capsule_session_id(&mut c), None);
    let mut busy = candidate(0);
    assert!(!show_early_wake_recording_capsule(&mut busy, SessionPhase::Listening, id(9), 0));
    let mut small = candidate(0);
    assert!(!small.append(11, 10) && small.pcm_bytes == 0);
    assert!(small.append(10, 10));
    small.give_up();
    assert_eq!(small.pcm_bytes, 0);
}

#[test]
fn only_verified_voices_are_recognised() {
    assert!(speaker_candidate_may_reach_asr(false, None));
    assert!(speaker_candidate_may_reach_asr(true, Some(true)));
    assert!(!speaker_candidate_may_reach_asr(true, Some(false)));
    assert!(!speaker_candidate_may_reach_asr(true, None));
    assert!(reject_hidden_automatic_candidate(true, HiddenCandidateTransportState::Streaming));
    assert!(!reject_hidden_automatic_candidate(true, HiddenCandidateTransportState::Ended));
    assert!(!reject_hidden_automatic_candidate(false, HiddenCandidateTransportState::Streaming));
}

#[test]
fn a_keyword_and_a_voice_open_a_session() {
    let mut c = candidate(38_400);
    let s = step(&mut c, ReleaseStage::Entry, ReleaseEvent::Chunk { extracted: None });
    assert_eq!(s.action, ReleaseAction::PollDetector);
    let s = step(&mut c, s.stage, ReleaseEvent::DetectorPolled { poll: DetectorPoll::Loaded, rotation_start: None });
    assert_eq!(s.action, ReleaseAction::FeedKeywordModel { from: 0, otherwise_from: 0, fresh: false });
    assert_eq!(c.kws_fed_bytes, 38_400);
    let s = step(&mut c, s.stage, heard(Some(true)));
    assert_eq!((c.kws_first_hit_at, c.kws_first_hit_pcm_ms, c.kws_total_ms), (Some(9), Some(1_200), 5));
    let s = step(&mut c, s.stage, ReleaseEvent::Planned { ladder: LadderEvidence { deferred: true, allowed: true, rung_reached: true }, prefix_retry_due: false, now: 10 });
    assert_eq!(s.action, ReleaseAction::StartConfirmation { origin_bytes: 0, exploratory: false, prefix_retry: false });
    let s = step(&mut c, s.stage, ReleaseEvent::ConfirmationPolled { finished: true });
    assert_eq!(s.action, ReleaseAction::JudgeConfirmation);
    let s = step(&mut c, s.stage, ReleaseEvent::Judged { age: FRESH,
        verdict: ConfirmationVerdict::Matched { may_activate: true },
        inference_ms: 33,
    });
    assert_eq!(s.action, ReleaseAction::CheckOwnerWindow { show_capsule: true });
    let s = step(&mut c, s.stage, ReleaseEvent::OwnerWindowChecked { ready: true });
    assert_eq!(s.action, ReleaseAction::VerifyOwner);
    let s = step(&mut c, s.stage, ReleaseEvent::OwnerWeighed { accepted: true, separation_running: false, retry_at_ms: None });
    assert_eq!(s.action, ReleaseAction::LocatePhrase { calibrate: false });
    let beyond = ReleaseEvent::PhraseLocated { post_wake_offset: 0, anchor_offset: 38_401 };
    assert!(!release_awaits(&c, s.stage, beyond));
    let s = step(&mut c, s.stage, ReleaseEvent::PhraseLocated { post_wake_offset: 32_000, anchor_offset: 8_000 });
    assert_eq!(s.action, ReleaseAction::OpenSession { post_wake_bytes: 6_400 });
    assert_eq!((c.pcm_bytes, c.kws_fed_bytes), (30_400, 0));
    let s = step(&mut c, s.stage, ReleaseEvent::SessionBegun(Some(id(4))));
    assert_eq!(s.action, ReleaseAction::PromoteToOwner { session_id: id(4) });
    let s = step(&mut c, s.stage, ReleaseEvent::LifecycleAnswered { promoted: true });
    let s = step(&mut c, s.stage, ReleaseEvent::SessionActivated { active: true });
    assert_eq!(s.action, ReleaseAction::Released { session_id: id(4), from: 8_000, bytes: 30_400 });
    assert_eq!(s.action.error(7), None);
    let fed = s.action.feed();
    assert_eq!((fed[0].0, fed[fed.len() - 1].1), (0, 30_400));
    assert!(fed.windows(2).all(|pair| pair[0].1 == pair[1].0));
    assert!(ReleaseAction::PollDetector.feed().is_empty());
}

#[test]
fn a_bare_keyword_waits_for_its_confirmation() {
    let mut c = ready(640);
    let s = step(&mut c, ReleaseStage::Poll { kws_hit: true }, ReleaseEvent::ConfirmationPolled { finished: false });
    assert_eq!(s.action, ReleaseAction::WeighSecondary);
    for held in [PendingSecondaryDecision::AwaitSecondary, PendingSecondaryDecision::HoldAfterExplicitAbsent] {
        let w = step(&mut c, s.stage, ReleaseEvent::SecondaryWeighed(held));
        assert_eq!(w.action, ReleaseAction::Wait { dismiss_capsule: None });
    }
    let s = step(&mut c, s.stage, ReleaseEvent::SecondaryWeighed(PendingSecondaryDecision::AcceptKeywordModel));
    assert_eq!(s.action, ReleaseAction::CheckOwnerWindow { show_capsule: false });
    let s = step(&mut c, s.stage, ReleaseEvent::OwnerWindowChecked { ready: false });
    assert_eq!(s.stage, ReleaseStage::Done);
    assert_eq!(c.pending_phrase_match.unwrap().owner_verification_start_ms, 1_200);
}

#[test]
fn near_matches_stay_hidden() {
    let mut c = ready(640);
    c.local_confirmation_task = Some(listener_coordinator::candidate::LocalConfirmationTask {
        origin_bytes: 320,
        has_keyword_model_hit: false,
        started_at: 0,
    });
    let s = step(&mut c, ReleaseStage::Poll { kws_hit: false }, ReleaseEvent::ConfirmationPolled { finished: true });
    let near = |live_owner_near| ReleaseEvent::Judged { age: FRESH,
        verdict: ConfirmationVerdict::Unmatched {
            partial_phrase: true,
            near: NEAR,
            live_owner_near,
            kws_absent_count: 3,
            local_absent_count: 4,
            absent_coverage: Some(confirmed_stretch(320, 10)),
        },
        inference_ms: 1,
    };
    let mut moved_on = c;
    let old = WindowAge { stale: true, still_activates: false };
    let found = ConfirmationVerdict::Matched { may_activate: true };
    let w = step(&mut moved_on, s.stage, ReleaseEvent::Judged { age: old, verdict: found, inference_ms: 1 });
    assert_eq!((w.stage, moved_on), (ReleaseStage::Done, c));
    let kept = WindowAge { stale: true, still_activates: true };
    let w = step(&mut moved_on, s.stage, ReleaseEvent::Judged { age: kept, verdict: found, inference_ms: 1 });
    assert_eq!(w.action, ReleaseAction::CheckOwnerWindow { show_capsule: true });
    let mut denied = c;
    let w = step(&mut denied, s.stage, near(false));
    assert_eq!(w.stage, ReleaseStage::Done);
    assert_eq!((denied.kws_local_absent_count, denied.local_absent_count), (3, 4));
    assert_eq!(denied.local_absent_coverage, Some(AbsentCoverage { start_bytes: 320, end_bytes: 640 }));
    assert_eq!((denied.local_partial_phrase_confirmations, denied.owner_near_phrase_confirmations), (1, 1));
    let w = step(&mut c, s.stage, near(true));
    assert_eq!(w.action, ReleaseAction::CheckOwnerWindow { show_capsule: false });
    assert!(matches!(w.stage, ReleaseStage::OwnerWindow { wake_match: WakeMatch::OwnerNear { origin_bytes: 320 }, .. }));
    let later = ReleaseEvent::Judged { age: FRESH, verdict: ConfirmationVerdict::Matched { may_activate: false }, inference_ms: 1 };
    assert_eq!(step(&mut c, s.stage, later).stage, ReleaseStage::Done);
    assert!(c.local_kws_fusion_evidence);
}

#[test]
fn a_rejected_candidate_loses_its_audio() {
    let mut c = ready(640);
    let s = step(&mut c, ReleaseStage::Feed, ReleaseEvent::FeedTaskFailed);
    assert!(matches!(s.action, ReleaseAction::Reject { reason: RejectReason::DetectorTaskFailed, .. }));
    assert_eq!((c.pcm_bytes, c.kind), (0, BufferedSpeakerCandidateKind::Rejected));
    let mut c = ready(640);
    let s = step(&mut c, ReleaseStage::Feed, heard(None));
    assert!(matches!(s.action, ReleaseAction::Reject { reason: RejectReason::DetectorFailed, .. }));
    let weigh = |separation_running, retry_at_ms| ReleaseEvent::OwnerWeighed { accepted: false, separation_running, retry_at_ms };
    let mut c = ready(640);
    let verify = ReleaseStage::Verify { phrase: phrase(1) };
    assert_eq!(step(&mut c, verify, weigh(true, Some(9))).stage, ReleaseStage::Done);
    assert_eq!(c.pending_phrase_match.unwrap().owner_verification_start_ms, 21);
    assert_eq!(step(&mut c, verify, weigh(false, Some(9))).stage, ReleaseStage::Done);
    assert_eq!(c.pending_phrase_match.unwrap().owner_verification_start_ms, 9);
    let s = step(&mut c, verify, weigh(false, None));
    assert!(matches!(s.action, ReleaseAction::Reject { reason: RejectReason::VoiceprintNonMatch, .. }));
    assert_eq!(c.pcm_bytes, 0);
    assert_eq!(RejectReason::DetectorTaskFailed.label(), "wake_phrase_detector_task_failed");
    assert_eq!(RejectReason::DetectorFailed.label(), "wake_phrase_detector_failed");
    assert_eq!(RejectReason::VoiceprintNonMatch.label(), "voiceprint_non_match");
}

#[test]
fn a_pending_phrase_waits_for_enough_audio() {
    let mut c = ready(38_399);
    c.pending_phrase_match = Some(phrase(1_200));
    let chunk = ReleaseEvent::Chunk { extracted: None };
    assert_eq!(step(&mut c, ReleaseStage::Entry, chunk).stage, ReleaseStage::Done);
    assert!(c.append(1, 1_000_000));
    assert_eq!(step(&mut c, ReleaseStage::Entry, chunk).action, ReleaseAction::VerifyOwner);
    assert!(c.pending_phrase_match.is_none());
    let refused = step(&mut c, ReleaseStage::Promote { session_id: id(1), from: 0 }, ReleaseEvent::LifecycleAnswered { promoted: false });
    assert_eq!(
        refused.action.error(7).unwrap().message(),
        "录音生命周期拒绝自动唤醒主人会话 embedded_session_id=7 coordinator_session_id=00000000-0000-0000-0000-000000000001"
    );
    let cancelled = step(&mut c, ReleaseStage::Activate { session_id: id(1), from: 0 }, ReleaseEvent::SessionActivated { active: false });
    assert_eq!(cancelled.action.error(7).unwrap().message(), "嵌入式音频听写会话已被取消");
    let none = step(&mut c, ReleaseStage::Begin { from: 0 }, ReleaseEvent::SessionBegun(None));
    assert_eq!(none.action, ReleaseAction::ReportNoSession);
}

fn end(c: &mut BufferedSpeakerCandidate, stage: TerminalStage, event: TerminalEvent) -> TerminalStep {
    assert!(terminal_awaits(c, stage, event));
    finish_buffered_speaker_candidate(c, stage, event, ENDING)
}

#[test]
fn a_finished_candidate_is_decided() {
    let mut c = candidate(64_000);
    let s = end(&mut c, TerminalStage::Entry, TerminalEvent::Ended);
    assert_eq!(s.action, TerminalAction::AwaitDetector);
    let s = end(&mut c, s.stage, TerminalEvent::DetectorSettled { loaded: true });
    assert_eq!(s.action, TerminalAction::FeedRest { from: 0 });
    let s = end(&mut c, s.stage, TerminalEvent::Fed { heard: Some(true), step_ms: 3 });
    assert_eq!(s.action, TerminalAction::ConfirmKeyword);
    let s = end(&mut c, s.stage, TerminalEvent::KeywordConfirmed(LastConfirmation::Unavailable { may_trust_keyword: true }));
    assert_eq!(s.action, TerminalAction::WeighRecoveries);
    let s = end(&mut c, s.stage, TerminalEvent::RecoveriesWeighed {
        near: false, strong_overlap: false, repeated_overlap: false, owner_matched: true, can_separate: true,
    });
    assert_eq!(s.action, TerminalAction::WeighOwner);
    let s = end(&mut c, s.stage, TerminalEvent::OwnerWeighed { accepted: true, verified: true });
    assert_eq!(s.action, TerminalAction::LocatePhrase { calibrate: true });
    let located = s.stage;
    let mut long = c;
    let s = end(&mut long, located, TerminalEvent::PhraseLocated { post_wake_offset: 32_000, anchor_offset: 16_000 });
    assert_eq!(s.action, TerminalAction::OpenSession);
    assert_eq!(long.pcm_bytes, 48_000);
    let s = end(&mut long, s.stage, TerminalEvent::SessionBegun(Some(id(3))));
    let s = end(&mut long, s.stage, TerminalEvent::LifecycleAnswered { promoted: true });
    let s = end(&mut long, s.stage, TerminalEvent::SessionActivated { active: true });
    assert_eq!(s.action, TerminalAction::Released { session_id: id(3), from: 16_000, bytes: 48_000 });
    assert_eq!(s.action.ends_recording(), Some(false));
    let fed = s.action.feed();
    assert_eq!((fed[0].0, fed[fed.len() - 1].1), (0, 48_000));
    assert!(fed.windows(2).all(|pair| pair[0].1 == pair[1].0));
    let mut recording = stream(false);
    assert_eq!(recording.settle_finished_candidate(s.action), Some(false));
    assert_eq!(recording.session.unwrap().session_id, id(3));
    let s = end(&mut c, located, TerminalEvent::PhraseLocated { post_wake_offset: 32_001, anchor_offset: 0 });
    assert_eq!(s.action, TerminalAction::StageContinuation { dismiss_capsule: None });
    let s2 = end(&mut c, s.stage, TerminalEvent::ContinuationStaged { staged: false });
    assert!(matches!(s2.action, TerminalAction::Reject { reason: TerminalReject::ContinuationAlreadyActive, .. }));
    let s = end(&mut c, s.stage, TerminalEvent::ContinuationStaged { staged: true });
    let failed = end(&mut c, s.stage, TerminalEvent::ContinuationRequested { session_id: None });
    assert_eq!(failed.action, TerminalAction::DropContinuation);
    let s = end(&mut c, s.stage, TerminalEvent::ContinuationRequested { session_id: Some(id(2)) });
    assert_eq!(s.action, TerminalAction::ScheduleContinuationExpiry { session_id: id(2) });
    assert_eq!(s.action.ends_recording(), Some(true));
    assert!(s.action.feed().is_empty());
    let mut recording = stream(false);
    recording.speaker_candidate = Some(c);
    assert_eq!(recording.settle_finished_candidate(s.action), Some(true));
    assert_eq!((recording.session, recording.speaker_candidate), (None, None));
}

#[test]
fn a_voice_without_a_phrase_is_turned_away() {
    let mut c = ready(64_000);
    show_early_wake_recording_capsule(&mut c, SessionPhase::Idle, id(9), 0);
    let s = end(&mut c, TerminalStage::Entry, TerminalEvent::Ended);
    let s = end(&mut c, s.stage, TerminalEvent::Fed { heard: Some(false), step_ms: 0 });
    let s = end(&mut c, s.stage, TerminalEvent::RecallChosen { worthwhile: true });
    let s = end(&mut c, s.stage, TerminalEvent::RecallFinished { found: false });
    assert_eq!(s.action, TerminalAction::TakeLastChance);
    let present = |may_activate, owner_near| TerminalEvent::LastChanceTaken(LastConfirmation::Present {
        may_activate, owner_near, near: NEAR, overlapped: true,
    });
    let mut held = c;
    let w = end(&mut held, s.stage, present(false, false));
    assert!(matches!(w.stage, TerminalStage::Recoveries { found: None }));
    assert_eq!((held.owner_near_phrase_confirmations, held.local_owner_overlap_near_confirmations), (1, 1));
    let mut vouched = c;
    match end(&mut vouched, s.stage, present(false, true)).stage {
        TerminalStage::Recoveries { found: Some(found) } => assert_eq!(found.wake_match, WakeMatch::BufferStart),
        other => panic!("{other:?}"),
    }
    assert_eq!(vouched, c);
    match end(&mut vouched, s.stage, present(true, true)).stage {
        TerminalStage::Recoveries { found: Some(found) } => {
            assert!(matches!(found.wake_match, WakeMatch::LocalTranscript { origin_bytes: 0, .. }))
        }
        other => panic!("{other:?}"),
    }
    let s = end(&mut c, s.stage, TerminalEvent::LastChanceTaken(LastConfirmation::Absent {
        fused: None, owner_near: false, near: NEAR, overlapped: true, not_enrolled: false,
    }));
    assert_eq!((c.owner_near_phrase_confirmations, c.local_owner_overlap_near_confirmations), (1, 1));
    let mut strong = c;
    let found = end(&mut strong, s.stage, TerminalEvent::RecoveriesWeighed {
        near: false, strong_overlap: true, repeated_overlap: false, owner_matched: true, can_separate: false,
    });
    assert!(matches!(found.stage, TerminalStage::Weigh { found: Some(_) }));
    let s = end(&mut c, s.stage, TerminalEvent::RecoveriesWeighed {
        near: false, strong_overlap: false, repeated_overlap: false, owner_matched: true, can_separate: true,
    });
    assert_eq!(s.action, TerminalAction::SeparateOwner);
    let s = end(&mut c, s.stage, TerminalEvent::SeparationFinished { recovered: false });
    let s = end(&mut c, s.stage, TerminalEvent::OwnerWeighed { accepted: true, verified: true });
    assert_eq!(s.action, TerminalAction::Reject { reason: TerminalReject::PhraseNonMatch, dismiss_capsule: Some(id(9)) });
    assert!(c.early_capsule_session_id.is_none());
}

#[test]
fn a_phrase_without_the_owner_is_turned_away() {
    let mut c = ready(64_000);
    let found = TerminalStage::Weigh {
        found: Some(listener_coordinator::terminal::FoundPhrase {
            wake_match: WakeMatch::Keyword,
            phrase_signal: PhraseSignal::KeywordModel,
        }),
    };
    let s = end(&mut c, found, TerminalEvent::OwnerWeighed { accepted: false, verified: true });
    assert!(matches!(s.action, TerminalAction::Reject { reason: TerminalReject::VoiceprintNonMatch, .. }));
    let s = end(&mut c, found, TerminalEvent::OwnerWeighed { accepted: false, verified: false });
    assert!(matches!(s.action, TerminalAction::Reject { reason: TerminalReject::VoiceprintVerificationFailed, .. }));
    let refused = end(&mut c, TerminalStage::Promote { session_id: id(1), from: 0 }, TerminalEvent::LifecycleAnswered { promoted: false });
    assert_eq!(
        refused.action.error(3).unwrap().message(),
        "录音生命周期拒绝终端自动唤醒主人会话 embedded_session_id=3 coordinator_session_id=00000000-0000-0000-0000-000000000001"
    );
    for (reason, label) in [
        (TerminalReject::AlreadyRejected, "automatic_candidate_rejected"),
        (TerminalReject::DetectionFailed, "wake_phrase_detection_failed"),
        (TerminalReject::PhraseNonMatch, "wake_phrase_non_match"),
        (TerminalReject::VoiceprintNonMatch, "voiceprint_non_match"),
        (TerminalReject::VoiceprintVerificationFailed, "voiceprint_verification_failed"),
        (TerminalReject::ContinuationAlreadyActive, "wake_phrase_continuation_already_active"),
    ] {
        assert_eq!(reason.label(), label);
    }
}

#[test]
fn a_late_confirmation_still_counts() {
    let mut c = ready(64_000);
    c.local_confirmation_task = Some(listener_coordinator::candidate::LocalConfirmationTask {
        origin_bytes: 640,
        has_keyword_model_hit: false,
        started_at: 5,
    });
    let s = end(&mut c, TerminalStage::Entry, TerminalEvent::Ended);
    assert_eq!(s.action, TerminalAction::JoinConfirmation { started_at: 5 });
    let s = end(&mut c, s.stage, TerminalEvent::ConfirmationJoined { completed: true });
    let s = end(&mut c, s.stage, TerminalEvent::Fed { heard: Some(false), step_ms: 0 });
    assert_eq!(s.action, TerminalAction::JudgeInflight);
    let mut denied = c;
    let absent = |coverage| TerminalEvent::InflightJudged(TerminalInflightLocalDecision::RecordAbsent { coverage });
    let stretch = confirmed_stretch(640, 2_000);
    assert_eq!((stretch.start_bytes, stretch.end_bytes), (640, 64_640));
    assert_eq!(confirmed_stretch(1, usize::MAX).end_bytes, usize::MAX);
    let w = end(&mut denied, s.stage, absent(Some(stretch)));
    assert_eq!((w.action, denied.local_absent_count), (TerminalAction::ChooseRecall, 1));
    assert_eq!(denied.local_absent_coverage, Some(stretch));
    end(&mut denied, s.stage, absent(None));
    assert_eq!((denied.local_absent_count, denied.local_absent_coverage), (2, Some(stretch)));
    let w = end(&mut c, s.stage, TerminalEvent::InflightJudged(TerminalInflightLocalDecision::AcceptLocal));
    match w.stage {
        TerminalStage::Recoveries { found: Some(found) } => assert_eq!(
            found.wake_match,
            WakeMatch::LocalTranscript { origin_bytes: 640, refines_keyword: false }
        ),
        other => panic!("{other:?}"),
    }
}

#[test]
fn enrollments_end_in_one_of_three_ways() {
    let mut c = BufferedSpeakerCandidate::new(BufferedSpeakerCandidateKind::Enrollment, 0);
    let s = end(&mut c, TerminalStage::Entry, TerminalEvent::Ended);
    assert_eq!(s.action, TerminalAction::CheckEnrollment);
    let cancelled = end(&mut c, s.stage, TerminalEvent::EnrollmentChecked { should_process: false });
    assert_eq!(cancelled.action, TerminalAction::EndEnrollment(EnrollmentEnd::Cancelled));
    let s = end(&mut c, s.stage, TerminalEvent::EnrollmentChecked { should_process: true });
    let failed = end(&mut c, s.stage, TerminalEvent::EnrollmentProcessed { enrolled: false });
    assert_eq!(failed.action, TerminalAction::EndEnrollment(EnrollmentEnd::Failed));
    let done = end(&mut c, s.stage, TerminalEvent::EnrollmentProcessed { enrolled: true });
    assert_eq!(done.action, TerminalAction::EndEnrollment(EnrollmentEnd::Complete));
    assert_eq!(EnrollmentEnd::Cancelled.label(), "voiceprint_enrollment_cancelled");
    assert_eq!(EnrollmentEnd::Failed.label(), "voiceprint_enrollment_failed");
    assert_eq!(EnrollmentEnd::Complete.label(), "voiceprint_enrollment_complete");
}

fn stream(keep_listening_after_pipeline_errors: bool) -> EmbeddedStreamingDictation {
    EmbeddedStreamingDictation {
        session: None,
        speaker_candidate: None,
        embedded_session_id: None,
        pending_stop_expected_packet_count: None,
        pending_stop_force_after: None,
        orphan_recovery_quarantine_session_id: None,
        activation_segment_race_guard: None,
        keep_listening_after_pipeline_errors,
    }
}

fn pcm(session_id: u32, packet_sequence: u16, admitted: bool) -> PacketEvent {
    PacketEvent::PcmChunk { session_id, packet_sequence, pcm_bytes: 600, admitted }
}

fn stopped(session_id: u32, complete: bool, now: u64) -> PacketEvent {
    PacketEvent::Stopped { session_id, expected_packet_count: 4, body_started: false, complete, now }
}

const ADMITTED: BeginFacts = BeginFacts {
    admitted: true,
    continuation_waiting: None,
    candidate_kind: None,
    lifecycle_admits: true,
};

#[test]
fn orphaned_audio_is_taken_up_once() {
    let mut s = stream(true);
    assert_eq!(s.apply_ble_packet_actor_command(pcm(5, 2, true), LIMITS), PacketDecision::Ignore);
    assert_eq!(s.apply_ble_packet_actor_command(pcm(5, 3, true), LIMITS), PacketDecision::RecoverOrphan { session_id: 5 });
    s.settle_orphan_recovery(false);
    assert_eq!(s.apply_ble_packet_actor_command(pcm(5, 4, true), LIMITS), PacketDecision::Ignore);
    let replay = PacketEvent::Started { session_id: 5, origin: SessionStartOrigin::User, admitted: true };
    assert_eq!(s.apply_ble_packet_actor_command(replay, LIMITS), PacketDecision::Ignore);
    let fresh = PacketEvent::Started { session_id: 6, origin: SessionStartOrigin::User, admitted: true };
    assert_eq!(
        s.apply_ble_packet_actor_command(fresh, LIMITS),
        PacketDecision::Begin { session_id: 6, origin: SessionStartOrigin::User }
    );
    assert_eq!(s.orphan_recovery_quarantine_session_id, None);
    assert_eq!(s.apply_ble_packet_actor_command(PacketEvent::Ignored, LIMITS), PacketDecision::Ignore);
}

#[test]
fn candidates_are_buffered_up_to_a_limit() {
    let mut s = stream(true);
    let wake = BeginFacts { candidate_kind: Some(BufferedSpeakerCandidateKind::Verification), ..ADMITTED };
    assert_eq!(
        s.begin_candidate_or_session(5, SessionStartOrigin::VoiceActivation, wake, 0),
        Ok(BeginDecision::Buffering { load_detector: true })
    );
    assert_eq!(
        s.apply_ble_packet_actor_command(pcm(5, 0, true), LIMITS),
        PacketDecision::WorkOnCandidate { enrollment: false }
    );
    let full = s.apply_ble_packet_actor_command(pcm(5, 1, true), LIMITS);
    assert_eq!(full, PacketDecision::CandidateTooLarge);
    assert_eq!(full.settled(true), None);
    assert_eq!(full.error().unwrap().message(), "声纹候选录音超过安全缓冲上限");
    assert_eq!(s.promote_hidden_candidate_if_requested(5, false), Ok(false));
    let mut other = s;
    assert_eq!(
        other.promote_hidden_candidate_if_requested(6, true).unwrap_err().message(),
        "物理录音接管 session 不一致: current=Some(5), incoming=6"
    );
    assert_eq!(s.promote_hidden_candidate_if_requested(5, true), Ok(true));
    assert_eq!(
        s.settle_takeover(5, id(1), false, false).unwrap_err().message(),
        "录音生命周期拒绝物理接管 embedded_session_id=5 coordinator_session_id=00000000-0000-0000-0000-000000000001"
    );
    assert_eq!(s.settle_takeover(5, id(1), true, false).unwrap_err().message(), "物理录音接管会话已被取消");
    assert_eq!(s.settle_takeover(5, id(1), true, true), Ok(()));
    assert_eq!(s.session.unwrap().session_id, id(1));
    assert!(s.take_candidate().is_none());
}

#[test]
fn recordings_begin_as_they_should() {
    let mut s = stream(false);
    let denied = BeginFacts { admitted: false, ..ADMITTED };
    assert_eq!(s.begin_candidate_or_session(5, SessionStartOrigin::User, denied, 0), Ok(BeginDecision::Denied));
    let waited = BeginFacts { continuation_waiting: Some(id(3)), ..ADMITTED };
    assert_eq!(
        s.begin_candidate_or_session(5, SessionStartOrigin::VoiceActivation, waited, 0),
        Ok(BeginDecision::AttachContinuation { session_id: id(3) })
    );
    let refused = BeginFacts {
        candidate_kind: Some(BufferedSpeakerCandidateKind::Verification),
        lifecycle_admits: false,
        ..ADMITTED
    };
    assert_eq!(
        s.begin_candidate_or_session(5, SessionStartOrigin::VoiceActivation, refused, 0).unwrap_err().message(),
        "录音生命周期拒绝新的唤醒候选 embedded_session_id=5"
    );
    assert_eq!(s.begin_candidate_or_session(5, SessionStartOrigin::User, ADMITTED, 0), Ok(BeginDecision::OpenSession));
    s.adopt_released_session(id(1), None, 0);
    assert_eq!(s.begin_candidate_or_session(5, SessionStartOrigin::User, ADMITTED, 0), Ok(BeginDecision::AlreadyBound));
    assert_eq!(
        s.begin_candidate_or_session(6, SessionStartOrigin::VoiceActivation, ADMITTED, 0).unwrap_err().message(),
        "嵌入式音频流式 session 不一致: current=Some(5), incoming=6"
    );
}

#[test]
fn a_fresh_session_outlives_its_wake_segment() {
    let mut s = stream(true);
    s.embedded_session_id = Some(5);
    s.adopt_released_session(id(1), Some(5), 1_000);
    let mut late = s;
    assert_eq!(
        late.apply_ble_packet_actor_command(stopped(5, true, 3_001), LIMITS),
        PacketDecision::FinishComplete { session_id: 5, expected_packet_count: 4 }
    );
    assert_eq!(
        s.apply_ble_packet_actor_command(stopped(5, true, 3_000), LIMITS),
        PacketDecision::KeepForNextSegment { coordinator: id(1) }
    );
    let mut by_start = s;
    assert_eq!(
        by_start.begin_candidate_or_session(6, SessionStartOrigin::VoiceActivation, ADMITTED, 0),
        Ok(BeginDecision::Rebound { session_id: id(1) })
    );
    assert_eq!(
        s.apply_ble_packet_actor_command(pcm(6, 0, true), LIMITS),
        PacketDecision::FeedSession { rebound: Some(id(1)) }
    );
    assert_eq!((s.embedded_session_id, s.activation_segment_race_guard), (Some(6), None));
    assert_eq!(
        s.apply_ble_packet_actor_command(pcm(6, 1, true), LIMITS),
        PacketDecision::FeedSession { rebound: None }
    );
}

#[test]
fn a_stop_waits_for_missing_packets() {
    let mut s = stream(true);
    assert_eq!(s.apply_ble_packet_actor_command(stopped(5, true, 0), LIMITS), PacketDecision::ResetDone);
    s.embedded_session_id = Some(5);
    s.adopt_released_session(id(1), None, 0);
    assert_eq!(s.apply_ble_packet_actor_command(stopped(5, false, 100), LIMITS), PacketDecision::AwaitTail);
    assert_eq!(s.pending_stop_force_after, Some(1_300));
    assert_eq!((s.pending_finish(false), s.pending_finish(true)), (None, Some(4)));
    assert_eq!(
        s.finish_streaming_session(6, 1).unwrap_err().message(),
        "嵌入式音频停止包 session 不一致: current=Some(5), incoming=6"
    );
    assert_eq!(s.finish_streaming_session(5, 0).unwrap_err().message(), "嵌入式音频会话没有可识别的 PCM 数据");
    assert_eq!(s.finish_streaming_session(5, 1), Ok(()));
    assert_eq!(s.finish_after_candidate(true, true), Ok(StreamEnd::CandidateEnded { close_candidate: false }));
    assert_eq!(s.finish_after_candidate(false, false), Ok(StreamEnd::Complete { session_id: id(1) }));
    assert_eq!(s.finish_after_candidate(false, false), Err(StreamError::NoSession));
    assert_eq!(StreamError::NoSession.message(), "嵌入式音频流式听写 session 尚未创建");
}

#[test]
fn cancels_and_failures_reset_the_stream() {
    let open = |keep| {
        let mut s = stream(keep);
        s.embedded_session_id = Some(5);
        s.adopt_released_session(id(1), None, 0);
        s
    };
    let cancel = PacketEvent::Cancelled { session_id: 5 };
    let fail = PacketEvent::Failed { session_id: 5 };
    let mut s = open(true);
    assert_eq!(s.apply_ble_packet_actor_command(cancel, LIMITS), PacketDecision::DiscardCancelled);
    assert!(s.session.is_none() && s.embedded_session_id.is_none());
    let aborted = open(false).apply_ble_packet_actor_command(cancel, LIMITS);
    assert_eq!(aborted.error().unwrap().message(), "嵌入式音频会话已取消");
    assert_eq!(open(true).apply_ble_packet_actor_command(fail, LIMITS), PacketDecision::DiscardFailed);
    let failed = open(false).apply_ble_packet_actor_command(fail, LIMITS);
    assert_eq!((failed, failed.error()), (PacketDecision::AbortFailed, None));
    assert_eq!(device_failure("Overrun"), "嵌入式音频会话错误: Overrun");
    let nothing = stream(true).apply_ble_packet_actor_command(cancel, LIMITS);
    assert_eq!((nothing, nothing.settled(true)), (PacketDecision::NothingToCancel, Some(false)));
    let mut enrolling = stream(false);
    enrolling.speaker_candidate = Some(BufferedSpeakerCandidate::new(BufferedSpeakerCandidateKind::Enrollment, 0));
    let dropped = enrolling.apply_ble_packet_actor_command(cancel, LIMITS);
    assert_eq!((dropped, dropped.settled(false)), (PacketDecision::DiscardCandidate { enrollment: true }, Some(true)));
    let mut s = open(true);
    assert_eq!(s.apply_ble_packet_actor_command(pcm(5, 9, false), LIMITS), PacketDecision::DropInFlight);
    assert!(s.session.is_none());
    assert_eq!(s.apply_ble_packet_actor_command(pcm(5, 9, false), LIMITS), PacketDecision::Ignore);
}

#[test]
fn silence_behind_a_failed_provider_stops_once() {
    let session = StreamingSession {
        session_id: id(1),
        proactive_stop_body_started: true,
        proactive_stop_silence_ms: 1_500,
        proactive_stop_dispatched: false,
    };
    assert!(proactive_stop_due(&session, 1_500));
    assert!(!proactive_stop_due(&session, 1_501));
    assert!(!proactive_stop_due(&StreamingSession { proactive_stop_dispatched: true, ..session }, 0));
    assert!(!proactive_stop_due(&StreamingSession { proactive_stop_body_started: false, ..session }, 0));
    assert!(embedded_audio_stop_is_user_initiated(None));
    assert!(embedded_audio_stop_is_user_initiated(Some(SessionStopOrigin::User)));
    assert!(!embedded_audio_stop_is_user_initiated(Some(SessionStopOrigin::VoiceActivationMaxDuration)));
}

#[test]
fn positions_outside_the_buffer_are_not_taken() {
    let c = ready(640);
    let rotated = |at| ReleaseEvent::DetectorPolled { poll: DetectorPoll::Loaded, rotation_start: Some(at) };
    assert!(release_awaits(&c, ReleaseStage::Detector, rotated(640)));
    assert!(!release_awaits(&c, ReleaseStage::Detector, rotated(641)));
    assert!(!release_awaits(&c, ReleaseStage::Done, rotated(0)));
    assert!(!terminal_awaits(&c, TerminalStage::Join, TerminalEvent::ConfirmationJoined { completed: true }));
    assert!(!terminal_awaits(&c, TerminalStage::Done, TerminalEvent::Ended));
}

#[test]
fn a_near_phrase_needs_a_longer_transcript() {
    assert!(NEAR.is_near());
    assert!(NearPhraseEvidence { best_distance: 0, ..NEAR }.is_near());
    assert!(!NearPhraseEvidence { phrase_absent: false, ..NEAR }.is_near());
    assert!(!NearPhraseEvidence { best_distance: 3, ..NEAR }.is_near());
    assert!(!NearPhraseEvidence { transcript_chars: 4, ..NEAR }.is_near());
}

#[test]
fn a_round_of_the_release_settles_the_stream() {
    let held = candidate(640);
    let mut recording = stream(false);
    recording.speaker_candidate = Some(candidate(320));
    let wait = ReleaseAction::Wait { dismiss_capsule: None };
    assert_eq!(recording.settle_release(held, wait, 7, 50), Some(false));
    assert_eq!(recording.speaker_candidate, Some(held));
    let mut gone = recording;
    assert_eq!(gone.settle_release(held, ReleaseAction::ReportNoSession, 7, 50), None);
    assert_eq!((gone.session, gone.speaker_candidate), (None, None));
    let released = ReleaseAction::Released { session_id: id(4), from: 0, bytes: 640 };
    assert_eq!(recording.settle_release(held, released, 7, 50), Some(true));
    assert_eq!(recording.session.unwrap().session_id, id(4));
    let guard = recording.activation_segment_race_guard.unwrap();
    assert_eq!((guard.segment_id, guard.activated_at), (7, 50));
    assert!(recording.is_sound());
    recording.speaker_candidate = Some(held);
    assert!(!recording.is_sound());
}

#[test]
fn the_body_is_heard_or_shown() {
    assert!(body_started_before_stop(true, None));
    assert!(body_started_before_stop(false, Some(" \u{4f60}")));
    assert!(!body_started_before_stop(false, Some(" \t")));
    assert!(!body_started_before_stop(false, None));
}

#[test]
fn a_session_is_stopped_by_the_host_once() {
    let mut recording = stream(false);
    recording.adopt_released_session(id(6), None, 0);
    let mut session = recording.session.unwrap();
    session.proactive_stop_body_started = true;
    session.proactive_stop_silence_ms = 9_000;
    recording.session = Some(session);
    assert!(proactive_stop_due(&session, 5_000));
    assert!(!recording.note_proactive_stop(false));
    assert!(proactive_stop_due(&recording.session.unwrap(), 5_000));
    assert!(recording.note_proactive_stop(true));
    assert!(!proactive_stop_due(&recording.session.unwrap(), 5_000));
    let chunk = PacketEvent::PcmChunk { session_id: 1, packet_sequence: 9, pcm_bytes: 64, admitted: true };
    recording.apply_ble_packet_actor_command(chunk, LIMITS);
    assert!(!proactive_stop_due(&recording.session.unwrap(), 0));
}

#[test]
fn a_chunk_promotes_releases_and_finishes_in_order() {
    let mut recording = stream(false);
    let done = |recording_done| CandidateWork::Done { recording_done };
    assert_eq!(recording.work_on_candidate(CandidateWork::Promote, true, true), done(false));
    assert_eq!(recording.work_on_candidate(CandidateWork::Promote, false, true), CandidateWork::Release);
    assert_eq!(recording.work_on_candidate(CandidateWork::Release, true, true), done(false));
    assert_eq!(recording.work_on_candidate(CandidateWork::Release, false, true), done(false));
    recording.pending_stop_expected_packet_count = Some(40);
    assert_eq!(recording.work_on_candidate(CandidateWork::Release, false, false), done(false));
    let finish = CandidateWork::Finish { expected_packet_count: 40 };
    assert_eq!(recording.work_on_candidate(CandidateWork::Release, false, true), finish);
    assert_eq!(recording.work_on_candidate(finish, true, true), done(true));
    assert_eq!(recording.work_on_candidate(done(true), true, true), done(true));
}

#[test]
fn only_a_completed_recording_hands_its_text_over() {
    let text = || EmbeddedAudioTranscriptResult {
        session_id: "00000000-0000-0000-0000-000000000008".to_string(),
        raw_transcript: "raw".to_string(),
        final_text: "final".to_string(),
        error_code: None,
    };
    let mut slot = Some(text());
    let mut transcript = None;
    assert_eq!(settle_completion(&mut transcript, &mut slot, id(8), &Err("x".to_string())), None);
    assert!(transcript.is_none() && slot.is_some());
    assert_eq!(settle_completion(&mut transcript, &mut slot, id(9), &Ok(())), Some(id(9)));
    assert!(transcript.is_none() && slot.is_some());
    assert_eq!(settle_completion(&mut transcript, &mut slot, id(8), &Ok(())), Some(id(8)));
    assert!(transcript.is_some() && slot.is_none());
}

#[test]
fn exploratory_confirmations_follow_the_ladder() {
    let ladder = |deferred, allowed, rung_reached| ReleaseEvent::Planned {
        ladder: LadderEvidence { deferred, allowed, rung_reached },
        prefix_retry_due: false,
        now: 3,
    };
    let silent = ReleaseStage::Plan { kws_hit: false };
    for held in [ladder(true, true, true), ladder(false, false, true), ladder(false, true, false)] {
        let mut c = ready(640);
        assert_eq!(step(&mut c, silent, held).action, ReleaseAction::PollConfirmation);
        assert_eq!(c.local_confirmation_attempts, 0);
    }
    let mut c = ready(640);
    let s = step(&mut c, silent, ladder(false, true, true));
    assert_eq!(s.action, ReleaseAction::StartConfirmation { origin_bytes: 0, exploratory: true, prefix_retry: false });
    assert_eq!(c.local_confirmation_attempts, 1);
}

#[test]
fn a_running_confirmation_is_joined_within_its_time() {
    assert_eq!(join_confirmation(true, 0), ConfirmationJoin::Take);
    assert_eq!(join_confirmation(false, 0), ConfirmationJoin::GiveUp);
    assert_eq!(join_confirmation(false, 250), ConfirmationJoin::Wait { limit_ms: 250 });
}

#[test]
fn a_beginning_asks_only_what_matters() {
    let recording = stream(false);
    let mut answers = BeginAnswers::new();
    assert_eq!(recording.begin_question(&answers), Some(BeginQuestion::Admission));
    answers.admitted = Some(false);
    assert_eq!(recording.begin_question(&answers), None);
    answers.admitted = Some(true);
    assert_eq!(recording.begin_question(&answers), Some(BeginQuestion::Continuation));
    answers.continuation_waiting = Some(Some(id(1)));
    assert_eq!(recording.begin_question(&answers), None);
    answers.continuation_waiting = Some(None);
    assert_eq!(recording.begin_question(&answers), Some(BeginQuestion::CandidateKind));
    answers.candidate_kind = Some(Some(BufferedSpeakerCandidateKind::Enrollment));
    assert_eq!(recording.begin_question(&answers), None);
    answers.candidate_kind = Some(Some(BufferedSpeakerCandidateKind::Verification));
    assert_eq!(recording.begin_question(&answers), Some(BeginQuestion::Lifecycle));
    answers.lifecycle_admits = Some(true);
    assert_eq!(recording.begin_question(&answers), None);
    let facts = answers.facts();
    assert!(facts.admitted && facts.lifecycle_admits && facts.continuation_waiting.is_none());
    let mut busy = recording;
    busy.adopt_released_session(id(2), None, 0);
    let admitted = BeginAnswers { admitted: Some(true), ..BeginAnswers::new() };
    assert_eq!(busy.begin_question(&admitted), None);
}

#[test]
fn a_recording_without_audio_is_aborted() {
    let mut recording = stream(false);
    recording.embedded_session_id = Some(7);
    let empty = recording.finish_streaming_session(7, 0).unwrap_err();
    assert_eq!(empty, StreamError::NoAudio);
    assert!(empty.aborts_recording() && StreamError::Cancelled.aborts_recording());
    let other = recording.finish_streaming_session(8, 0).unwrap_err();
    assert!(!other.aborts_recording());
    assert!(!StreamError::NoSession.aborts_recording());
}
