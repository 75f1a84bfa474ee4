use install_sim::outcome::{exit_code, RunOutcome, StageOutcome};
use install_sim::pipeline::Pipeline;
use install_sim::player::{LogPlayer, PlayStep};
use install_sim::retry::{action_outcome, prompt_choice, BuildAction, BuildEvent, BuildPhase, RetrySession};
use install_sim::stages::{selected_stages, BannerStage, DenoStage, InstallationStage, SelectedStage, Stage};

#[test]
fn selection_keeps_order_and_names() {
    let sel = selected_stages(&[Stage::Bios, Stage::Deno, Stage::Kernel]);
    assert_eq!(sel.len(), 3);
    assert_eq!(sel[0], SelectedStage::Banner(BannerStage { stage: Stage::Bios }));
    assert_eq!(sel[1], SelectedStage::Deno(DenoStage::new()));
    assert_eq!(sel[2].stage(), Stage::Kernel);
    assert_eq!(sel[1].name(), "Deno Runtime Compilation");
    assert_eq!(sel[0].name(), "BIOS Initialization");
    assert!(selected_stages(&[]).is_empty());
}

#[test]
fn both_stages_complete() {
    let mut p = Pipeline::new(selected_stages(&[Stage::Bios, Stage::Boot]));
    let mut order = Vec::new();
    while let Some(s) = p.next_stage() {
        order.push(s.stage());
        p.record(StageOutcome::Completed);
    }
    assert_eq!(order, vec![Stage::Bios, Stage::Boot]);
    assert!(matches!(p.outcome(), Some(RunOutcome::Completed)));
    assert_eq!(exit_code(&RunOutcome::Completed), 0);
}

#[test]
fn interruption_stops_the_run() {
    let mut p = Pipeline::new(selected_stages(&[Stage::Deno, Stage::Boot]));
    assert_eq!(p.next_stage().map(|s| s.stage()), Some(Stage::Deno));
    let mut s = RetrySession::new();
    assert_eq!(s.on_event(BuildEvent::FailureDrawn(false)), BuildAction::PlaySuccessLogs);
    let mut player = LogPlayer::new(vec!["Downloaded a".to_string(), "Finished".to_string()]);
    assert!(matches!(player.advance(false), PlayStep::Show { index: 0, .. }));
    assert_eq!(player.advance(true), PlayStep::Interrupted);
    let a = s.on_event(BuildEvent::Cancelled);
    let o = action_outcome(a).unwrap();
    assert!(matches!(o, StageOutcome::Interrupted));
    p.record(o);
    assert_eq!(p.next_stage(), None);
    assert_eq!(p.next_stage(), None);
    assert!(matches!(p.outcome(), Some(RunOutcome::Cancelled)));
    assert_eq!(exit_code(&RunOutcome::Cancelled), 0);
}

#[test]
fn failure_ends_the_run_with_nonzero_exit() {
    let mut p = Pipeline::new(selected_stages(&[Stage::Bios, Stage::Boot]));
    assert!(p.next_stage().is_some());
    p.record(StageOutcome::Failed("disk".to_string()));
    assert_eq!(p.next_stage(), None);
    match p.outcome() {
        Some(o @ RunOutcome::Failed(reason)) => {
            assert_eq!(reason, "disk");
            assert_eq!(exit_code(o), 1);
        }
        other => panic!("unexpected {:?}", other),
    }
}

#[test]
fn next_stage_waits_for_a_report() {
    let mut p = Pipeline::new(selected_stages(&[Stage::Bios, Stage::Boot]));
    assert!(p.next_stage().is_some());
    assert_eq!(p.next_stage(), None);
    assert!(p.outcome().is_none());
    p.record(StageOutcome::Completed);
    assert_eq!(p.next_stage().map(|s| s.stage()), Some(Stage::Boot));
}

#[test]
fn abort_after_failure_skips_and_run_continues() {
    let mut p = Pipeline::new(selected_stages(&[Stage::Deno, Stage::Boot]));
    assert_eq!(p.next_stage().map(|s| s.stage()), Some(Stage::Deno));
    let mut s = RetrySession::new();
    assert_eq!(s.on_event(BuildEvent::FailureDrawn(true)), BuildAction::PlayErrorLogs);
    assert_eq!(s.on_event(BuildEvent::PlaybackDone), BuildAction::PromptRetry);
    assert_eq!(prompt_choice('x'), None);
    let choice = prompt_choice('2').unwrap();
    let a = s.on_event(choice);
    assert_eq!(a, BuildAction::FinishSkipped);
    assert_eq!(s.phase(), BuildPhase::Aborted);
    let o = action_outcome(a).unwrap();
    assert!(matches!(o, StageOutcome::Skipped));
    p.record(o);
    assert_eq!(p.next_stage().map(|s| s.stage()), Some(Stage::Boot));
    p.record(StageOutcome::Completed);
    assert_eq!(p.next_stage(), None);
    assert!(matches!(p.outcome(), Some(RunOutcome::Completed)));
}

#[test]
fn retry_after_failure_plays_success_once() {
    let mut s = RetrySession::new();
    assert_eq!(s.on_event(BuildEvent::FailureDrawn(true)), BuildAction::PlayErrorLogs);
    assert_eq!(s.on_event(BuildEvent::PlaybackDone), BuildAction::PromptRetry);
    assert_eq!(s.on_event(prompt_choice('1').unwrap()), BuildAction::PlaySuccessLogs);
    assert_eq!(s.on_event(BuildEvent::PlaybackDone), BuildAction::FinishCompleted);
    assert_eq!(s.phase(), BuildPhase::Succeeded);
    assert_eq!(s.on_event(BuildEvent::PlaybackDone), BuildAction::Ignore);
    assert!(matches!(action_outcome(BuildAction::FinishCompleted), Some(StageOutcome::Completed)));
}

#[test]
fn success_draw_plays_success_logs() {
    let mut s = RetrySession::new();
    assert_eq!(s.on_event(BuildEvent::FailureDrawn(false)), BuildAction::PlaySuccessLogs);
    assert_eq!(s.on_event(BuildEvent::RetryChosen), BuildAction::Ignore);
    assert_eq!(s.on_event(BuildEvent::PlaybackDone), BuildAction::FinishCompleted);
}

#[test]
fn cancellation_overrides_retry_logic() {
    let mut s = RetrySession::new();
    s.on_event(BuildEvent::FailureDrawn(true));
    assert_eq!(s.on_event(BuildEvent::Cancelled), BuildAction::FinishInterrupted);
    assert_eq!(s.on_event(BuildEvent::RetryChosen), BuildAction::Ignore);
    assert_eq!(s.phase(), BuildPhase::Interrupted);
    assert!(matches!(action_outcome(BuildAction::FinishInterrupted), Some(StageOutcome::Interrupted)));
    assert!(action_outcome(BuildAction::PromptRetry).is_none());
}

#[test]
fn first_attempt_fails_about_three_in_ten() {
    let n = 20000;
    let mut failed = 0u32;
    for _ in 0..n {
        let mut s = RetrySession::new();
        match s.begin() {
            BuildAction::PlayErrorLogs => {
                assert_eq!(s.phase(), BuildPhase::PlayingErrors);
                failed += 1;
            }
            BuildAction::PlaySuccessLogs => assert_eq!(s.phase(), BuildPhase::PlayingSuccess),
            other => panic!("unexpected {:?}", other),
        }
    }
    let frac = failed as f64 / n as f64;
    assert!((frac - 0.3).abs() < 0.03);
}
