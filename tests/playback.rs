use install_sim::animator::{AnimStatus, AnimStep, Animator, TICK_MS};
use install_sim::classify::LineKind;
use install_sim::player::{LogPlayer, PlayStatus, PlayStep};

fn lines(v: &[&str]) -> Vec<String> {
    v.iter().map(|s| s.to_string()).collect()
}

#[test]
fn cancelled_before_first_line_shows_nothing() {
    let mut p = LogPlayer::new(lines(&["Compiling a", "Finished"]));
    assert_eq!(p.advance(true), PlayStep::Interrupted);
    assert_eq!(p.status(), PlayStatus::Interrupted);
    assert_eq!(p.advance(false), PlayStep::Interrupted);
    let mut empty = LogPlayer::new(Vec::new());
    assert_eq!(empty.advance(true), PlayStep::Interrupted);
}

#[test]
fn lines_play_in_order_then_finish() {
    let mut p = LogPlayer::new(lines(&["error: x", "warning: y", "Downloaded z", "Finished", "plain"]));
    let expected = [
        LineKind::Error,
        LineKind::Warning,
        LineKind::Transfer,
        LineKind::Completion,
        LineKind::Plain,
    ];
    for (i, k) in expected.iter().enumerate() {
        match p.advance(false) {
            PlayStep::Show { index, kind, millis } => {
                assert_eq!(index, i);
                assert_eq!(kind, *k);
                match kind {
                    LineKind::Error | LineKind::Warning => assert_eq!(millis, 0),
                    LineKind::Completion => assert_eq!(millis, 300),
                    LineKind::Transfer => assert!((10..40).contains(&millis)),
                    _ => assert!((20..80).contains(&millis)),
                }
            }
            other => panic!("unexpected step {:?}", other),
        }
    }
    assert_eq!(p.line(2), "Downloaded z");
    assert_eq!(p.advance(false), PlayStep::Finished);
    assert_eq!(p.advance(true), PlayStep::Finished);
}

#[test]
fn cancellation_mid_playback_stops_it() {
    let mut p = LogPlayer::new(lines(&["a", "b", "c"]));
    assert!(matches!(p.advance(false), PlayStep::Show { index: 0, .. }));
    assert_eq!(p.advance(true), PlayStep::Interrupted);
    assert_eq!(p.advance(false), PlayStep::Interrupted);
}

#[test]
fn animation_runs_its_whole_duration_in_ticks() {
    let mut a = Animator::new(110);
    let mut total = 0u64;
    let mut ticks = 0;
    loop {
        match a.advance(false) {
            AnimStep::Tick { sleep_ms, elapsed_ms } => {
                assert!(sleep_ms <= TICK_MS);
                total += sleep_ms;
                assert_eq!(elapsed_ms, total);
                ticks += 1;
            }
            AnimStep::Done => break,
            AnimStep::Interrupted => panic!("not cancelled"),
        }
    }
    assert_eq!(total, 110);
    assert_eq!(ticks, 6);
    assert_eq!(a.status(), AnimStatus::Done);
}

#[test]
fn animation_of_zero_ticks_once() {
    let mut a = Animator::new(0);
    assert_eq!(a.advance(false), AnimStep::Tick { sleep_ms: 0, elapsed_ms: 0 });
    assert_eq!(a.advance(false), AnimStep::Done);
}

#[test]
fn animation_stops_on_cancellation() {
    let mut a = Animator::new(1000);
    assert_eq!(a.advance(false), AnimStep::Tick { sleep_ms: 20, elapsed_ms: 20 });
    assert_eq!(a.advance(false), AnimStep::Tick { sleep_ms: 20, elapsed_ms: 40 });
    assert_eq!(a.advance(true), AnimStep::Interrupted);
    assert_eq!(a.advance(false), AnimStep::Interrupted);
    assert_eq!(a.status(), AnimStatus::Interrupted);
    assert_eq!(a.duration(), 1000);
}
