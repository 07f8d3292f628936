use statusbar::schedule::{
    seconds_to_boundary, wait_length, LoopAction, LoopEvent, LoopPhase, StatusLoop, MINUTE,
};
use statusbar::wake::WakeSignal;

#[test]
fn render_at_second_37_waits_23() {
    assert_eq!(seconds_to_boundary(37), 23);
}

#[test]
fn boundary_range_is_one_to_sixty() {
    assert_eq!(MINUTE, 60);
    assert_eq!(seconds_to_boundary(0), 60);
    assert_eq!(seconds_to_boundary(59), 1);
    for second in 0..60u32 {
        let remaining = seconds_to_boundary(second);
        assert!(1 <= remaining && remaining <= 60);
        assert_eq!((u64::from(second) + remaining) % 60, 0);
    }
}

#[test]
fn wake_at_half_time_ends_wait_at_half_time() {
    assert_eq!(wait_length(40, Some(20)), 20);
    assert_eq!(wait_length(23, Some(11)), 11);
}

#[test]
fn wait_without_wake_lasts_the_timer() {
    assert_eq!(wait_length(23, None), 23);
    assert_eq!(wait_length(23, Some(23)), 23);
    assert_eq!(wait_length(23, Some(500)), 23);
    assert_eq!(wait_length(23, Some(0)), 0);
}

#[test]
fn raises_coalesce_into_one_wake() {
    for n in 1..10 {
        let mut signal = WakeSignal::new();
        for _ in 0..n {
            signal.raise();
        }
        assert!(signal.is_pending());
        assert!(signal.try_wait());
        assert!(!signal.is_pending());
        assert!(!signal.try_wait());
    }
}

#[test]
fn new_signal_has_nothing_pending() {
    let mut signal = WakeSignal::new();
    assert!(!signal.is_pending());
    assert!(!signal.try_wait());
    assert!(!signal.is_pending());
}

#[test]
fn raise_before_wait_is_not_lost() {
    let mut signal = WakeSignal::new();
    signal.raise();
    let kept = signal;
    assert!(kept.is_pending());
    assert!(signal.try_wait());
}

#[test]
fn raise_after_wait_is_seen_by_next_wait() {
    let mut signal = WakeSignal::new();
    signal.raise();
    assert!(signal.try_wait());
    signal.raise();
    assert!(signal.try_wait());
    assert!(!signal.try_wait());
}

#[test]
fn loop_waits_to_the_minute_after_render() {
    let mut status = StatusLoop::new();
    assert_eq!(status.phase, LoopPhase::Rendering);
    let action = status.step(LoopEvent::Rendered { second: 37 });
    assert_eq!(action, LoopAction::Wait(23));
    assert_eq!(status.phase, LoopPhase::Waiting { remaining: 23 });
    let action = status.step(LoopEvent::TimerElapsed);
    assert_eq!(action, LoopAction::Render);
    assert_eq!(status.phase, LoopPhase::Rendering);
    let action = status.step(LoopEvent::Rendered { second: 0 });
    assert_eq!(action, LoopAction::Wait(60));
}

#[test]
fn wake_ends_wait_like_the_timer() {
    let mut by_timer = StatusLoop::new();
    let mut by_wake = StatusLoop::new();
    by_timer.step(LoopEvent::Rendered { second: 10 });
    by_wake.step(LoopEvent::Rendered { second: 10 });
    assert_eq!(by_timer.step(LoopEvent::TimerElapsed), LoopAction::Render);
    assert_eq!(by_wake.step(LoopEvent::Woken), LoopAction::Render);
    assert_eq!(by_timer, by_wake);
    assert!(!by_wake.wake.is_pending());
}

#[test]
fn wake_during_render_ends_next_wait_at_once() {
    let mut status = StatusLoop::new();
    for _ in 0..3 {
        assert_eq!(status.step(LoopEvent::Woken), LoopAction::Proceed);
    }
    assert_eq!(status.phase, LoopPhase::Rendering);
    assert_eq!(status.step(LoopEvent::Rendered { second: 12 }), LoopAction::Render);
    assert_eq!(status.phase, LoopPhase::Rendering);
    assert_eq!(status.step(LoopEvent::Rendered { second: 13 }), LoopAction::Wait(47));
}

#[test]
fn loop_accepts_events_by_phase() {
    let mut status = StatusLoop::new();
    assert!(status.accepts(&LoopEvent::Rendered { second: 59 }));
    assert!(!status.accepts(&LoopEvent::Rendered { second: 60 }));
    assert!(!status.accepts(&LoopEvent::TimerElapsed));
    assert!(status.accepts(&LoopEvent::Woken));
    status.step(LoopEvent::Rendered { second: 5 });
    assert!(!status.accepts(&LoopEvent::Rendered { second: 5 }));
    assert!(status.accepts(&LoopEvent::TimerElapsed));
    assert!(status.accepts(&LoopEvent::Woken));
}
