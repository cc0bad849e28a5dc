use loshell::pomodoro::{Mode, Pomodoro, BREAK_SECS, FOCUS_SECS};

#[test]
fn fresh_timer_defaults() {
    let p = Pomodoro::new();
    assert!(p.visible);
    assert!(!p.running);
    assert!(matches!(p.mode, Mode::Focus));
    assert_eq!(p.remaining, FOCUS_SECS);
    assert_eq!(p.focus_len, 25 * 60);
    assert_eq!(p.break_len, 5 * 60);
}

#[test]
fn tick_does_nothing_while_paused() {
    let mut p = Pomodoro::new();
    let switched = p.tick_1s();
    assert!(!switched);
    assert_eq!(p.remaining, FOCUS_SECS);
}

#[test]
fn tick_counts_down_one_second() {
    let mut p = Pomodoro::new();
    p.start_pause();
    assert!(p.running);
    let switched = p.tick_1s();
    assert!(!switched);
    assert_eq!(p.remaining, FOCUS_SECS - 1);
}

#[test]
fn running_out_switches_mode_and_pauses() {
    let mut p = Pomodoro::new();
    p.start_pause();
    p.remaining = 0;
    let switched = p.tick_1s();
    assert!(switched);
    assert!(!p.running);
    assert!(matches!(p.mode, Mode::Break));
    assert_eq!(p.remaining, BREAK_SECS);

    p.start_pause();
    p.remaining = 0;
    let switched = p.tick_1s();
    assert!(switched);
    assert!(matches!(p.mode, Mode::Focus));
    assert_eq!(p.remaining, FOCUS_SECS);
}

#[test]
fn add_five_minutes_extends_the_countdown() {
    let mut p = Pomodoro::new();
    p.add_five_minutes();
    assert_eq!(p.remaining, FOCUS_SECS + 5 * 60);
}

#[test]
fn stop_reset_returns_to_a_paused_focus_countdown() {
    let mut p = Pomodoro::new();
    p.start_pause();
    p.tick_1s();
    p.mode = Mode::Break;
    p.stop_reset();
    assert!(!p.running);
    assert!(matches!(p.mode, Mode::Focus));
    assert_eq!(p.remaining, FOCUS_SECS);
}

#[test]
fn toggle_visible_flips() {
    let mut p = Pomodoro::new();
    p.toggle_visible();
    assert!(!p.visible);
    p.toggle_visible();
    assert!(p.visible);
}

#[test]
fn mmss_reads_like_a_clock_face() {
    let mut p = Pomodoro::new();
    assert_eq!(p.mmss(), (25, 0));
    p.remaining = 125;
    assert_eq!(p.mmss(), (2, 5));
    p.remaining = 59;
    assert_eq!(p.mmss(), (0, 59));
    p.remaining = 0;
    assert_eq!(p.mmss(), (0, 0));
}
