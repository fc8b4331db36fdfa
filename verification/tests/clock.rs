use timers::clock::TimerCore;
use timers::clock::TimerState;

#[test]
fn test_stopwatch_basic() {
    let mut sw = TimerCore::new_stopwatch();
    assert_eq!(sw.state, TimerState::Stopped);
    assert_eq!(sw.elapsed_ms(0), 0);

    sw.start(1000);
    assert_eq!(sw.state, TimerState::Running);
    assert_eq!(sw.elapsed_ms(1500), 500);
    assert_eq!(sw.elapsed_ms(2000), 1000);

    sw.pause(2000);
    assert_eq!(sw.state, TimerState::Paused);
    assert_eq!(sw.elapsed_ms(5000), 1000); // Stays at 1000 when paused

    sw.start(5000);
    assert_eq!(sw.elapsed_ms(5500), 1500);

    sw.reset();
    assert_eq!(sw.state, TimerState::Stopped);
    assert_eq!(sw.elapsed_ms(10000), 0);
}

#[test]
fn test_countdown_basic() {
    let mut cd = TimerCore::new_countdown(10_000); // 10 seconds
    assert_eq!(cd.remaining_ms(0), Some(10_000));

    cd.start(1000);
    assert_eq!(cd.remaining_ms(1000), Some(10_000));
    assert_eq!(cd.remaining_ms(6000), Some(5_000));
    assert!(!cd.is_expired(6000));

    assert_eq!(cd.remaining_ms(11_000), Some(0));
    assert!(cd.is_expired(11_000));
}

#[test]
fn test_lap() {
    let mut sw = TimerCore::new_stopwatch();
    sw.start(0);

    let lap1 = sw.lap(5000);
    assert_eq!(lap1, 5000);
    assert_eq!(sw.elapsed_ms(5000), 0); // Reset after lap

    let lap2 = sw.lap(8000);
    assert_eq!(lap2, 3000);
}

#[test]
fn lap_keeps_running_and_ignores_stopped_clock() {
    let mut sw = TimerCore::new_stopwatch();
    assert_eq!(sw.lap(500), 0); // not running: a no-op worth zero
    assert_eq!(sw.state, TimerState::Stopped);

    sw.start(0);
    sw.lap(4000);
    assert_eq!(sw.state, TimerState::Running);
    assert_eq!(sw.elapsed_ms(4500), 500); // still counting from the mark
}

#[test]
fn elapsed_saturates_on_backwards_timestamp() {
    let mut sw = TimerCore::new_stopwatch();
    sw.start(1000);
    assert_eq!(sw.elapsed_ms(500), 0); // clock skew: never negative
    sw.pause(400);
    assert_eq!(sw.elapsed_ms(9999), 0);
}

#[test]
fn zero_target_expires_on_first_poll() {
    let mut cd = TimerCore::new_countdown(0);
    assert!(cd.is_expired(0));
    cd.start(7);
    assert!(cd.is_expired(7));
    assert_eq!(cd.remaining_ms(7), Some(0));
}

#[test]
fn stopwatch_never_expires() {
    let mut sw = TimerCore::new_stopwatch();
    sw.start(0);
    assert!(!sw.is_expired(u64::MAX));
    assert_eq!(sw.remaining_ms(123), None);
    assert_eq!(sw.target_ms(), None);
}

#[test]
fn pause_resume_accumulates_running_segments_only() {
    // Two running segments of 300 and 200, with a gap between them.
    let mut cd = TimerCore::new_countdown(1000);
    cd.start(100);
    cd.pause(400);
    cd.start(10_000);
    cd.pause(10_200);
    assert_eq!(cd.elapsed_ms(99_999), 500);
    assert_eq!(cd.remaining_ms(99_999), Some(500));
    assert_eq!(cd.target_ms(), Some(1000));
}

#[test]
fn reset_keeps_the_target() {
    let mut cd = TimerCore::new_countdown(2500);
    cd.start(0);
    cd.reset();
    assert_eq!(cd.state, TimerState::Stopped);
    assert_eq!(cd.elapsed_ms(100), 0);
    assert_eq!(cd.target_ms(), Some(2500));
}
