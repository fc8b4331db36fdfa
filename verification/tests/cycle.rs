use timers::clock::TimerState;
use timers::pomodoro::PomPhase;
use timers::pomodoro::PomodoroState;

#[test]
fn defaults_are_the_classic_cycle() {
    let p = PomodoroState::new();
    assert_eq!(p.phase, PomPhase::Work);
    assert_eq!(p.work_duration_ms, 25 * 60 * 1000);
    assert_eq!(p.short_break_ms, 5 * 60 * 1000);
    assert_eq!(p.long_break_ms, 15 * 60 * 1000);
    assert_eq!(p.cycles_before_long, 4);
    assert_eq!(p.current_cycle, 0);
    assert_eq!(p.total_completed, 0);
    assert_eq!(p.timer.target_ms(), Some(25 * 60 * 1000));
}

#[test]
fn work_advances_to_short_break_until_the_long_one_is_due() {
    let mut p = PomodoroState::from_settings(1000, 2000, 3000, 3);
    let msg = p.advance_phase();
    assert_eq!(msg, "Work done! Short break.");
    assert_eq!(p.phase, PomPhase::ShortBreak);
    assert_eq!(p.current_cycle, 1);
    assert_eq!(p.total_completed, 1);
    assert_eq!(p.timer.target_ms(), Some(2000));

    let msg = p.advance_phase();
    assert_eq!(msg, "Break over! Time to work.");
    assert_eq!(p.phase, PomPhase::Work);
    assert_eq!(p.current_cycle, 1);
    assert_eq!(p.timer.target_ms(), Some(1000));
}

#[test]
fn the_last_work_cycle_earns_the_long_break_and_the_counter_restarts() {
    let mut p = PomodoroState::from_settings(1000, 2000, 3000, 4);
    p.current_cycle = 3; // one short of the bound, in Work

    let msg = p.advance_phase();
    assert_eq!(msg, "Work done! Long break.");
    assert_eq!(p.phase, PomPhase::LongBreak);
    assert_eq!(p.current_cycle, 4);
    assert_eq!(p.timer.target_ms(), Some(3000));

    let msg = p.advance_phase();
    assert_eq!(msg, "Break over! Time to work.");
    assert_eq!(p.phase, PomPhase::Work);
    assert_eq!(p.current_cycle, 0);
    assert_eq!(p.timer.target_ms(), Some(1000));
}

#[test]
fn reset_rewinds_only_the_clock_of_the_current_phase() {
    let mut p = PomodoroState::from_settings(1000, 2000, 3000, 4);
    p.advance_phase(); // into the short break
    p.timer.start(0);
    p.timer.pause(500);
    p.reset();
    assert_eq!(p.phase, PomPhase::ShortBreak);
    assert_eq!(p.current_cycle, 1);
    assert_eq!(p.timer.state, TimerState::Stopped);
    assert_eq!(p.timer.elapsed_ms(9999), 0);
    assert_eq!(p.timer.target_ms(), Some(2000));
}

#[test]
fn phase_labels() {
    let mut p = PomodoroState::new();
    assert_eq!(p.phase_label(), "Work");
    p.phase = PomPhase::ShortBreak;
    assert_eq!(p.phase_label(), "Short Break");
    p.phase = PomPhase::LongBreak;
    assert_eq!(p.phase_label(), "Long Break");
}
