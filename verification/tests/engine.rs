use timers::clock::TimerState;
use timers::controller::AppMode;
use timers::controller::ModeController;
use timers::controller::Surface;
use timers::controller::KEY_F1;
use timers::controller::KEY_F2;
use timers::controller::KEY_F4;
use timers::pomodoro::PomodoroState;
use timers::scheduler::PumpCommand;
use timers::scheduler::TickScheduler;

fn fresh() -> ModeController {
    ModeController::new(
        timers::alerts::AlertConfig::default(),
        PomodoroState::from_settings(1000, 2000, 3000, 4),
        Vec::new(),
    )
}

#[test]
fn scheduler_floors_a_zero_interval_and_quits_on_command() {
    let mut s = TickScheduler::new();
    assert!(!s.emit_due());
    assert!(!s.apply(PumpCommand::Start(0)));
    assert!(s.emit_due());
    assert_eq!(s.interval_ms, 100); // the minimum-floor default
    assert!(!s.apply(PumpCommand::Start(250)));
    assert_eq!(s.interval_ms, 250);
    assert!(!s.apply(PumpCommand::Stop));
    assert!(!s.emit_due());
    assert!(s.apply(PumpCommand::Quit));
}

#[test]
fn overlays_draw_in_fixed_priority() {
    let mut c = fresh();
    assert_eq!(c.visible_surface(), Surface::Screen(AppMode::ModeSelect));
    c.menu_visible = true;
    assert_eq!(c.visible_surface(), Surface::Menu);
    c.confirm_exit = true;
    assert_eq!(c.visible_surface(), Surface::ConfirmExit);
    c.help_visible = true;
    assert_eq!(c.visible_surface(), Surface::Help);
}

#[test]
fn entering_pomodoro_and_starting_it_pumps_the_scheduler() {
    let mut c = fresh();
    c.handle_key('\r', 0); // open the first mode
    assert_eq!(c.mode, AppMode::Pomodoro);

    let fx = c.handle_key('\r', 500); // start the clock
    assert_eq!(c.pomodoro.timer.state, TimerState::Running);
    assert_eq!(fx.pump, Some(PumpCommand::Start(1000)));
    assert!(fx.redraw);

    let fx = c.handle_key('\r', 700); // pause it again
    assert_eq!(c.pomodoro.timer.state, TimerState::Paused);
    assert_eq!(fx.pump, Some(PumpCommand::Stop));
}

#[test]
fn an_expired_pomodoro_tick_advances_the_phase_and_alerts() {
    let mut c = fresh();
    c.handle_key('\r', 0);
    c.handle_key('\r', 0); // work phase of 1000 ms starts at 0

    let fx = c.handle_tick(500);
    assert!(fx.alert.is_none());

    let fx = c.handle_tick(1500);
    assert_eq!(fx.alert.as_deref(), Some("Work done! Short break."));
    assert_eq!(c.pomodoro.current_cycle, 1);
    // The next phase starts immediately.
    assert_eq!(c.pomodoro.timer.state, TimerState::Running);
    assert_eq!(c.pomodoro.timer.target_ms(), Some(2000));
}

#[test]
fn an_expired_countdown_returns_to_the_list_with_an_alert() {
    let mut c = fresh();
    c.submit_new_countdown(String::from("Egg"), 4000);
    c.mode = AppMode::CountdownList;

    let fx = c.handle_key('\r', 1000); // start the selected countdown
    assert_eq!(c.mode, AppMode::CountdownRun);
    assert_eq!(fx.pump, Some(PumpCommand::Start(1000)));

    let fx = c.handle_tick(3000);
    assert!(fx.alert.is_none());
    assert_eq!(c.mode, AppMode::CountdownRun);

    let fx = c.handle_tick(5500);
    assert_eq!(fx.alert.as_deref(), Some("Egg expired!"));
    assert_eq!(fx.pump, Some(PumpCommand::Stop));
    assert_eq!(c.mode, AppMode::CountdownList);
    assert!(c.countdown.active_timer.is_none());
}

#[test]
fn losing_focus_stops_the_pump_but_never_the_clock() {
    let mut c = fresh();
    c.handle_key('\r', 0);
    c.handle_key('\r', 0); // pomodoro running from 0

    let fx = c.focus_changed(false);
    assert_eq!(fx.pump, Some(PumpCommand::Stop));
    assert!(!c.allow_redraw);
    // Accumulation goes on: elapsed time depends on timestamps alone.
    assert_eq!(c.pomodoro.timer.state, TimerState::Running);
    assert_eq!(c.pomodoro.timer.elapsed_ms(800), 800);

    let fx = c.focus_changed(true);
    assert_eq!(fx.pump, Some(PumpCommand::Start(1000)));
    assert!(c.allow_redraw && fx.redraw);
}

#[test]
fn leaving_a_mode_with_a_running_clock_asks_first() {
    let mut c = fresh();
    c.handle_key('\r', 0);
    c.handle_key('\r', 0); // running
    c.handle_key(KEY_F4, 10);
    assert!(c.confirm_exit);
    assert_eq!(c.mode, AppMode::Pomodoro);

    let fx = c.handle_key('y', 900);
    assert!(!c.confirm_exit);
    assert_eq!(c.mode, AppMode::ModeSelect);
    assert_eq!(fx.pump, Some(PumpCommand::Stop));
    assert_eq!(c.pomodoro.timer.state, TimerState::Paused);
    assert_eq!(c.pomodoro.timer.elapsed_ms(5000), 900);
}

#[test]
fn the_menu_opens_navigates_and_selects() {
    let mut c = fresh();
    c.handle_key('\r', 0); // Pomodoro
    c.handle_key(KEY_F1, 0);
    assert!(c.menu_visible);
    assert_eq!(c.menu_items(), vec!["Help", "Start/Pause", "Reset", "Settings"]);

    c.handle_key('\u{2193}', 0);
    assert_eq!(c.menu_cursor, 1);
    let fx = c.handle_key('\r', 50); // select Start/Pause
    assert!(!c.menu_visible);
    assert_eq!(c.pomodoro.timer.state, TimerState::Running);
    assert_eq!(fx.pump, Some(PumpCommand::Start(1000)));
}

#[test]
fn help_shows_on_top_and_any_key_dismisses_it() {
    let mut c = fresh();
    c.handle_key(KEY_F1, 0);
    c.handle_key('\r', 0); // select Help
    assert!(c.help_visible);
    assert_eq!(c.visible_surface(), Surface::Help);
    assert!(c.help_text().starts_with("TIMERS HELP"));

    c.handle_key('x', 0);
    assert!(!c.help_visible);
}

#[test]
fn f2_toggles_the_stopwatch_at_the_fast_interval() {
    let mut c = fresh();
    c.handle_key('\u{2193}', 0);
    c.handle_key('\r', 0); // Stopwatch
    assert_eq!(c.mode, AppMode::Stopwatch);

    let fx = c.handle_key(KEY_F2, 100);
    assert_eq!(c.stopwatch.timer.state, TimerState::Running);
    assert_eq!(fx.pump, Some(PumpCommand::Start(100)));

    c.handle_key('l', 2100); // record a lap
    c.handle_key('l', 3100);
    assert_eq!(c.stopwatch.laps, vec![2000, 1000]);

    c.handle_key(KEY_F2, 4100); // pause
    c.handle_key('r', 4200); // reset while paused
    assert!(c.stopwatch.laps.is_empty());
    assert_eq!(c.stopwatch.timer.state, TimerState::Stopped);
}

#[test]
fn settings_keys_toggle_and_persist_the_flags() {
    let mut c = fresh();
    c.handle_key('s', 0);
    assert_eq!(c.mode, AppMode::Settings);

    let fx = c.handle_key('\r', 0); // toggle vibration
    assert!(!c.alert_config.vibration);
    assert!(fx.save_alert_config);

    c.handle_key('\u{2193}', 0);
    c.handle_key('\u{2193}', 0);
    let fx = c.handle_key('\r', 0); // toggle audio on the third row
    assert!(c.alert_config.audio);
    assert!(fx.save_alert_config);
}

#[test]
fn a_new_countdown_entry_is_accepted_only_with_a_positive_duration() {
    let mut c = fresh();
    let fx = c.submit_new_countdown(String::from("Nap"), 600_000);
    assert!(fx.save_countdowns);
    assert_eq!(c.countdown.entries.len(), 1);

    let fx = c.submit_new_countdown(String::from("Nothing"), 0);
    assert!(!fx.save_countdowns);
    assert_eq!(c.countdown.entries.len(), 1);
}
