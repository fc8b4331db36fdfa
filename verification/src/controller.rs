//! The mode controller: one explicit state value over the application's
//! modes and overlay flags, driven by keys, scheduler ticks and focus
//! changes. Every handler mutates the controller and returns the
//! [`Effects`] the host must carry out — pump commands, alerts, redraw and
//! persistence requests. Overlays intercept input in a fixed priority:
//! help, then the exit confirmation, then the menu, then the mode itself.

use vstd::prelude::*;

use crate::alerts::AlertConfig;
use crate::clock::TimerCore;
use crate::clock::TimerState;
use crate::countdown::CountdownEntry;
use crate::countdown::CountdownState;
use crate::pomodoro::PomodoroState;
use crate::scheduler::PumpCommand;
use crate::stopwatch::StopwatchState;

verus! {

/// The F1 key, as the keyboard service delivers it.
pub const KEY_F1: char = '\u{0011}';

/// The F2 key.
pub const KEY_F2: char = '\u{0012}';

/// The F3 key.
pub const KEY_F3: char = '\u{0013}';

/// The F4 key.
pub const KEY_F4: char = '\u{0014}';

/// The scheduler interval while a Pomodoro or countdown clock runs.
pub const PUMP_SLOW_MS: u64 = 1000;

/// The scheduler interval while the stopwatch runs (it shows centiseconds).
pub const PUMP_FAST_MS: u64 = 100;

/// The application modes.
#[derive(Clone, Copy, PartialEq, Eq, Structural, Debug)]
pub enum AppMode {
    ModeSelect,
    Pomodoro,
    Stopwatch,
    CountdownList,
    CountdownRun,
    Settings,
}

/// Which surface the host should draw, in overlay priority order.
#[derive(Clone, Copy, PartialEq, Eq, Structural, Debug)]
pub enum Surface {
    Help,
    ConfirmExit,
    Menu,
    Screen(AppMode),
}

/// What the host must carry out after an event was handled: forward a
/// command to the tick scheduler, deliver an alert, redraw, persist, or
/// open the new-countdown dialog and hand the result back through
/// [`ModeController::submit_new_countdown`].
pub struct Effects {
    pub redraw: bool,
    pub pump: Option<PumpCommand>,
    pub alert: Option<String>,
    pub save_countdowns: bool,
    pub save_alert_config: bool,
    pub prompt_new_countdown: bool,
}

/// An [`Effects`] value without an alert message.
pub open spec fn spec_fx(
    redraw: bool,
    pump: Option<PumpCommand>,
    save_countdowns: bool,
    save_alert_config: bool,
    prompt_new_countdown: bool,
) -> Effects {
    Effects {
        redraw,
        pump,
        alert: None,
        save_countdowns,
        save_alert_config,
        prompt_new_countdown,
    }
}

/// An [`Effects`] value that asks for nothing.
pub open spec fn spec_quiet() -> Effects {
    spec_fx(false, None, false, false, false)
}

/// A redraw and nothing else.
pub open spec fn spec_redraw() -> Effects {
    spec_fx(true, None, false, false, false)
}

/// A redraw together with a scheduler command.
pub open spec fn spec_redraw_pump(pump: Option<PumpCommand>) -> Effects {
    spec_fx(true, pump, false, false, false)
}

impl Effects {
    /// The effect value that asks for nothing.
    pub fn quiet() -> (r: Effects)
        ensures
            r == spec_quiet(),
    {
        Effects {
            redraw: false,
            pump: None,
            alert: None,
            save_countdowns: false,
            save_alert_config: false,
            prompt_new_countdown: false,
        }
    }

    /// A redraw request and nothing else.
    pub fn redraw() -> (r: Effects)
        ensures
            r == spec_redraw(),
    {
        let mut fx = Effects::quiet();
        fx.redraw = true;
        fx
    }
}

/// The whole application state the engine owns.
pub struct ModeController {
    pub mode: AppMode,
    pub mode_cursor: usize,
    pub settings_cursor: usize,
    pub alert_config: AlertConfig,
    pub pomodoro: PomodoroState,
    pub stopwatch: StopwatchState,
    pub countdown: CountdownState,
    /// Whether this controller believes the tick scheduler is pumping; kept
    /// in step by emitting a command exactly when the belief changes.
    pub pump_running: bool,
    /// Redraws are frozen while the application is in the background.
    pub allow_redraw: bool,
    pub menu_visible: bool,
    pub menu_cursor: usize,
    pub help_visible: bool,
    pub confirm_exit: bool,
}

/// How many items the menu of a mode offers.
pub open spec fn spec_menu_len(mode: AppMode) -> int {
    match mode {
        AppMode::ModeSelect => 2,
        AppMode::Pomodoro => 4,
        AppMode::Stopwatch => 4,
        AppMode::CountdownList => 4,
        AppMode::CountdownRun => 4,
        AppMode::Settings => 2,
    }
}

impl ModeController {
    /// The controller's invariant: the owned components are well formed
    /// and the fixed cursors stay on their three entries.
    pub open spec fn wf(self) -> bool {
        &&& self.pomodoro.wf()
        &&& self.countdown.wf()
        &&& self.mode_cursor <= 2
        &&& self.settings_cursor <= 2
    }

    /// Whether any owned clock is currently running.
    pub open spec fn spec_any_timer_running(self) -> bool {
        ||| self.pomodoro.timer.state is Running
        ||| self.stopwatch.timer.state is Running
        ||| (self.countdown.active_timer matches Some(t) && t.state is Running)
    }

    /// A fresh controller over the values the host loaded: mode selection
    /// with nothing running, no overlays, redraws allowed.
    pub fn new(
        alert_config: AlertConfig,
        pomodoro: PomodoroState,
        countdown_entries: Vec<CountdownEntry>,
    ) -> (r: Self)
        requires
            pomodoro.wf(),
        ensures
            r.mode is ModeSelect,
            r.mode_cursor == 0,
            r.settings_cursor == 0,
            r.alert_config == alert_config,
            r.pomodoro == pomodoro,
            r.stopwatch.timer == TimerCore::spec_new_stopwatch(),
            r.stopwatch.laps@ == Seq::<u64>::empty(),
            r.countdown.entries == countdown_entries,
            r.countdown.cursor == 0,
            r.countdown.active_timer is None,
            r.countdown.active_index is None,
            r.pump_running == false,
            r.allow_redraw == true,
            !r.menu_visible && !r.help_visible && !r.confirm_exit,
            r.wf(),
    {
        let mut countdown = CountdownState::new();
        countdown.entries = countdown_entries;
        ModeController {
            mode: AppMode::ModeSelect,
            mode_cursor: 0,
            settings_cursor: 0,
            alert_config,
            pomodoro,
            stopwatch: StopwatchState::new(),
            countdown,
            pump_running: false,
            allow_redraw: true,
            menu_visible: false,
            menu_cursor: 0,
            help_visible: false,
            confirm_exit: false,
        }
    }

    /// Which surface a redraw should show, in the fixed overlay priority:
    /// help first, then the exit confirmation, then the menu, then the
    /// current mode's screen.
    pub fn visible_surface(&self) -> (r: Surface)
        ensures
            self.help_visible ==> r == Surface::Help,
            !self.help_visible && self.confirm_exit ==> r == Surface::ConfirmExit,
            !self.help_visible && !self.confirm_exit && self.menu_visible ==> r == Surface::Menu,
            !self.help_visible && !self.confirm_exit && !self.menu_visible ==> r == Surface::Screen(
                self.mode,
            ),
    {
        if self.help_visible {
            Surface::Help
        } else if self.confirm_exit {
            Surface::ConfirmExit
        } else if self.menu_visible {
            Surface::Menu
        } else {
            Surface::Screen(self.mode)
        }
    }

    /// Whether any owned clock is currently running.
    pub fn any_timer_running(&self) -> (r: bool)
        ensures
            r == self.spec_any_timer_running(),
    {
        if self.pomodoro.timer.state == TimerState::Running {
            return true;
        }
        if self.stopwatch.timer.state == TimerState::Running {
            return true;
        }
        match &self.countdown.active_timer {
            Some(t) => t.state == TimerState::Running,
            None => false,
        }
    }

    /// The controller after every running clock was paused at `now_ms`.
    pub open spec fn spec_all_paused(self, now_ms: u64) -> Self {
        ModeController {
            pomodoro: PomodoroState {
                timer: self.pomodoro.timer.spec_paused(now_ms),
                ..self.pomodoro
            },
            stopwatch: StopwatchState {
                timer: self.stopwatch.timer.spec_paused(now_ms),
                ..self.stopwatch
            },
            countdown: CountdownState {
                active_timer: match self.countdown.active_timer {
                    Some(t) => Some(t.spec_paused(now_ms)),
                    None => None,
                },
                ..self.countdown
            },
            pump_running: false,
            ..self
        }
    }

    /// Pause every running clock at `now_ms` and stop the scheduler.
    pub fn stop_all_timers(&mut self, now_ms: u64) -> (pump: Option<PumpCommand>)
        ensures
            *final(self) == old(self).spec_all_paused(now_ms),
            pump == (if old(self).pump_running {
                Some(PumpCommand::Stop)
            } else {
                None::<PumpCommand>
            }),
            old(self).wf() ==> final(self).wf(),
    {
        let now = now_ms;
        if self.pomodoro.timer.state == TimerState::Running {
            self.pomodoro.timer.pause(now);
        }
        if self.stopwatch.timer.state == TimerState::Running {
            self.stopwatch.timer.pause(now);
        }
        if let Some(timer) = &mut self.countdown.active_timer {
            if timer.state == TimerState::Running {
                timer.pause(now);
            }
        }
        proof {
            assert(self.pomodoro.timer == old(self).pomodoro.timer.spec_paused(now_ms));
            assert(self.stopwatch.timer == old(self).stopwatch.timer.spec_paused(now_ms));
        }
        self.stop_pump()
    }

    /// Remember that the scheduler is pumping; a `Start` command is due
    /// exactly when it was not already believed to be.
    fn start_pump(&mut self, interval_ms: u64) -> (pump: Option<PumpCommand>)
        ensures
            *final(self) == (ModeController { pump_running: true, ..*old(self) }),
            pump == (if old(self).pump_running {
                None::<PumpCommand>
            } else {
                Some(PumpCommand::Start(interval_ms))
            }),
    {
        if !self.pump_running {
            self.pump_running = true;
            Some(PumpCommand::Start(interval_ms))
        } else {
            None
        }
    }

    /// Remember that the scheduler is idle; a `Stop` command is due exactly
    /// when it was believed to be pumping.
    fn stop_pump(&mut self) -> (pump: Option<PumpCommand>)
        ensures
            *final(self) == (ModeController { pump_running: false, ..*old(self) }),
            pump == (if old(self).pump_running {
                Some(PumpCommand::Stop)
            } else {
                None::<PumpCommand>
            }),
    {
        if self.pump_running {
            self.pump_running = false;
            Some(PumpCommand::Stop)
        } else {
            None
        }
    }

    /// The `Start` command due when the scheduler was not already believed
    /// to be pumping.
    pub open spec fn spec_start_cmd(self, interval_ms: u64) -> Option<PumpCommand> {
        if self.pump_running {
            None
        } else {
            Some(PumpCommand::Start(interval_ms))
        }
    }

    /// The `Stop` command due when the scheduler was believed to be
    /// pumping.
    pub open spec fn spec_stop_cmd(self) -> Option<PumpCommand> {
        if self.pump_running {
            Some(PumpCommand::Stop)
        } else {
            None
        }
    }

    /// Start/pause on the Pomodoro clock: a stopped or paused clock starts
    /// and the scheduler pumps; a running clock pauses and the scheduler
    /// stops; an expired clock is left alone.
    pub open spec fn spec_pomodoro_toggled(self, now_ms: u64) -> (ModeController, Option<
        PumpCommand,
    >) {
        match self.pomodoro.timer.state {
            TimerState::Stopped | TimerState::Paused => (
                ModeController {
                    pomodoro: PomodoroState {
                        timer: self.pomodoro.timer.spec_started(now_ms),
                        ..self.pomodoro
                    },
                    pump_running: true,
                    ..self
                },
                self.spec_start_cmd(PUMP_SLOW_MS),
            ),
            TimerState::Running => (
                ModeController {
                    pomodoro: PomodoroState {
                        timer: self.pomodoro.timer.spec_paused(now_ms),
                        ..self.pomodoro
                    },
                    pump_running: false,
                    ..self
                },
                self.spec_stop_cmd(),
            ),
            TimerState::Expired => (self, None),
        }
    }

    /// Start/pause on the stopwatch clock, at the fast tick interval.
    pub open spec fn spec_stopwatch_toggled(self, now_ms: u64) -> (ModeController, Option<
        PumpCommand,
    >) {
        match self.stopwatch.timer.state {
            TimerState::Stopped | TimerState::Paused => (
                ModeController {
                    stopwatch: StopwatchState {
                        timer: self.stopwatch.timer.spec_started(now_ms),
                        ..self.stopwatch
                    },
                    pump_running: true,
                    ..self
                },
                self.spec_start_cmd(PUMP_FAST_MS),
            ),
            TimerState::Running => (
                ModeController {
                    stopwatch: StopwatchState {
                        timer: self.stopwatch.timer.spec_paused(now_ms),
                        ..self.stopwatch
                    },
                    pump_running: false,
                    ..self
                },
                self.spec_stop_cmd(),
            ),
            TimerState::Expired => (self, None),
        }
    }

    /// Pause/resume on the active countdown clock: only a running clock
    /// pauses and only a paused one resumes; without an active clock
    /// nothing happens.
    pub open spec fn spec_countdown_toggled(self, now_ms: u64) -> (ModeController, Option<
        PumpCommand,
    >) {
        match self.countdown.active_timer {
            Some(t) => match t.state {
                TimerState::Running => (
                    ModeController {
                        countdown: CountdownState {
                            active_timer: Some(t.spec_paused(now_ms)),
                            ..self.countdown
                        },
                        pump_running: false,
                        ..self
                    },
                    self.spec_stop_cmd(),
                ),
                TimerState::Paused => (
                    ModeController {
                        countdown: CountdownState {
                            active_timer: Some(t.spec_started(now_ms)),
                            ..self.countdown
                        },
                        pump_running: true,
                        ..self
                    },
                    self.spec_start_cmd(PUMP_SLOW_MS),
                ),
                _ => (self, None),
            },
            None => (self, None),
        }
    }

    /// F1: a visible help page closes; the exit confirmation swallows the
    /// key; otherwise the menu opens or closes with its cursor rewound.
    pub open spec fn spec_menu_toggled(self) -> (ModeController, Effects) {
        if self.help_visible {
            (ModeController { help_visible: false, ..self }, spec_redraw())
        } else if self.confirm_exit {
            (self, spec_quiet())
        } else {
            (
                ModeController { menu_visible: !self.menu_visible, menu_cursor: 0, ..self },
                spec_redraw(),
            )
        }
    }

    /// F2: overlays first (help closes, the confirmation swallows the key,
    /// an open menu closes), then start/pause for the mode's clock.
    pub open spec fn spec_after_f2(self, now_ms: u64) -> (ModeController, Effects) {
        if self.help_visible {
            (ModeController { help_visible: false, ..self }, spec_redraw())
        } else if self.confirm_exit {
            (self, spec_quiet())
        } else {
            let s1 = ModeController { menu_visible: false, ..self };
            match s1.mode {
                AppMode::Pomodoro => {
                    let (s2, cmd) = s1.spec_pomodoro_toggled(now_ms);
                    (s2, spec_redraw_pump(cmd))
                },
                AppMode::Stopwatch => {
                    let (s2, cmd) = s1.spec_stopwatch_toggled(now_ms);
                    (s2, spec_redraw_pump(cmd))
                },
                AppMode::CountdownRun => {
                    let (s2, cmd) = s1.spec_countdown_toggled(now_ms);
                    (s2, spec_redraw_pump(cmd))
                },
                _ => (s1, spec_redraw()),
            }
        }
    }

    /// F4: any overlay closes first; in a timer mode the exit confirmation
    /// opens while a clock runs, else back to mode selection; a running
    /// countdown stops and returns to its list; at the top level nothing
    /// happens.
    pub open spec fn spec_after_f4(self) -> (ModeController, Effects) {
        if self.help_visible {
            (ModeController { help_visible: false, ..self }, spec_redraw())
        } else if self.menu_visible {
            (ModeController { menu_visible: false, ..self }, spec_redraw())
        } else if self.confirm_exit {
            (ModeController { confirm_exit: false, ..self }, spec_redraw())
        } else {
            match self.mode {
                AppMode::Pomodoro | AppMode::Stopwatch | AppMode::CountdownList => {
                    if self.spec_any_timer_running() {
                        (ModeController { confirm_exit: true, ..self }, spec_redraw())
                    } else {
                        (ModeController { mode: AppMode::ModeSelect, ..self }, spec_redraw())
                    }
                },
                AppMode::CountdownRun => (
                    ModeController {
                        mode: AppMode::CountdownList,
                        pump_running: false,
                        countdown: CountdownState {
                            active_timer: None,
                            active_index: None,
                            ..self.countdown
                        },
                        ..self
                    },
                    spec_redraw_pump(self.spec_stop_cmd()),
                ),
                AppMode::Settings => (
                    ModeController { mode: AppMode::ModeSelect, ..self },
                    spec_redraw(),
                ),
                AppMode::ModeSelect => (self, spec_quiet()),
            }
        }
    }

    /// Keys on the mode-selection screen: the cursor moves over the three
    /// modes, enter opens the selected one, 's' opens the settings.
    pub open spec fn spec_after_key_mode_select(self, key: char) -> (ModeController, Effects) {
        if key == '\u{2191}' || key == 'k' {
            if self.mode_cursor > 0 {
                (
                    ModeController { mode_cursor: (self.mode_cursor - 1) as usize, ..self },
                    spec_redraw(),
                )
            } else {
                (self, spec_quiet())
            }
        } else if key == '\u{2193}' || key == 'j' {
            if self.mode_cursor < 2 {
                (
                    ModeController { mode_cursor: (self.mode_cursor + 1) as usize, ..self },
                    spec_redraw(),
                )
            } else {
                (self, spec_quiet())
            }
        } else if key == '\r' || key == '\n' {
            let m = if self.mode_cursor == 0 {
                AppMode::Pomodoro
            } else if self.mode_cursor == 1 {
                AppMode::Stopwatch
            } else if self.mode_cursor == 2 {
                AppMode::CountdownList
            } else {
                self.mode
            };
            (ModeController { mode: m, ..self }, spec_redraw())
        } else if key == 's' {
            (
                ModeController { mode: AppMode::Settings, settings_cursor: 0, ..self },
                spec_redraw(),
            )
        } else {
            (self, spec_quiet())
        }
    }

    /// Keys in the Pomodoro mode: enter toggles the clock, 'r' rewinds the
    /// current phase, 's' opens the settings, 'q' pauses and leaves.
    pub open spec fn spec_after_key_pomodoro(self, key: char, now_ms: u64) -> (ModeController, Effects) {
        if key == '\r' || key == '\n' {
            let (s2, cmd) = self.spec_pomodoro_toggled(now_ms);
            (s2, spec_redraw_pump(cmd))
        } else if key == 'r' {
            (
                ModeController {
                    pomodoro: PomodoroState {
                        timer: TimerCore::spec_new_countdown(self.pomodoro.spec_phase_duration()),
                        ..self.pomodoro
                    },
                    pump_running: false,
                    ..self
                },
                spec_redraw_pump(self.spec_stop_cmd()),
            )
        } else if key == 's' {
            (
                ModeController { mode: AppMode::Settings, settings_cursor: 0, ..self },
                spec_redraw(),
            )
        } else if key == 'q' {
            (
                ModeController {
                    pomodoro: PomodoroState {
                        timer: self.pomodoro.timer.spec_paused(now_ms),
                        ..self.pomodoro
                    },
                    pump_running: false,
                    mode: AppMode::ModeSelect,
                    ..self
                },
                spec_redraw_pump(self.spec_stop_cmd()),
            )
        } else {
            (self, spec_quiet())
        }
    }

    /// Keys in the running-countdown screen: enter pauses or resumes, 'r'
    /// rewinds to the full duration, 'q' stops and returns to the list.
    pub open spec fn spec_after_key_countdown_run(self, key: char, now_ms: u64) -> (ModeController, Effects) {
        if key == '\r' || key == '\n' {
            let (s2, cmd) = self.spec_countdown_toggled(now_ms);
            (s2, spec_redraw_pump(cmd))
        } else if key == 'r' {
            let c2 = if self.countdown.cursor < self.countdown.entries.len() {
                CountdownState {
                    active_timer: Some(
                        TimerCore::spec_new_countdown(
                            self.countdown.entries@[self.countdown.cursor as int].duration_ms,
                        ),
                    ),
                    active_index: Some(self.countdown.cursor),
                    ..self.countdown
                }
            } else {
                self.countdown
            };
            (
                ModeController { countdown: c2, pump_running: false, ..self },
                spec_redraw_pump(self.spec_stop_cmd()),
            )
        } else if key == 'q' {
            (
                ModeController {
                    countdown: CountdownState {
                        active_timer: None,
                        active_index: None,
                        ..self.countdown
                    },
                    pump_running: false,
                    mode: AppMode::CountdownList,
                    ..self
                },
                spec_redraw_pump(self.spec_stop_cmd()),
            )
        } else {
            (self, spec_quiet())
        }
    }

    /// Keys on the settings screen: the cursor moves over the three
    /// channels, enter toggles the selected one and persists, 'q' leaves.
    pub open spec fn spec_after_key_settings(self, key: char) -> (ModeController, Effects) {
        if key == '\u{2191}' || key == 'k' {
            if self.settings_cursor > 0 {
                (
                    ModeController { settings_cursor: (self.settings_cursor - 1) as usize, ..self },
                    spec_redraw(),
                )
            } else {
                (self, spec_quiet())
            }
        } else if key == '\u{2193}' || key == 'j' {
            if self.settings_cursor < 2 {
                (
                    ModeController { settings_cursor: (self.settings_cursor + 1) as usize, ..self },
                    spec_redraw(),
                )
            } else {
                (self, spec_quiet())
            }
        } else if key == '\r' || key == '\n' {
            let cfg = if self.settings_cursor == 0 {
                AlertConfig { vibration: !self.alert_config.vibration, ..self.alert_config }
            } else if self.settings_cursor == 1 {
                AlertConfig { notification: !self.alert_config.notification, ..self.alert_config }
            } else if self.settings_cursor == 2 {
                AlertConfig { audio: !self.alert_config.audio, ..self.alert_config }
            } else {
                self.alert_config
            };
            (
                ModeController { alert_config: cfg, ..self },
                spec_fx(true, None, false, true, false),
            )
        } else if key == 'q' {
            (ModeController { mode: AppMode::ModeSelect, ..self }, spec_redraw())
        } else {
            (self, spec_quiet())
        }
    }

    /// Keys while the exit confirmation is showing: 'y' pauses everything
    /// and returns to mode selection, 'n' dismisses, all else is swallowed.
    pub open spec fn spec_after_key_confirm(self, key: char, now_ms: u64) -> (ModeController, Effects) {
        if key == 'y' {
            let s2 = self.spec_all_paused(now_ms);
            (
                ModeController { confirm_exit: false, mode: AppMode::ModeSelect, ..s2 },
                spec_redraw_pump(self.spec_stop_cmd()),
            )
        } else if key == 'n' {
            (ModeController { confirm_exit: false, ..self }, spec_redraw())
        } else {
            (self, spec_quiet())
        }
    }

    /// Keys in the stopwatch mode: enter toggles the clock, 'l' records a
    /// lap while running, 'r' resets while stopped, 'q' pauses and leaves.
    pub open spec fn key_stopwatch_post(
        pre: Self,
        post: Self,
        fx: Effects,
        key: char,
        now_ms: u64,
    ) -> bool {
        if key == '\r' || key == '\n' {
            let (s2, cmd) = pre.spec_stopwatch_toggled(now_ms);
            post == s2 && fx == spec_redraw_pump(cmd)
        } else if key == 'l' {
            if pre.stopwatch.timer.state is Running {
                &&& post == (ModeController { stopwatch: post.stopwatch, ..pre })
                &&& StopwatchState::record_lap_post(pre.stopwatch, post.stopwatch, now_ms)
                &&& fx == spec_redraw()
            } else {
                post == pre && fx == spec_quiet()
            }
        } else if key == 'r' {
            if !(pre.stopwatch.timer.state is Running) {
                &&& post == (ModeController { stopwatch: post.stopwatch, ..pre })
                &&& StopwatchState::reset_post(pre.stopwatch, post.stopwatch)
                &&& fx == spec_redraw()
            } else {
                post == pre && fx == spec_quiet()
            }
        } else if key == 'q' {
            &&& post == (ModeController {
                stopwatch: StopwatchState {
                    timer: pre.stopwatch.timer.spec_paused(now_ms),
                    ..pre.stopwatch
                },
                pump_running: false,
                mode: AppMode::ModeSelect,
                ..pre
            })
            &&& fx == spec_redraw_pump(pre.spec_stop_cmd())
        } else {
            post == pre && fx == spec_quiet()
        }
    }

    /// Keys on the countdown list: the cursor moves over the entries,
    /// enter starts the selected countdown running, 'n' asks for a new
    /// entry, 'd' deletes and persists, 'q' and 's' leave.
    pub open spec fn key_countdown_list_post(
        pre: Self,
        post: Self,
        fx: Effects,
        key: char,
        now_ms: u64,
    ) -> bool {
        let cd = pre.countdown;
        if key == '\u{2191}' || key == 'k' {
            if cd.cursor > 0 {
                post == (ModeController {
                    countdown: CountdownState { cursor: (cd.cursor - 1) as usize, ..cd },
                    ..pre
                }) && fx == spec_redraw()
            } else {
                post == pre && fx == spec_quiet()
            }
        } else if key == '\u{2193}' || key == 'j' {
            if cd.entries.len() > 0 && cd.cursor < cd.entries.len() - 1 {
                post == (ModeController {
                    countdown: CountdownState { cursor: (cd.cursor + 1) as usize, ..cd },
                    ..pre
                }) && fx == spec_redraw()
            } else {
                post == pre && fx == spec_quiet()
            }
        } else if key == '\r' || key == '\n' {
            if cd.entries.len() > 0 && cd.cursor < cd.entries.len() {
                &&& post == (ModeController {
                    mode: AppMode::CountdownRun,
                    pump_running: true,
                    countdown: CountdownState {
                        active_timer: Some(
                            TimerCore::spec_new_countdown(
                                cd.entries@[cd.cursor as int].duration_ms,
                            ).spec_started(now_ms),
                        ),
                        active_index: Some(cd.cursor),
                        ..cd
                    },
                    ..pre
                })
                &&& fx == spec_redraw_pump(pre.spec_start_cmd(PUMP_SLOW_MS))
            } else {
                post == pre && fx == spec_quiet()
            }
        } else if key == 'n' {
            post == pre && fx == spec_fx(false, None, false, false, true)
        } else if key == 'd' {
            if cd.entries.len() > 0 {
                &&& post == (ModeController { countdown: post.countdown, ..pre })
                &&& CountdownState::delete_selected_post(cd, post.countdown)
                &&& fx == spec_fx(true, None, true, false, false)
            } else {
                post == pre && fx == spec_quiet()
            }
        } else if key == 'q' {
            post == (ModeController { mode: AppMode::ModeSelect, ..pre }) && fx == spec_redraw()
        } else if key == 's' {
            post == (ModeController { mode: AppMode::Settings, settings_cursor: 0, ..pre }) && fx
                == spec_redraw()
        } else {
            post == pre && fx == spec_quiet()
        }
    }

    /// F3: overlays first, then reset — the Pomodoro phase rewinds, a
    /// stopped stopwatch clears, a running countdown rewinds to its full
    /// duration.
    pub open spec fn f3_post(pre: Self, post: Self, fx: Effects, now_ms: u64) -> bool {
        if pre.help_visible {
            post == (ModeController { help_visible: false, ..pre }) && fx == spec_redraw()
        } else if pre.confirm_exit {
            post == pre && fx == spec_quiet()
        } else {
            let s1 = ModeController { menu_visible: false, ..pre };
            match s1.mode {
                AppMode::Pomodoro => {
                    &&& post == (ModeController {
                        pomodoro: PomodoroState {
                            timer: TimerCore::spec_new_countdown(
                                s1.pomodoro.spec_phase_duration(),
                            ),
                            ..s1.pomodoro
                        },
                        pump_running: false,
                        ..s1
                    })
                    &&& fx == spec_redraw_pump(s1.spec_stop_cmd())
                },
                AppMode::Stopwatch => {
                    if !(s1.stopwatch.timer.state is Running) {
                        &&& post == (ModeController { stopwatch: post.stopwatch, ..s1 })
                        &&& StopwatchState::reset_post(s1.stopwatch, post.stopwatch)
                        &&& fx == spec_redraw()
                    } else {
                        post == s1 && fx == spec_redraw()
                    }
                },
                AppMode::CountdownRun => {
                    &&& post == (ModeController {
                        countdown: post.countdown,
                        pump_running: false,
                        ..s1
                    })
                    &&& CountdownState::start_selected_post(s1.countdown, post.countdown)
                    &&& fx == spec_redraw_pump(s1.spec_stop_cmd())
                },
                _ => post == s1 && fx == spec_redraw(),
            }
        }
    }

    /// Selecting the highlighted menu item: the menu closes, the item
    /// acts exactly as its key shortcut would, and the screen redraws.
    pub open spec fn menu_select_post(pre: Self, post: Self, fx: Effects, now_ms: u64) -> bool {
        let s1 = ModeController { menu_visible: false, ..pre };
        let c = pre.menu_cursor;
        match pre.mode {
            AppMode::ModeSelect => {
                if c == 0 {
                    post == (ModeController { help_visible: true, ..s1 }) && fx == spec_redraw()
                } else if c == 1 {
                    post == (ModeController { mode: AppMode::Settings, settings_cursor: 0, ..s1 })
                        && fx == spec_redraw()
                } else {
                    post == s1 && fx == spec_redraw()
                }
            },
            AppMode::Pomodoro => {
                if c == 0 {
                    post == (ModeController { help_visible: true, ..s1 }) && fx == spec_redraw()
                } else if c == 1 {
                    let (s2, cmd) = s1.spec_pomodoro_toggled(now_ms);
                    post == s2 && fx == spec_redraw_pump(cmd)
                } else if c == 2 {
                    &&& post == (ModeController {
                        pomodoro: PomodoroState {
                            timer: TimerCore::spec_new_countdown(
                                s1.pomodoro.spec_phase_duration(),
                            ),
                            ..s1.pomodoro
                        },
                        pump_running: false,
                        ..s1
                    })
                    &&& fx == spec_redraw_pump(s1.spec_stop_cmd())
                } else if c == 3 {
                    post == (ModeController { mode: AppMode::Settings, settings_cursor: 0, ..s1 })
                        && fx == spec_redraw()
                } else {
                    post == s1 && fx == spec_redraw()
                }
            },
            AppMode::Stopwatch => {
                if c == 0 {
                    post == (ModeController { help_visible: true, ..s1 }) && fx == spec_redraw()
                } else if c == 1 {
                    let (s2, cmd) = s1.spec_stopwatch_toggled(now_ms);
                    post == s2 && fx == spec_redraw_pump(cmd)
                } else if c == 2 {
                    if s1.stopwatch.timer.state is Running {
                        &&& post == (ModeController { stopwatch: post.stopwatch, ..s1 })
                        &&& StopwatchState::record_lap_post(s1.stopwatch, post.stopwatch, now_ms)
                        &&& fx == spec_redraw()
                    } else {
                        post == s1 && fx == spec_redraw()
                    }
                } else if c == 3 {
                    if !(s1.stopwatch.timer.state is Running) {
                        &&& post == (ModeController { stopwatch: post.stopwatch, ..s1 })
                        &&& StopwatchState::reset_post(s1.stopwatch, post.stopwatch)
                        &&& fx == spec_redraw()
                    } else {
                        post == s1 && fx == spec_redraw()
                    }
                } else {
                    post == s1 && fx == spec_redraw()
                }
            },
            AppMode::CountdownList => {
                if c == 0 {
                    post == (ModeController { help_visible: true, ..s1 }) && fx == spec_redraw()
                } else if c == 1 {
                    post == s1 && fx == spec_fx(true, None, false, false, true)
                } else if c == 2 {
                    if s1.countdown.entries.len() > 0 {
                        &&& post == (ModeController { countdown: post.countdown, ..s1 })
                        &&& CountdownState::delete_selected_post(s1.countdown, post.countdown)
                        &&& fx == spec_fx(true, None, true, false, false)
                    } else {
                        post == s1 && fx == spec_redraw()
                    }
                } else if c == 3 {
                    post == (ModeController { mode: AppMode::Settings, settings_cursor: 0, ..s1 })
                        && fx == spec_redraw()
                } else {
                    post == s1 && fx == spec_redraw()
                }
            },
            AppMode::CountdownRun => {
                if c == 0 {
                    post == (ModeController { help_visible: true, ..s1 }) && fx == spec_redraw()
                } else if c == 1 {
                    let (s2, cmd) = s1.spec_countdown_toggled(now_ms);
                    post == s2 && fx == spec_redraw_pump(cmd)
                } else if c == 2 {
                    &&& post == (ModeController {
                        countdown: post.countdown,
                        pump_running: false,
                        ..s1
                    })
                    &&& CountdownState::start_selected_post(s1.countdown, post.countdown)
                    &&& fx == spec_redraw_pump(s1.spec_stop_cmd())
                } else if c == 3 {
                    &&& post == (ModeController {
                        countdown: CountdownState {
                            active_timer: None,
                            active_index: None,
                            ..s1.countdown
                        },
                        pump_running: false,
                        mode: AppMode::CountdownList,
                        ..s1
                    })
                    &&& fx == spec_redraw_pump(s1.spec_stop_cmd())
                } else {
                    post == s1 && fx == spec_redraw()
                }
            },
            AppMode::Settings => {
                if c == 0 {
                    post == (ModeController { help_visible: true, ..s1 }) && fx == spec_redraw()
                } else if c == 1 {
                    post == (ModeController { mode: AppMode::ModeSelect, ..s1 }) && fx
                        == spec_redraw()
                } else {
                    post == s1 && fx == spec_redraw()
                }
            },
        }
    }

    /// Keys while the menu is open: navigation stays on the items, enter
    /// selects, everything else is swallowed.
    pub open spec fn key_menu_post(pre: Self, post: Self, fx: Effects, key: char, now_ms: u64) -> bool {
        if key == '\u{2191}' || key == 'k' {
            if pre.menu_cursor > 0 {
                post == (ModeController { menu_cursor: (pre.menu_cursor - 1) as usize, ..pre })
                    && fx == spec_redraw()
            } else {
                post == pre && fx == spec_quiet()
            }
        } else if key == '\u{2193}' || key == 'j' {
            if pre.menu_cursor + 1 < spec_menu_len(pre.mode) {
                post == (ModeController { menu_cursor: (pre.menu_cursor + 1) as usize, ..pre })
                    && fx == spec_redraw()
            } else {
                post == pre && fx == spec_quiet()
            }
        } else if key == '\r' || key == '\n' {
            Self::menu_select_post(pre, post, fx, now_ms)
        } else {
            post == pre && fx == spec_quiet()
        }
    }

    /// One key, dispatched in the fixed priority: the function keys first,
    /// then a visible help page (any key closes it), then the exit
    /// confirmation, then an open menu, then the current mode.
    pub open spec fn key_post(pre: Self, post: Self, fx: Effects, key: char, now_ms: u64) -> bool {
        if key == KEY_F1 {
            (post, fx) == pre.spec_menu_toggled()
        } else if key == KEY_F4 {
            (post, fx) == pre.spec_after_f4()
        } else if key == KEY_F2 {
            (post, fx) == pre.spec_after_f2(now_ms)
        } else if key == KEY_F3 {
            Self::f3_post(pre, post, fx, now_ms)
        } else if pre.help_visible {
            post == (ModeController { help_visible: false, ..pre }) && fx == spec_redraw()
        } else if pre.confirm_exit {
            (post, fx) == pre.spec_after_key_confirm(key, now_ms)
        } else if pre.menu_visible {
            Self::key_menu_post(pre, post, fx, key, now_ms)
        } else {
            match pre.mode {
                AppMode::ModeSelect => (post, fx) == pre.spec_after_key_mode_select(key),
                AppMode::Pomodoro => (post, fx) == pre.spec_after_key_pomodoro(key, now_ms),
                AppMode::Stopwatch => Self::key_stopwatch_post(pre, post, fx, key, now_ms),
                AppMode::CountdownList => Self::key_countdown_list_post(pre, post, fx, key, now_ms),
                AppMode::CountdownRun => (post, fx) == pre.spec_after_key_countdown_run(
                    key,
                    now_ms,
                ),
                AppMode::Settings => (post, fx) == pre.spec_after_key_settings(key),
            }
        }
    }

    /// The labels of the current mode's menu.
    pub fn menu_items(&self) -> (r: Vec<&'static str>)
        ensures
            r@.len() == spec_menu_len(self.mode),
            r@[0]@ == "Help"@,
            self.mode is ModeSelect ==> r@[1]@ == "Settings"@,
            self.mode is Pomodoro ==> r@[1]@ == "Start/Pause"@ && r@[2]@ == "Reset"@ && r@[3]@
                == "Settings"@,
            self.mode is Stopwatch ==> r@[1]@ == "Start/Pause"@ && r@[2]@ == "Lap"@ && r@[3]@
                == "Reset"@,
            self.mode is CountdownList ==> r@[1]@ == "New Timer"@ && r@[2]@ == "Delete"@ && r@[3]@
                == "Settings"@,
            self.mode is CountdownRun ==> r@[1]@ == "Pause/Resume"@ && r@[2]@ == "Reset"@ && r@[3]@
                == "Back"@,
            self.mode is Settings ==> r@[1]@ == "Back"@,
    {
        match self.mode {
            AppMode::ModeSelect => vec!["Help", "Settings"],
            AppMode::Pomodoro => vec!["Help", "Start/Pause", "Reset", "Settings"],
            AppMode::Stopwatch => vec!["Help", "Start/Pause", "Lap", "Reset"],
            AppMode::CountdownList => vec!["Help", "New Timer", "Delete", "Settings"],
            AppMode::CountdownRun => vec!["Help", "Pause/Resume", "Reset", "Back"],
            AppMode::Settings => vec!["Help", "Back"],
        }
    }

    /// Start/pause the Pomodoro clock and keep the pump belief in step.
    fn toggle_pomodoro_clock(&mut self, now_ms: u64) -> (cmd: Option<PumpCommand>)
        ensures
            ({
                let (s2, c2) = old(self).spec_pomodoro_toggled(now_ms);
                *final(self) == s2 && cmd == c2
            }),
    {
        match self.pomodoro.timer.state {
            TimerState::Stopped | TimerState::Paused => {
                self.pomodoro.timer.start(now_ms);
                self.start_pump(PUMP_SLOW_MS)
            },
            TimerState::Running => {
                self.pomodoro.timer.pause(now_ms);
                self.stop_pump()
            },
            TimerState::Expired => None,
        }
    }

    /// Start/pause the stopwatch clock and keep the pump belief in step.
    fn toggle_stopwatch_clock(&mut self, now_ms: u64) -> (cmd: Option<PumpCommand>)
        ensures
            ({
                let (s2, c2) = old(self).spec_stopwatch_toggled(now_ms);
                *final(self) == s2 && cmd == c2
            }),
    {
        match self.stopwatch.timer.state {
            TimerState::Stopped | TimerState::Paused => {
                self.stopwatch.timer.start(now_ms);
                self.start_pump(PUMP_FAST_MS)
            },
            TimerState::Running => {
                self.stopwatch.timer.pause(now_ms);
                self.stop_pump()
            },
            TimerState::Expired => None,
        }
    }

    /// Pause/resume the active countdown clock and keep the pump belief in
    /// step.
    fn toggle_countdown_clock(&mut self, now_ms: u64) -> (cmd: Option<PumpCommand>)
        ensures
            ({
                let (s2, c2) = old(self).spec_countdown_toggled(now_ms);
                *final(self) == s2 && cmd == c2
            }),
    {
        let action: Option<bool> = match &mut self.countdown.active_timer {
            Some(timer) => match timer.state {
                TimerState::Running => {
                    timer.pause(now_ms);
                    Some(false)
                },
                TimerState::Paused => {
                    timer.start(now_ms);
                    Some(true)
                },
                _ => None,
            },
            None => None,
        };
        match action {
            Some(true) => self.start_pump(PUMP_SLOW_MS),
            Some(false) => self.stop_pump(),
            None => None,
        }
    }

    /// F1: close the help page, or open/close the menu.
    pub fn toggle_menu(&mut self) -> (fx: Effects)
        requires
            old(self).wf(),
        ensures
            ({
                let (s2, f2) = old(self).spec_menu_toggled();
                *final(self) == s2 && fx == f2
            }),
            final(self).wf(),
    {
        if self.help_visible {
            self.help_visible = false;
            return Effects::redraw();
        }
        if self.confirm_exit {
            return Effects::quiet();
        }
        self.menu_visible = !self.menu_visible;
        self.menu_cursor = 0;
        Effects::redraw()
    }

    /// F2: start or pause the current mode's clock.
    pub fn handle_f2(&mut self, now_ms: u64) -> (fx: Effects)
        requires
            old(self).wf(),
        ensures
            ({
                let (s2, f2) = old(self).spec_after_f2(now_ms);
                *final(self) == s2 && fx == f2
            }),
            final(self).wf(),
    {
        if self.help_visible {
            self.help_visible = false;
            return Effects::redraw();
        }
        if self.confirm_exit {
            return Effects::quiet();
        }
        if self.menu_visible {
            self.menu_visible = false;
        }
        let cmd = match self.mode {
            AppMode::Pomodoro => self.toggle_pomodoro_clock(now_ms),
            AppMode::Stopwatch => self.toggle_stopwatch_clock(now_ms),
            AppMode::CountdownRun => self.toggle_countdown_clock(now_ms),
            _ => None,
        };
        let mut fx = Effects::redraw();
        fx.pump = cmd;
        fx
    }

    /// F3: reset the current mode's clock.
    pub fn handle_f3(&mut self, now_ms: u64) -> (fx: Effects)
        requires
            old(self).wf(),
        ensures
            Self::f3_post(*old(self), *final(self), fx, now_ms),
            final(self).wf(),
    {
        if self.help_visible {
            self.help_visible = false;
            return Effects::redraw();
        }
        if self.confirm_exit {
            return Effects::quiet();
        }
        if self.menu_visible {
            self.menu_visible = false;
        }
        match self.mode {
            AppMode::Pomodoro => {
                self.pomodoro.reset();
                let cmd = self.stop_pump();
                let mut fx = Effects::redraw();
                fx.pump = cmd;
                fx
            },
            AppMode::Stopwatch => {
                if self.stopwatch.timer.state != TimerState::Running {
                    self.stopwatch.reset();
                }
                Effects::redraw()
            },
            AppMode::CountdownRun => {
                self.countdown.start_selected();
                let cmd = self.stop_pump();
                let mut fx = Effects::redraw();
                fx.pump = cmd;
                fx
            },
            _ => Effects::redraw(),
        }
    }

    /// F4: close any overlay, else leave the current mode (asking first
    /// while a clock still runs).
    pub fn handle_f4(&mut self) -> (fx: Effects)
        requires
            old(self).wf(),
        ensures
            ({
                let (s2, f2) = old(self).spec_after_f4();
                *final(self) == s2 && fx == f2
            }),
            final(self).wf(),
    {
        if self.help_visible {
            self.help_visible = false;
            return Effects::redraw();
        }
        if self.menu_visible {
            self.menu_visible = false;
            return Effects::redraw();
        }
        if self.confirm_exit {
            self.confirm_exit = false;
            return Effects::redraw();
        }
        match self.mode {
            AppMode::Pomodoro | AppMode::Stopwatch | AppMode::CountdownList => {
                if self.any_timer_running() {
                    self.confirm_exit = true;
                } else {
                    self.mode = AppMode::ModeSelect;
                }
                Effects::redraw()
            },
            AppMode::CountdownRun => {
                self.countdown.stop_active();
                let cmd = self.stop_pump();
                self.mode = AppMode::CountdownList;
                let mut fx = Effects::redraw();
                fx.pump = cmd;
                fx
            },
            AppMode::Settings => {
                self.mode = AppMode::ModeSelect;
                Effects::redraw()
            },
            AppMode::ModeSelect => Effects::quiet(),
        }
    }

    /// The menu of the mode-selection screen: help and settings.
    fn menu_act_mode_select(&mut self, now_ms: u64) -> (fx: Effects)
        requires
            old(self).wf(),
            !old(self).menu_visible,
            old(self).mode is ModeSelect,
        ensures
            Self::menu_select_post(*old(self), *final(self), fx, now_ms),
            final(self).wf(),
    {
        if self.menu_cursor == 0 {
            self.help_visible = true;
        } else if self.menu_cursor == 1 {
            self.mode = AppMode::Settings;
            self.settings_cursor = 0;
        }
        Effects::redraw()
    }

    /// The Pomodoro menu: help, start/pause, reset, settings.
    fn menu_act_pomodoro(&mut self, now_ms: u64) -> (fx: Effects)
        requires
            old(self).wf(),
            !old(self).menu_visible,
            old(self).mode is Pomodoro,
        ensures
            Self::menu_select_post(*old(self), *final(self), fx, now_ms),
            final(self).wf(),
    {
        if self.menu_cursor == 0 {
            self.help_visible = true;
            Effects::redraw()
        } else if self.menu_cursor == 1 {
            let cmd = self.toggle_pomodoro_clock(now_ms);
            let mut fx = Effects::redraw();
            fx.pump = cmd;
            fx
        } else if self.menu_cursor == 2 {
            self.pomodoro.reset();
            let cmd = self.stop_pump();
            let mut fx = Effects::redraw();
            fx.pump = cmd;
            fx
        } else if self.menu_cursor == 3 {
            self.mode = AppMode::Settings;
            self.settings_cursor = 0;
            Effects::redraw()
        } else {
            Effects::redraw()
        }
    }

    /// The stopwatch menu: help, start/pause, lap, reset.
    fn menu_act_stopwatch(&mut self, now_ms: u64) -> (fx: Effects)
        requires
            old(self).wf(),
            !old(self).menu_visible,
            old(self).mode is Stopwatch,
        ensures
            Self::menu_select_post(*old(self), *final(self), fx, now_ms),
            final(self).wf(),
    {
        if self.menu_cursor == 0 {
            self.help_visible = true;
            Effects::redraw()
        } else if self.menu_cursor == 1 {
            let cmd = self.toggle_stopwatch_clock(now_ms);
            let mut fx = Effects::redraw();
            fx.pump = cmd;
            fx
        } else if self.menu_cursor == 2 {
            if self.stopwatch.timer.state == TimerState::Running {
                self.stopwatch.record_lap(now_ms);
            }
            Effects::redraw()
        } else if self.menu_cursor == 3 {
            if self.stopwatch.timer.state != TimerState::Running {
                self.stopwatch.reset();
            }
            Effects::redraw()
        } else {
            Effects::redraw()
        }
    }

    /// The countdown-list menu: help, new entry, delete, settings.
    fn menu_act_countdown_list(&mut self, now_ms: u64) -> (fx: Effects)
        requires
            old(self).wf(),
            !old(self).menu_visible,
            old(self).mode is CountdownList,
        ensures
            Self::menu_select_post(*old(self), *final(self), fx, now_ms),
            final(self).wf(),
    {
        if self.menu_cursor == 0 {
            self.help_visible = true;
            Effects::redraw()
        } else if self.menu_cursor == 1 {
            let mut fx = Effects::redraw();
            fx.prompt_new_countdown = true;
            fx
        } else if self.menu_cursor == 2 {
            if !self.countdown.entries.is_empty() {
                self.countdown.delete_selected();
                let mut fx = Effects::redraw();
                fx.save_countdowns = true;
                fx
            } else {
                Effects::redraw()
            }
        } else if self.menu_cursor == 3 {
            self.mode = AppMode::Settings;
            self.settings_cursor = 0;
            Effects::redraw()
        } else {
            Effects::redraw()
        }
    }

    /// The running-countdown menu: help, pause/resume, reset, back.
    fn menu_act_countdown_run(&mut self, now_ms: u64) -> (fx: Effects)
        requires
            old(self).wf(),
            !old(self).menu_visible,
            old(self).mode is CountdownRun,
        ensures
            Self::menu_select_post(*old(self), *final(self), fx, now_ms),
            final(self).wf(),
    {
        if self.menu_cursor == 0 {
            self.help_visible = true;
            Effects::redraw()
        } else if self.menu_cursor == 1 {
            let cmd = self.toggle_countdown_clock(now_ms);
            let mut fx = Effects::redraw();
            fx.pump = cmd;
            fx
        } else if self.menu_cursor == 2 {
            self.countdown.start_selected();
            let cmd = self.stop_pump();
            let mut fx = Effects::redraw();
            fx.pump = cmd;
            fx
        } else if self.menu_cursor == 3 {
            self.countdown.stop_active();
            let cmd = self.stop_pump();
            self.mode = AppMode::CountdownList;
            let mut fx = Effects::redraw();
            fx.pump = cmd;
            fx
        } else {
            Effects::redraw()
        }
    }

    /// The settings menu: help and back.
    fn menu_act_settings(&mut self, now_ms: u64) -> (fx: Effects)
        requires
            old(self).wf(),
            !old(self).menu_visible,
            old(self).mode is Settings,
        ensures
            Self::menu_select_post(*old(self), *final(self), fx, now_ms),
            final(self).wf(),
    {
        if self.menu_cursor == 0 {
            self.help_visible = true;
        } else if self.menu_cursor == 1 {
            self.mode = AppMode::ModeSelect;
        }
        Effects::redraw()
    }

    /// Act on the highlighted menu item: the menu closes and the item acts
    /// as its key shortcut would.
    pub fn menu_select_item(&mut self, now_ms: u64) -> (fx: Effects)
        requires
            old(self).wf(),
        ensures
            Self::menu_select_post(*old(self), *final(self), fx, now_ms),
            final(self).wf(),
    {
        self.menu_visible = false;
        let ghost mid = *self;
        let fx = match self.mode {
            AppMode::ModeSelect => self.menu_act_mode_select(now_ms),
            AppMode::Pomodoro => self.menu_act_pomodoro(now_ms),
            AppMode::Stopwatch => self.menu_act_stopwatch(now_ms),
            AppMode::CountdownList => self.menu_act_countdown_list(now_ms),
            AppMode::CountdownRun => self.menu_act_countdown_run(now_ms),
            AppMode::Settings => self.menu_act_settings(now_ms),
        };
        proof {
            assert(mid == (ModeController { menu_visible: false, ..*old(self) }));
        }
        fx
    }

    /// Keys while the exit confirmation is showing.
    fn handle_key_confirm(&mut self, key: char, now_ms: u64) -> (fx: Effects)
        requires
            old(self).wf(),
        ensures
            ({
                let (s2, f2) = old(self).spec_after_key_confirm(key, now_ms);
                *final(self) == s2 && fx == f2
            }),
            final(self).wf(),
    {
        if key == 'y' {
            let cmd = self.stop_all_timers(now_ms);
            self.confirm_exit = false;
            self.mode = AppMode::ModeSelect;
            let mut fx = Effects::redraw();
            fx.pump = cmd;
            fx
        } else if key == 'n' {
            self.confirm_exit = false;
            Effects::redraw()
        } else {
            Effects::quiet()
        }
    }

    /// Keys while the menu is open.
    fn handle_key_menu(&mut self, key: char, now_ms: u64) -> (fx: Effects)
        requires
            old(self).wf(),
        ensures
            Self::key_menu_post(*old(self), *final(self), fx, key, now_ms),
            final(self).wf(),
    {
        if key == '\u{2191}' || key == 'k' {
            if self.menu_cursor > 0 {
                self.menu_cursor = self.menu_cursor - 1;
                Effects::redraw()
            } else {
                Effects::quiet()
            }
        } else if key == '\u{2193}' || key == 'j' {
            let items = self.menu_items();
            if self.menu_cursor < items.len() - 1 {
                self.menu_cursor = self.menu_cursor + 1;
                Effects::redraw()
            } else {
                Effects::quiet()
            }
        } else if key == '\r' || key == '\n' {
            self.menu_select_item(now_ms)
        } else {
            Effects::quiet()
        }
    }

    /// Keys on the mode-selection screen.
    pub fn handle_key_mode_select(&mut self, key: char) -> (fx: Effects)
        requires
            old(self).wf(),
        ensures
            ({
                let (s2, f2) = old(self).spec_after_key_mode_select(key);
                *final(self) == s2 && fx == f2
            }),
            final(self).wf(),
    {
        if key == '\u{2191}' || key == 'k' {
            if self.mode_cursor > 0 {
                self.mode_cursor = self.mode_cursor - 1;
                Effects::redraw()
            } else {
                Effects::quiet()
            }
        } else if key == '\u{2193}' || key == 'j' {
            if self.mode_cursor < 2 {
                self.mode_cursor = self.mode_cursor + 1;
                Effects::redraw()
            } else {
                Effects::quiet()
            }
        } else if key == '\r' || key == '\n' {
            if self.mode_cursor == 0 {
                self.mode = AppMode::Pomodoro;
            } else if self.mode_cursor == 1 {
                self.mode = AppMode::Stopwatch;
            } else if self.mode_cursor == 2 {
                self.mode = AppMode::CountdownList;
            }
            Effects::redraw()
        } else if key == 's' {
            self.mode = AppMode::Settings;
            self.settings_cursor = 0;
            Effects::redraw()
        } else {
            Effects::quiet()
        }
    }

    /// Keys in the Pomodoro mode.
    pub fn handle_key_pomodoro(&mut self, key: char, now_ms: u64) -> (fx: Effects)
        requires
            old(self).wf(),
        ensures
            ({
                let (s2, f2) = old(self).spec_after_key_pomodoro(key, now_ms);
                *final(self) == s2 && fx == f2
            }),
            final(self).wf(),
    {
        if key == '\r' || key == '\n' {
            let cmd = self.toggle_pomodoro_clock(now_ms);
            let mut fx = Effects::redraw();
            fx.pump = cmd;
            fx
        } else if key == 'r' {
            self.pomodoro.reset();
            let cmd = self.stop_pump();
            let mut fx = Effects::redraw();
            fx.pump = cmd;
            fx
        } else if key == 's' {
            self.mode = AppMode::Settings;
            self.settings_cursor = 0;
            Effects::redraw()
        } else if key == 'q' {
            if self.pomodoro.timer.state == TimerState::Running {
                self.pomodoro.timer.pause(now_ms);
            }
            let cmd = self.stop_pump();
            self.mode = AppMode::ModeSelect;
            let mut fx = Effects::redraw();
            fx.pump = cmd;
            fx
        } else {
            Effects::quiet()
        }
    }

    /// Keys in the stopwatch mode.
    pub fn handle_key_stopwatch(&mut self, key: char, now_ms: u64) -> (fx: Effects)
        requires
            old(self).wf(),
        ensures
            Self::key_stopwatch_post(*old(self), *final(self), fx, key, now_ms),
            final(self).wf(),
    {
        if key == '\r' || key == '\n' {
            let cmd = self.toggle_stopwatch_clock(now_ms);
            let mut fx = Effects::redraw();
            fx.pump = cmd;
            fx
        } else if key == 'l' {
            if self.stopwatch.timer.state == TimerState::Running {
                self.stopwatch.record_lap(now_ms);
                Effects::redraw()
            } else {
                Effects::quiet()
            }
        } else if key == 'r' {
            if self.stopwatch.timer.state != TimerState::Running {
                self.stopwatch.reset();
                Effects::redraw()
            } else {
                Effects::quiet()
            }
        } else if key == 'q' {
            if self.stopwatch.timer.state == TimerState::Running {
                self.stopwatch.timer.pause(now_ms);
            }
            let cmd = self.stop_pump();
            self.mode = AppMode::ModeSelect;
            let mut fx = Effects::redraw();
            fx.pump = cmd;
            fx
        } else {
            Effects::quiet()
        }
    }

    /// Keys on the countdown list.
    pub fn handle_key_countdown_list(&mut self, key: char, now_ms: u64) -> (fx: Effects)
        requires
            old(self).wf(),
        ensures
            Self::key_countdown_list_post(*old(self), *final(self), fx, key, now_ms),
            final(self).wf(),
    {
        if key == '\u{2191}' || key == 'k' {
            if self.countdown.cursor > 0 {
                self.countdown.cursor = self.countdown.cursor - 1;
                Effects::redraw()
            } else {
                Effects::quiet()
            }
        } else if key == '\u{2193}' || key == 'j' {
            if !self.countdown.entries.is_empty() && self.countdown.cursor
                < self.countdown.entries.len() - 1 {
                self.countdown.cursor = self.countdown.cursor + 1;
                Effects::redraw()
            } else {
                Effects::quiet()
            }
        } else if key == '\r' || key == '\n' {
            if !self.countdown.entries.is_empty() {
                self.countdown.start_selected();
                if let Some(timer) = &mut self.countdown.active_timer {
                    timer.start(now_ms);
                }
                self.mode = AppMode::CountdownRun;
                let cmd = self.start_pump(PUMP_SLOW_MS);
                let mut fx = Effects::redraw();
                fx.pump = cmd;
                fx
            } else {
                Effects::quiet()
            }
        } else if key == 'n' {
            let mut fx = Effects::quiet();
            fx.prompt_new_countdown = true;
            fx
        } else if key == 'd' {
            if !self.countdown.entries.is_empty() {
                self.countdown.delete_selected();
                let mut fx = Effects::redraw();
                fx.save_countdowns = true;
                fx
            } else {
                Effects::quiet()
            }
        } else if key == 'q' {
            self.mode = AppMode::ModeSelect;
            Effects::redraw()
        } else if key == 's' {
            self.mode = AppMode::Settings;
            self.settings_cursor = 0;
            Effects::redraw()
        } else {
            Effects::quiet()
        }
    }

    /// Keys in the running-countdown screen.
    pub fn handle_key_countdown_run(&mut self, key: char, now_ms: u64) -> (fx: Effects)
        requires
            old(self).wf(),
        ensures
            ({
                let (s2, f2) = old(self).spec_after_key_countdown_run(key, now_ms);
                *final(self) == s2 && fx == f2
            }),
            final(self).wf(),
    {
        if key == '\r' || key == '\n' {
            let cmd = self.toggle_countdown_clock(now_ms);
            let mut fx = Effects::redraw();
            fx.pump = cmd;
            fx
        } else if key == 'r' {
            self.countdown.start_selected();
            let cmd = self.stop_pump();
            let mut fx = Effects::redraw();
            fx.pump = cmd;
            fx
        } else if key == 'q' {
            self.countdown.stop_active();
            let cmd = self.stop_pump();
            self.mode = AppMode::CountdownList;
            let mut fx = Effects::redraw();
            fx.pump = cmd;
            fx
        } else {
            Effects::quiet()
        }
    }

    /// Keys on the settings screen.
    pub fn handle_key_settings(&mut self, key: char) -> (fx: Effects)
        requires
            old(self).wf(),
        ensures
            ({
                let (s2, f2) = old(self).spec_after_key_settings(key);
                *final(self) == s2 && fx == f2
            }),
            final(self).wf(),
    {
        if key == '\u{2191}' || key == 'k' {
            if self.settings_cursor > 0 {
                self.settings_cursor = self.settings_cursor - 1;
                Effects::redraw()
            } else {
                Effects::quiet()
            }
        } else if key == '\u{2193}' || key == 'j' {
            if self.settings_cursor < 2 {
                self.settings_cursor = self.settings_cursor + 1;
                Effects::redraw()
            } else {
                Effects::quiet()
            }
        } else if key == '\r' || key == '\n' {
            if self.settings_cursor == 0 {
                self.alert_config.vibration = !self.alert_config.vibration;
            } else if self.settings_cursor == 1 {
                self.alert_config.notification = !self.alert_config.notification;
            } else if self.settings_cursor == 2 {
                self.alert_config.audio = !self.alert_config.audio;
            }
            let mut fx = Effects::redraw();
            fx.save_alert_config = true;
            fx
        } else if key == 'q' {
            self.mode = AppMode::ModeSelect;
            Effects::redraw()
        } else {
            Effects::quiet()
        }
    }

    /// The name in a countdown-expiry alert: the active entry's name, or a
    /// generic fallback when no entry is bound.
    pub open spec fn spec_expired_name(self) -> Seq<char> {
        match self.countdown.active_index {
            Some(i) => if i < self.countdown.entries.len() {
                self.countdown.entries@[i as int].name@
            } else {
                "Timer"@
            },
            None => "Timer"@,
        }
    }

    /// The state after one scheduler tick at `now_ms`.
    ///
    /// In Pomodoro mode an expired clock is paused, the phase advances, and
    /// the new phase's clock starts immediately at the same `now_ms`. In a
    /// running countdown an expired clock is dropped and the controller
    /// returns to the list. In a mode without a pollable clock a stray tick
    /// only stops the scheduler. A duplicate or late tick is harmless:
    /// elapsed time is a function of timestamps, never of tick count.
    pub open spec fn spec_after_tick(self, now_ms: u64) -> ModeController {
        match self.mode {
            AppMode::Pomodoro => if self.pomodoro.timer.spec_is_expired(now_ms) {
                let p1 = PomodoroState {
                    timer: self.pomodoro.timer.spec_paused(now_ms),
                    ..self.pomodoro
                };
                let p2 = p1.spec_advanced();
                let p3 = PomodoroState { timer: p2.timer.spec_started(now_ms), ..p2 };
                ModeController { pomodoro: p3, ..self }
            } else {
                self
            },
            AppMode::Stopwatch => self,
            AppMode::CountdownRun => {
                let expired = match self.countdown.active_timer {
                    Some(t) => t.spec_is_expired(now_ms),
                    None => false,
                };
                if expired {
                    ModeController {
                        mode: AppMode::CountdownList,
                        pump_running: false,
                        countdown: CountdownState {
                            active_timer: None,
                            active_index: None,
                            ..self.countdown
                        },
                        ..self
                    }
                } else {
                    self
                }
            },
            _ => ModeController { pump_running: false, ..self },
        }
    }

    /// Everything one scheduler tick does, state and effects together.
    pub open spec fn tick_post(pre: Self, post: Self, fx: Effects, now_ms: u64) -> bool {
        &&& post == pre.spec_after_tick(now_ms)
        &&& !fx.save_countdowns && !fx.save_alert_config && !fx.prompt_new_countdown
        &&& match pre.mode {
            AppMode::Pomodoro => {
                &&& fx.redraw
                &&& fx.pump is None
                &&& if pre.pomodoro.timer.spec_is_expired(now_ms) {
                    let p2 = pre.pomodoro.spec_advanced();
                    &&& fx.alert matches Some(m)
                    &&& m@ == (if pre.pomodoro.phase is Work {
                        if p2.phase is LongBreak {
                            "Work done! Long break."@
                        } else {
                            "Work done! Short break."@
                        }
                    } else {
                        "Break over! Time to work."@
                    })
                } else {
                    fx.alert is None
                }
            },
            AppMode::Stopwatch => fx == spec_redraw(),
            AppMode::CountdownRun => {
                let expired = match pre.countdown.active_timer {
                    Some(t) => t.spec_is_expired(now_ms),
                    None => false,
                };
                if expired {
                    &&& fx.redraw
                    &&& fx.pump == pre.spec_stop_cmd()
                    &&& (fx.alert matches Some(m) && m@ == pre.spec_expired_name() + " expired!"@)
                } else {
                    fx == spec_redraw()
                }
            },
            _ => fx == spec_fx(false, pre.spec_stop_cmd(), false, false, false),
        }
    }

    /// Handle one scheduler tick at `now_ms`: poll the active clock for
    /// expiry and perform the mode's transition.
    pub fn handle_tick(&mut self, now_ms: u64) -> (fx: Effects)
        requires
            old(self).wf(),
        ensures
            Self::tick_post(*old(self), *final(self), fx, now_ms),
            final(self).wf(),
    {
        match self.mode {
            AppMode::Pomodoro => {
                let mut fx = Effects::redraw();
                if self.pomodoro.timer.is_expired(now_ms) {
                    self.pomodoro.timer.pause(now_ms);
                    let msg = self.pomodoro.advance_phase();
                    fx.alert = Some(String::from_str(msg));
                    self.pomodoro.timer.start(now_ms);
                }
                fx
            },
            AppMode::Stopwatch => Effects::redraw(),
            AppMode::CountdownRun => {
                let expired = match &self.countdown.active_timer {
                    Some(t) => t.is_expired(now_ms),
                    None => false,
                };
                let mut fx = Effects::redraw();
                if expired {
                    let name = match self.countdown.active_name() {
                        Some(s) => String::from_str(s),
                        None => String::from_str("Timer"),
                    };
                    let msg = name.concat(" expired!");
                    self.countdown.stop_active();
                    let cmd = self.stop_pump();
                    self.mode = AppMode::CountdownList;
                    fx.alert = Some(msg);
                    fx.pump = cmd;
                }
                fx
            },
            _ => {
                let cmd = self.stop_pump();
                let mut fx = Effects::quiet();
                fx.pump = cmd;
                fx
            },
        }
    }

    /// Everything accepting the new-countdown dialog does: a positive
    /// duration is appended (silently dropped at capacity, as the bounded
    /// registry dictates) and the list is persisted; a zero duration —
    /// unreadable input — adds nothing.
    pub open spec fn submit_post(
        pre: Self,
        post: Self,
        fx: Effects,
        name: String,
        duration_ms: u64,
    ) -> bool {
        if duration_ms > 0 {
            &&& post == (ModeController { countdown: post.countdown, ..pre })
            &&& CountdownState::add_entry_post(
                pre.countdown,
                post.countdown,
                name,
                duration_ms,
                pre.countdown.entries.len() < crate::countdown::MAX_COUNTDOWNS,
            )
            &&& fx == spec_fx(true, None, true, false, false)
        } else {
            post == pre && fx == spec_redraw()
        }
    }

    /// Accept the new-countdown dialog's result.
    pub fn submit_new_countdown(&mut self, name: String, duration_ms: u64) -> (fx: Effects)
        requires
            old(self).wf(),
        ensures
            Self::submit_post(*old(self), *final(self), fx, name, duration_ms),
            final(self).wf(),
    {
        if duration_ms > 0 {
            self.countdown.add_entry(name, duration_ms);
            let mut fx = Effects::redraw();
            fx.save_countdowns = true;
            fx
        } else {
            Effects::redraw()
        }
    }

    /// The state and effects of a focus change. Losing the foreground
    /// freezes redraws and stops the scheduler without pausing any clock —
    /// elapsed time never depends on the scheduler. Regaining it allows
    /// redraws again and restarts the scheduler exactly when the current
    /// mode's clock is still running.
    pub open spec fn spec_after_focus(self, foreground: bool) -> (ModeController, Effects) {
        if !foreground {
            (
                ModeController { allow_redraw: false, pump_running: false, ..self },
                spec_fx(false, self.spec_stop_cmd(), false, false, false),
            )
        } else {
            let s1 = ModeController { allow_redraw: true, ..self };
            match self.mode {
                AppMode::Stopwatch => if self.stopwatch.timer.state is Running {
                    (
                        ModeController { pump_running: true, ..s1 },
                        spec_redraw_pump(s1.spec_start_cmd(PUMP_FAST_MS)),
                    )
                } else {
                    (s1, spec_redraw())
                },
                AppMode::Pomodoro => if self.pomodoro.timer.state is Running {
                    (
                        ModeController { pump_running: true, ..s1 },
                        spec_redraw_pump(s1.spec_start_cmd(PUMP_SLOW_MS)),
                    )
                } else {
                    (s1, spec_redraw())
                },
                AppMode::CountdownRun => {
                    let active = match self.countdown.active_timer {
                        Some(t) => t.state is Running,
                        None => false,
                    };
                    if active {
                        (
                            ModeController { pump_running: true, ..s1 },
                            spec_redraw_pump(s1.spec_start_cmd(PUMP_SLOW_MS)),
                        )
                    } else {
                        (s1, spec_redraw())
                    }
                },
                _ => (s1, spec_redraw()),
            }
        }
    }

    /// React to the application gaining or losing the foreground.
    pub fn focus_changed(&mut self, foreground: bool) -> (fx: Effects)
        requires
            old(self).wf(),
        ensures
            ({
                let (s2, f2) = old(self).spec_after_focus(foreground);
                *final(self) == s2 && fx == f2
            }),
            final(self).wf(),
    {
        if !foreground {
            self.allow_redraw = false;
            let cmd = self.stop_pump();
            let mut fx = Effects::quiet();
            fx.pump = cmd;
            fx
        } else {
            self.allow_redraw = true;
            let cmd = match self.mode {
                AppMode::Stopwatch => {
                    if self.stopwatch.timer.state == TimerState::Running {
                        self.start_pump(PUMP_FAST_MS)
                    } else {
                        None
                    }
                },
                AppMode::Pomodoro => {
                    if self.pomodoro.timer.state == TimerState::Running {
                        self.start_pump(PUMP_SLOW_MS)
                    } else {
                        None
                    }
                },
                AppMode::CountdownRun => {
                    let active = match &self.countdown.active_timer {
                        Some(t) => t.state == TimerState::Running,
                        None => false,
                    };
                    if active {
                        self.start_pump(PUMP_SLOW_MS)
                    } else {
                        None
                    }
                },
                _ => None,
            };
            let mut fx = Effects::redraw();
            fx.pump = cmd;
            fx
        }
    }

    /// The help page for the current mode.
    pub fn help_text(&self) -> (r: &'static str)
        ensures
            self.mode is ModeSelect ==> r@
                == "TIMERS HELP\n\nF1     Menu\nF4     Quit\n\nUp/Dn  Move cursor\nEnter  Open mode\ns      Settings\nq      Quit"@,
            self.mode is Pomodoro ==> r@
                == "POMODORO HELP\n\nF1     Menu\nF2     Start/Pause\nF3     Reset\nF4     Back\n\nEnter  Start/Pause\nr      Reset\ns      Settings\nq      Back"@,
            self.mode is Stopwatch ==> r@
                == "STOPWATCH HELP\n\nF1     Menu\nF2     Start/Pause\nF3     Reset\nF4     Back\n\nEnter  Start/Pause\nl      Record lap\nr      Reset (stopped)\nq      Back"@,
            self.mode is CountdownList ==> r@
                == "COUNTDOWN HELP\n\nF1     Menu\nF2     Start/Pause\nF3     Reset\nF4     Back\n\nEnter  Start timer\nn      New timer\nd      Delete timer\nq      Back"@,
            self.mode is CountdownRun ==> r@
                == "COUNTDOWN HELP\n\nF1     Menu\nF2     Pause/Resume\nF3     Reset\nF4     Back to list\n\nEnter  Pause/Resume\nr      Reset\nq      Back to list"@,
            self.mode is Settings ==> r@
                == "SETTINGS HELP\n\nF1     Menu\nF4     Back\n\nUp/Dn  Move cursor\nEnter  Toggle setting\nq      Back"@,
    {
        match self.mode {
            AppMode::ModeSelect => "TIMERS HELP\n\nF1     Menu\nF4     Quit\n\nUp/Dn  Move cursor\nEnter  Open mode\ns      Settings\nq      Quit",
            AppMode::Pomodoro => "POMODORO HELP\n\nF1     Menu\nF2     Start/Pause\nF3     Reset\nF4     Back\n\nEnter  Start/Pause\nr      Reset\ns      Settings\nq      Back",
            AppMode::Stopwatch => "STOPWATCH HELP\n\nF1     Menu\nF2     Start/Pause\nF3     Reset\nF4     Back\n\nEnter  Start/Pause\nl      Record lap\nr      Reset (stopped)\nq      Back",
            AppMode::CountdownList => "COUNTDOWN HELP\n\nF1     Menu\nF2     Start/Pause\nF3     Reset\nF4     Back\n\nEnter  Start timer\nn      New timer\nd      Delete timer\nq      Back",
            AppMode::CountdownRun => "COUNTDOWN HELP\n\nF1     Menu\nF2     Pause/Resume\nF3     Reset\nF4     Back to list\n\nEnter  Pause/Resume\nr      Reset\nq      Back to list",
            AppMode::Settings => "SETTINGS HELP\n\nF1     Menu\nF4     Back\n\nUp/Dn  Move cursor\nEnter  Toggle setting\nq      Back",
        }
    }

    /// Handle one key press at `now_ms`, in the fixed overlay priority.
    pub fn handle_key(&mut self, key: char, now_ms: u64) -> (fx: Effects)
        requires
            old(self).wf(),
        ensures
            Self::key_post(*old(self), *final(self), fx, key, now_ms),
            final(self).wf(),
    {
        if key == KEY_F1 {
            return self.toggle_menu();
        }
        if key == KEY_F4 {
            return self.handle_f4();
        }
        if key == KEY_F2 {
            return self.handle_f2(now_ms);
        }
        if key == KEY_F3 {
            return self.handle_f3(now_ms);
        }
        if self.help_visible {
            self.help_visible = false;
            return Effects::redraw();
        }
        if self.confirm_exit {
            return self.handle_key_confirm(key, now_ms);
        }
        if self.menu_visible {
            return self.handle_key_menu(key, now_ms);
        }
        match self.mode {
            AppMode::ModeSelect => self.handle_key_mode_select(key),
            AppMode::Pomodoro => self.handle_key_pomodoro(key, now_ms),
            AppMode::Stopwatch => self.handle_key_stopwatch(key, now_ms),
            AppMode::CountdownList => self.handle_key_countdown_list(key, now_ms),
            AppMode::CountdownRun => self.handle_key_countdown_run(key, now_ms),
            AppMode::Settings => self.handle_key_settings(key),
        }
    }
}

} // verus!
