//! The Pomodoro phase cycle: a finite-state machine over work, short-break
//! and long-break phases that owns one countdown clock and swaps it for a
//! fresh one on every transition.

use vstd::prelude::*;

use crate::clock::TimerCore;

verus! {

/// The three Pomodoro phases.
#[derive(Clone, Copy, PartialEq, Eq, Structural, Debug)]
pub enum PomPhase {
    Work,
    ShortBreak,
    LongBreak,
}

pub const DEFAULT_WORK_MS: u64 = 25 * 60 * 1000;

pub const DEFAULT_SHORT_BREAK_MS: u64 = 5 * 60 * 1000;

pub const DEFAULT_LONG_BREAK_MS: u64 = 15 * 60 * 1000;

pub const DEFAULT_CYCLES_BEFORE_LONG: u8 = 4;

/// The Pomodoro state machine. `current_cycle` counts the work phases
/// completed since the last long break; a long break begins once it reaches
/// `cycles_before_long` and it is reset to zero when that break ends.
pub struct PomodoroState {
    pub timer: TimerCore,
    pub phase: PomPhase,
    pub work_duration_ms: u64,
    pub short_break_ms: u64,
    pub long_break_ms: u64,
    pub cycles_before_long: u8,
    pub current_cycle: u8,
    pub total_completed: u32,
}

impl PomodoroState {
    /// The cycle counter stays below its bound whenever a phase could still
    /// increment it: during work it is below the bound (or zero, for a bound
    /// of zero), and during a short break it is strictly below the bound.
    /// Only at a long break may it transiently sit at the bound.
    pub open spec fn wf(self) -> bool {
        &&& self.phase is Work ==> (self.current_cycle == 0 || self.current_cycle
            < self.cycles_before_long)
        &&& self.phase is ShortBreak ==> self.current_cycle < self.cycles_before_long
    }

    /// The configured duration of the current phase.
    pub open spec fn spec_phase_duration(self) -> u64 {
        match self.phase {
            PomPhase::Work => self.work_duration_ms,
            PomPhase::ShortBreak => self.short_break_ms,
            PomPhase::LongBreak => self.long_break_ms,
        }
    }

    /// The deterministic transition table of [`PomodoroState::advance_phase`].
    ///
    /// Leaving `Work` increments the cycle and completion counters and enters
    /// a long break once the cycle counter reaches its bound, otherwise a
    /// short break. Leaving either break returns to `Work`; leaving the long
    /// break also resets the cycle counter to zero. Each transition installs
    /// a fresh countdown for the new phase's duration.
    pub open spec fn spec_advanced(self) -> Self {
        match self.phase {
            PomPhase::Work => {
                let cyc = (self.current_cycle + 1) as u8;
                let total = self.total_completed.saturating_add(1);
                if cyc >= self.cycles_before_long {
                    PomodoroState {
                        phase: PomPhase::LongBreak,
                        timer: TimerCore::spec_new_countdown(self.long_break_ms),
                        current_cycle: cyc,
                        total_completed: total,
                        ..self
                    }
                } else {
                    PomodoroState {
                        phase: PomPhase::ShortBreak,
                        timer: TimerCore::spec_new_countdown(self.short_break_ms),
                        current_cycle: cyc,
                        total_completed: total,
                        ..self
                    }
                }
            },
            PomPhase::ShortBreak => PomodoroState {
                phase: PomPhase::Work,
                timer: TimerCore::spec_new_countdown(self.work_duration_ms),
                ..self
            },
            PomPhase::LongBreak => PomodoroState {
                phase: PomPhase::Work,
                timer: TimerCore::spec_new_countdown(self.work_duration_ms),
                current_cycle: 0,
                ..self
            },
        }
    }

    /// The default cycle: 25 minutes of work, 5-minute short breaks,
    /// a 15-minute long break every 4 cycles.
    pub fn new() -> (r: Self)
        ensures
            r == (PomodoroState {
                timer: TimerCore::spec_new_countdown(DEFAULT_WORK_MS),
                phase: PomPhase::Work,
                work_duration_ms: DEFAULT_WORK_MS,
                short_break_ms: DEFAULT_SHORT_BREAK_MS,
                long_break_ms: DEFAULT_LONG_BREAK_MS,
                cycles_before_long: DEFAULT_CYCLES_BEFORE_LONG,
                current_cycle: 0,
                total_completed: 0,
            }),
            r.wf(),
    {
        PomodoroState {
            timer: TimerCore::new_countdown(DEFAULT_WORK_MS),
            phase: PomPhase::Work,
            work_duration_ms: DEFAULT_WORK_MS,
            short_break_ms: DEFAULT_SHORT_BREAK_MS,
            long_break_ms: DEFAULT_LONG_BREAK_MS,
            cycles_before_long: DEFAULT_CYCLES_BEFORE_LONG,
            current_cycle: 0,
            total_completed: 0,
        }
    }

    /// A cycle built from persisted settings, beginning at the work phase.
    pub fn from_settings(work_ms: u64, short_ms: u64, long_ms: u64, cycles: u8) -> (r: Self)
        ensures
            r == (PomodoroState {
                timer: TimerCore::spec_new_countdown(work_ms),
                phase: PomPhase::Work,
                work_duration_ms: work_ms,
                short_break_ms: short_ms,
                long_break_ms: long_ms,
                cycles_before_long: cycles,
                current_cycle: 0,
                total_completed: 0,
            }),
            r.wf(),
    {
        PomodoroState {
            timer: TimerCore::new_countdown(work_ms),
            phase: PomPhase::Work,
            work_duration_ms: work_ms,
            short_break_ms: short_ms,
            long_break_ms: long_ms,
            cycles_before_long: cycles,
            current_cycle: 0,
            total_completed: 0,
        }
    }

    /// Perform the transition of [`PomodoroState::spec_advanced`] and return
    /// the alert message describing it. The new clock starts stopped: whether
    /// the next phase begins immediately is the caller's policy.
    pub fn advance_phase(&mut self) -> (msg: &'static str)
        requires
            old(self).wf(),
        ensures
            *final(self) == old(self).spec_advanced(),
            final(self).wf(),
            old(self).phase is Work && final(self).phase is LongBreak ==> msg@
                == "Work done! Long break."@,
            old(self).phase is Work && final(self).phase is ShortBreak ==> msg@
                == "Work done! Short break."@,
            !(old(self).phase is Work) ==> msg@ == "Break over! Time to work."@,
    {
        match self.phase {
            PomPhase::Work => {
                self.current_cycle = self.current_cycle + 1;
                self.total_completed = self.total_completed.saturating_add(1);
                if self.current_cycle >= self.cycles_before_long {
                    self.phase = PomPhase::LongBreak;
                    self.timer = TimerCore::new_countdown(self.long_break_ms);
                    "Work done! Long break."
                } else {
                    self.phase = PomPhase::ShortBreak;
                    self.timer = TimerCore::new_countdown(self.short_break_ms);
                    "Work done! Short break."
                }
            },
            PomPhase::ShortBreak | PomPhase::LongBreak => {
                if self.phase == PomPhase::LongBreak {
                    self.current_cycle = 0;
                }
                self.phase = PomPhase::Work;
                self.timer = TimerCore::new_countdown(self.work_duration_ms);
                "Break over! Time to work."
            },
        }
    }

    /// Replace the owned clock with a fresh countdown for the current
    /// phase's configured duration; phase and counters are untouched.
    pub fn reset(&mut self)
        ensures
            *final(self) == (PomodoroState {
                timer: TimerCore::spec_new_countdown(old(self).spec_phase_duration()),
                ..*old(self)
            }),
    {
        let duration = match self.phase {
            PomPhase::Work => self.work_duration_ms,
            PomPhase::ShortBreak => self.short_break_ms,
            PomPhase::LongBreak => self.long_break_ms,
        };
        self.timer = TimerCore::new_countdown(duration);
    }

    /// A human-readable name for the current phase.
    pub fn phase_label(&self) -> (label: &'static str)
        ensures
            self.phase is Work ==> label@ == "Work"@,
            self.phase is ShortBreak ==> label@ == "Short Break"@,
            self.phase is LongBreak ==> label@ == "Long Break"@,
    {
        match self.phase {
            PomPhase::Work => "Work",
            PomPhase::ShortBreak => "Short Break",
            PomPhase::LongBreak => "Long Break",
        }
    }

    /// From the last work cycle before a long break: one transition enters
    /// the long break with the cycle counter at its configured bound, and
    /// the next returns to work with the counter reset to zero.
    pub proof fn lemma_long_break_cycle(p: PomodoroState)
        requires
            p.wf(),
            p.phase is Work,
            p.cycles_before_long >= 1,
            p.current_cycle == p.cycles_before_long - 1,
        ensures
            p.spec_advanced().phase is LongBreak,
            p.spec_advanced().current_cycle == p.cycles_before_long,
            p.spec_advanced().spec_advanced().phase is Work,
            p.spec_advanced().spec_advanced().current_cycle == 0,
    {
    }
}

} // verus!
