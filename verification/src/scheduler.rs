//! The cooperative tick scheduler, modeled as the state machine that the
//! host's pump task runs: commands in, periodic wake ticks out. The
//! scheduler never inspects any clock; it only decides whether to wait one
//! interval and emit a tick, or to block for the next command.

use vstd::prelude::*;

verus! {

/// A command sent to the scheduler.
#[derive(Clone, Copy, PartialEq, Eq, Structural, Debug)]
pub enum PumpCommand {
    /// Begin (or continue) emitting ticks at the given interval in
    /// milliseconds; zero is lifted to the minimum interval. A new interval
    /// takes effect from the next cycle.
    Start(u64),
    /// Suspend tick emission; any in-flight wait is abandoned.
    Stop,
    /// Terminate the scheduler permanently.
    Quit,
}

/// The floor applied to a zero `Start` interval.
pub const MIN_PUMP_INTERVAL_MS: u64 = 100;

/// The interval before any `Start` command arrives.
pub const DEFAULT_PUMP_INTERVAL_MS: u64 = 1000;

/// The scheduler's whole state. While `running`, the host waits
/// `interval_ms` and emits one tick before polling for the next command;
/// while idle it blocks until a command arrives.
pub struct TickScheduler {
    pub running: bool,
    pub interval_ms: u64,
}

impl TickScheduler {
    /// An idle scheduler at the default interval.
    pub fn new() -> (r: Self)
        ensures
            r == (TickScheduler { running: false, interval_ms: DEFAULT_PUMP_INTERVAL_MS }),
    {
        TickScheduler { running: false, interval_ms: DEFAULT_PUMP_INTERVAL_MS }
    }

    /// Apply one command. Returns whether the scheduler must terminate its
    /// loop; no further commands are to be applied after that.
    pub fn apply(&mut self, cmd: PumpCommand) -> (quit: bool)
        ensures
            quit == (cmd is Quit),
            *final(self) == (match cmd {
                PumpCommand::Start(interval_ms) => TickScheduler {
                    running: true,
                    interval_ms: if interval_ms == 0 {
                        MIN_PUMP_INTERVAL_MS
                    } else {
                        interval_ms
                    },
                },
                PumpCommand::Stop => TickScheduler { running: false, ..*old(self) },
                PumpCommand::Quit => *old(self),
            }),
    {
        match cmd {
            PumpCommand::Start(interval_ms) => {
                self.interval_ms = if interval_ms == 0 {
                    MIN_PUMP_INTERVAL_MS
                } else {
                    interval_ms
                };
                self.running = true;
                false
            },
            PumpCommand::Stop => {
                self.running = false;
                false
            },
            PumpCommand::Quit => true,
        }
    }

    /// Whether the host should wait one interval and emit a tick before
    /// looking for the next command.
    pub fn emit_due(&self) -> (r: bool)
        ensures
            r == self.running,
    {
        self.running
    }
}

} // verus!
