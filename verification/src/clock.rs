//! The elapsed/remaining-time primitive: a clock that is a pure function of
//! the monotonic timestamps handed to it, with no dependency on wall-clock
//! time and no need for a background thread to tick it.

use vstd::prelude::*;

verus! {

/// Lifecycle state of a [`TimerCore`].
#[derive(Clone, Copy, PartialEq, Eq, Structural, Debug)]
pub enum TimerState {
    Stopped,
    Running,
    Paused,
    Expired,
}

/// A stopwatch or countdown clock.
///
/// While `Running`, the true elapsed time is `accumulated_ms` plus the length
/// of the open segment that began at `segment_start_ms`; while not running it
/// is `accumulated_ms` alone. A clock with `target == None` is an unbounded
/// stopwatch; with `target == Some(d)` it is a countdown that expires once
/// the elapsed time reaches `d`.
///
/// All arithmetic saturates, so every operation is total: a timestamp that
/// runs backwards contributes zero, never a panic.
pub struct TimerCore {
    pub state: TimerState,
    pub accumulated_ms: u64,
    pub segment_start_ms: u64,
    pub target: Option<u64>,
}

impl TimerCore {
    /// The value built by [`TimerCore::new_stopwatch`].
    pub open spec fn spec_new_stopwatch() -> Self {
        TimerCore { state: TimerState::Stopped, accumulated_ms: 0, segment_start_ms: 0, target: None }
    }

    /// The value built by [`TimerCore::new_countdown`].
    pub open spec fn spec_new_countdown(duration_ms: u64) -> Self {
        TimerCore {
            state: TimerState::Stopped,
            accumulated_ms: 0,
            segment_start_ms: 0,
            target: Some(duration_ms),
        }
    }

    /// Elapsed milliseconds at `now_ms`: accumulated time of the completed
    /// segments, plus the open segment when running.
    pub open spec fn spec_elapsed(self, now_ms: u64) -> u64 {
        if self.state is Running {
            self.accumulated_ms.saturating_add(now_ms.saturating_sub(self.segment_start_ms))
        } else {
            self.accumulated_ms
        }
    }

    /// Remaining milliseconds until the target, saturating at zero;
    /// `None` in stopwatch mode.
    pub open spec fn spec_remaining(self, now_ms: u64) -> Option<u64> {
        match self.target {
            Some(t) => Some(t.saturating_sub(self.spec_elapsed(now_ms))),
            None => None,
        }
    }

    /// A countdown has expired once its elapsed time reaches the target;
    /// a stopwatch never expires.
    pub open spec fn spec_is_expired(self, now_ms: u64) -> bool {
        match self.target {
            Some(t) => self.spec_elapsed(now_ms) >= t,
            None => false,
        }
    }

    /// The clock after `start(now_ms)`: a no-op when already running,
    /// otherwise a new open segment begins at `now_ms`.
    pub open spec fn spec_started(self, now_ms: u64) -> Self {
        if self.state is Running {
            self
        } else {
            TimerCore { state: TimerState::Running, segment_start_ms: now_ms, ..self }
        }
    }

    /// The clock after `pause(now_ms)`: a no-op unless running, otherwise the
    /// open segment is closed and folded into the accumulator.
    pub open spec fn spec_paused(self, now_ms: u64) -> Self {
        if self.state is Running {
            TimerCore {
                state: TimerState::Paused,
                accumulated_ms: self.accumulated_ms.saturating_add(
                    now_ms.saturating_sub(self.segment_start_ms),
                ),
                ..self
            }
        } else {
            self
        }
    }

    /// The clock after `reset()`: stopped with nothing accumulated;
    /// the target is kept.
    pub open spec fn spec_reset(self) -> Self {
        TimerCore { state: TimerState::Stopped, accumulated_ms: 0, segment_start_ms: 0, ..self }
    }

    /// The clock after `lap(now_ms)`: still running, with the accumulator
    /// cleared and a fresh segment open at `now_ms`; a no-op unless running.
    pub open spec fn spec_lapped(self, now_ms: u64) -> Self {
        if self.state is Running {
            TimerCore { accumulated_ms: 0, segment_start_ms: now_ms, ..self }
        } else {
            self
        }
    }

    /// A stopped stopwatch: no target, nothing accumulated.
    pub fn new_stopwatch() -> (r: Self)
        ensures
            r == Self::spec_new_stopwatch(),
    {
        TimerCore {
            state: TimerState::Stopped,
            accumulated_ms: 0,
            segment_start_ms: 0,
            target: None,
        }
    }

    /// A stopped countdown that will expire `duration_ms` after it has run.
    pub fn new_countdown(duration_ms: u64) -> (r: Self)
        ensures
            r == Self::spec_new_countdown(duration_ms),
    {
        TimerCore {
            state: TimerState::Stopped,
            accumulated_ms: 0,
            segment_start_ms: 0,
            target: Some(duration_ms),
        }
    }

    /// Begin (or resume) running at `now_ms`. Resuming from `Paused` keeps
    /// the accumulated time; starting while already running changes nothing.
    pub fn start(&mut self, now_ms: u64)
        ensures
            *final(self) == old(self).spec_started(now_ms),
    {
        if self.state == TimerState::Running {
            return;
        }
        self.segment_start_ms = now_ms;
        self.state = TimerState::Running;
    }

    /// Close the open segment at `now_ms` and fold it into the accumulator;
    /// a no-op unless running.
    pub fn pause(&mut self, now_ms: u64)
        ensures
            *final(self) == old(self).spec_paused(now_ms),
    {
        if self.state != TimerState::Running {
            return;
        }
        self.accumulated_ms = self.accumulated_ms.saturating_add(
            now_ms.saturating_sub(self.segment_start_ms),
        );
        self.state = TimerState::Paused;
    }

    /// Forget all accumulated time and stop; the target is kept.
    pub fn reset(&mut self)
        ensures
            *final(self) == old(self).spec_reset(),
    {
        self.accumulated_ms = 0;
        self.segment_start_ms = 0;
        self.state = TimerState::Stopped;
    }

    /// Elapsed milliseconds at `now_ms`.
    pub fn elapsed_ms(&self, now_ms: u64) -> (r: u64)
        ensures
            r == self.spec_elapsed(now_ms),
    {
        match self.state {
            TimerState::Running => self.accumulated_ms.saturating_add(
                now_ms.saturating_sub(self.segment_start_ms),
            ),
            _ => self.accumulated_ms,
        }
    }

    /// Milliseconds left until the target, saturating at zero; `None` in
    /// stopwatch mode.
    pub fn remaining_ms(&self, now_ms: u64) -> (r: Option<u64>)
        ensures
            r == self.spec_remaining(now_ms),
    {
        match self.target {
            Some(t) => Some(t.saturating_sub(self.elapsed_ms(now_ms))),
            None => None,
        }
    }

    /// Whether a countdown's elapsed time has reached its target. A target of
    /// zero is expired on the first poll; a stopwatch never expires.
    pub fn is_expired(&self, now_ms: u64) -> (r: bool)
        ensures
            r == self.spec_is_expired(now_ms),
    {
        match self.target {
            Some(t) => self.elapsed_ms(now_ms) >= t,
            None => false,
        }
    }

    /// Record a split: return the elapsed time since the previous lap (or
    /// since start for the first one), clear the accumulator, and keep the
    /// clock running from `now_ms`. Laps are splits between marks, not
    /// cumulative totals. A no-op returning zero unless running.
    pub fn lap(&mut self, now_ms: u64) -> (split: u64)
        ensures
            *final(self) == old(self).spec_lapped(now_ms),
            old(self).state is Running ==> split == old(self).spec_elapsed(now_ms),
            !(old(self).state is Running) ==> split == 0,
    {
        if self.state != TimerState::Running {
            return 0;
        }
        let elapsed = self.elapsed_ms(now_ms);
        self.accumulated_ms = 0;
        self.segment_start_ms = now_ms;
        elapsed
    }

    /// The configured countdown target, `None` for a stopwatch.
    pub fn target_ms(&self) -> (r: Option<u64>)
        ensures
            r == self.target,
    {
        self.target
    }

    /// True of a freshly constructed clock of either mode: stopped with
    /// nothing accumulated.
    pub open spec fn spec_is_fresh(self) -> bool {
        self.state is Stopped && self.accumulated_ms == 0
    }

    /// When a target is set, the remaining time is the target minus the
    /// elapsed time, saturating at zero, and the clock is expired exactly
    /// when that remainder has reached zero.
    pub proof fn lemma_expired_iff_no_remaining(self, now_ms: u64)
        ensures
            self.target matches Some(t) ==> self.spec_remaining(now_ms) == Some(
                t.saturating_sub(self.spec_elapsed(now_ms)),
            ),
            self.target matches Some(t) ==> (self.spec_is_expired(now_ms)
                <==> self.spec_remaining(now_ms) == Some(0u64)),
    {
    }
}

/// One recorded clock command together with its monotonic timestamp.
#[derive(Clone, Copy, PartialEq, Eq, Structural, Debug)]
pub enum ClockOp {
    Start(u64),
    Pause(u64),
}

/// The timestamp carried by a command.
pub open spec fn op_time(op: ClockOp) -> u64 {
    match op {
        ClockOp::Start(t) => t,
        ClockOp::Pause(t) => t,
    }
}

/// The clock that results from one command.
pub open spec fn apply_op(c: TimerCore, op: ClockOp) -> TimerCore {
    match op {
        ClockOp::Start(t) => c.spec_started(t),
        ClockOp::Pause(t) => c.spec_paused(t),
    }
}

/// The clock that results from a whole command sequence.
pub open spec fn apply_ops(c: TimerCore, ops: Seq<ClockOp>) -> TimerCore
    decreases ops.len(),
{
    if ops.len() == 0 {
        c
    } else {
        apply_op(apply_ops(c, ops.drop_last()), ops.last())
    }
}

/// Timestamps never decrease along the command sequence.
pub open spec fn ops_monotone(ops: Seq<ClockOp>) -> bool {
    forall|i: int, j: int| 0 <= i <= j < ops.len() ==> op_time(ops[i]) <= op_time(ops[j])
}

/// Whether the command sequence leaves a segment open: it does exactly when
/// the last command is a `Start`.
pub open spec fn segs_running(ops: Seq<ClockOp>) -> bool {
    ops.len() > 0 && ops.last() is Start
}

/// The timestamp at which the currently open segment began: the time of the
/// `Start` that opened it (a repeated `Start` does not move it).
pub open spec fn seg_start(ops: Seq<ClockOp>) -> int
    decreases ops.len(),
{
    if ops.len() == 0 {
        0
    } else {
        match ops.last() {
            ClockOp::Start(t) => if segs_running(ops.drop_last()) {
                seg_start(ops.drop_last())
            } else {
                t as int
            },
            ClockOp::Pause(_) => 0,
        }
    }
}

/// The exact mathematical sum of the lengths of all segments already closed
/// by a `Pause`, free of any machine-width saturation.
pub open spec fn seg_acc(ops: Seq<ClockOp>) -> int
    decreases ops.len(),
{
    if ops.len() == 0 {
        0
    } else {
        match ops.last() {
            ClockOp::Start(_) => seg_acc(ops.drop_last()),
            ClockOp::Pause(t) => if segs_running(ops.drop_last()) {
                seg_acc(ops.drop_last()) + t - seg_start(ops.drop_last())
            } else {
                seg_acc(ops.drop_last())
            },
        }
    }
}

/// The exact sum of the lengths of all running intervals produced by the
/// command sequence, measured at time `now`: the closed segments plus the
/// still-open one, if any.
pub open spec fn segs_total(ops: Seq<ClockOp>, now: int) -> int {
    if segs_running(ops) {
        seg_acc(ops) + now - seg_start(ops)
    } else {
        seg_acc(ops)
    }
}

/// The open segment, when there is one, began at the timestamp of one of the
/// commands in the sequence.
proof fn lemma_seg_start_is_an_op_time(ops: Seq<ClockOp>)
    requires
        segs_running(ops),
    ensures
        exists|k: int| 0 <= k < ops.len() && seg_start(ops) == op_time(ops[k]),
    decreases ops.len(),
{
    if segs_running(ops.drop_last()) {
        lemma_seg_start_is_an_op_time(ops.drop_last());
        let k = choose|k: int|
            0 <= k < ops.drop_last().len() && seg_start(ops.drop_last()) == op_time(
                ops.drop_last()[k],
            );
        assert(seg_start(ops) == op_time(ops[k]));
    } else {
        assert(seg_start(ops) == op_time(ops[ops.len() - 1]));
    }
}

/// Under monotone timestamps, closing more segments never shrinks the sum of
/// the closed ones.
proof fn lemma_seg_acc_grows(ops: Seq<ClockOp>)
    requires
        ops.len() > 0,
        ops_monotone(ops),
    ensures
        seg_acc(ops.drop_last()) <= seg_acc(ops),
{
    let pre = ops.drop_last();
    if ops.last() matches ClockOp::Pause(t) && segs_running(pre) {
        lemma_seg_start_is_an_op_time(pre);
        let k = choose|k: int| 0 <= k < pre.len() && seg_start(pre) == op_time(pre[k]);
        assert(op_time(ops[k]) <= op_time(ops[ops.len() - 1]));
    }
}

/// Replaying a command sequence with monotone timestamps on a fresh clock
/// tracks the exact segment bookkeeping, with no saturation.
proof fn lemma_apply_ops_tracks_segments(c0: TimerCore, ops: Seq<ClockOp>)
    requires
        c0.spec_is_fresh(),
        ops_monotone(ops),
        seg_acc(ops) <= u64::MAX,
    ensures
        ({
            let c = apply_ops(c0, ops);
            &&& c.state is Running <==> segs_running(ops)
            &&& !(c.state is Running) ==> c.state is Stopped || c.state is Paused
            &&& c.accumulated_ms == seg_acc(ops)
            &&& segs_running(ops) ==> c.segment_start_ms == seg_start(ops)
            &&& c.target == c0.target
        }),
    decreases ops.len(),
{
    if ops.len() > 0 {
        let pre = ops.drop_last();
        assert(ops_monotone(pre)) by {
            assert(forall|i: int, j: int|
                0 <= i <= j < pre.len() ==> op_time(ops[i]) <= op_time(ops[j]));
        }
        lemma_seg_acc_grows(ops);
        lemma_apply_ops_tracks_segments(c0, pre);
        let cpre = apply_ops(c0, pre);
        match ops.last() {
            ClockOp::Start(t) => {
                assert(apply_ops(c0, ops) == cpre.spec_started(t));
            },
            ClockOp::Pause(t) => {
                if segs_running(pre) {
                    lemma_seg_start_is_an_op_time(pre);
                    let k = choose|k: int|
                        0 <= k < pre.len() && seg_start(pre) == op_time(pre[k]);
                    assert(op_time(ops[k]) <= op_time(ops[ops.len() - 1]));
                    assert(cpre.segment_start_ms <= t);
                }
            },
        }
    }
}

/// For any command sequence with non-decreasing timestamps, replayed on a
/// fresh clock, the elapsed time at any `now` not earlier than the last
/// command equals the exact sum of the lengths of all running intervals,
/// however many pause/resume cycles occurred — provided that sum fits in the
/// machine word.
pub proof fn lemma_elapsed_is_segment_sum(c0: TimerCore, ops: Seq<ClockOp>, now: u64)
    requires
        c0.spec_is_fresh(),
        ops_monotone(ops),
        forall|i: int| 0 <= i < ops.len() ==> op_time(ops[i]) <= now,
        segs_total(ops, now as int) <= u64::MAX,
    ensures
        apply_ops(c0, ops).spec_elapsed(now) == segs_total(ops, now as int),
{
    if segs_running(ops) {
        lemma_seg_start_is_an_op_time(ops);
        let k = choose|k: int| 0 <= k < ops.len() && seg_start(ops) == op_time(ops[k]);
        assert(seg_start(ops) <= now);
    }
    lemma_apply_ops_tracks_segments(c0, ops);
}

} // verus!
