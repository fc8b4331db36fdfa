//! The lap recorder: a stopwatch clock plus the list of recorded splits.

use vstd::prelude::*;

use crate::clock::TimerCore;

verus! {

pub const MAX_LAPS: usize = 99;

/// A stopwatch with its recorded lap splits. Because a lap clears the
/// clock's accumulator, each entry of `laps` is the time since the previous
/// mark, not a running total.
pub struct StopwatchState {
    pub timer: TimerCore,
    pub laps: Vec<u64>,
    pub lap_scroll_offset: usize,
}

impl StopwatchState {
    /// A stopped stopwatch with no laps.
    pub fn new() -> (r: Self)
        ensures
            r.timer == TimerCore::spec_new_stopwatch(),
            r.laps@ == Seq::<u64>::empty(),
            r.lap_scroll_offset == 0,
    {
        StopwatchState { timer: TimerCore::new_stopwatch(), laps: Vec::new(), lap_scroll_offset: 0 }
    }

    /// Exactly how [`StopwatchState::record_lap`] relates the state after
    /// the call to the one before it.
    pub open spec fn record_lap_post(pre: Self, post: Self, now_ms: u64) -> bool {
        &&& post.lap_scroll_offset == pre.lap_scroll_offset
        &&& pre.laps.len() >= MAX_LAPS ==> post == pre
        &&& pre.laps.len() < MAX_LAPS ==> {
            &&& post.timer == pre.timer.spec_lapped(now_ms)
            &&& ({
                let split = if pre.timer.state is Running {
                    pre.timer.spec_elapsed(now_ms)
                } else {
                    0u64
                };
                if split > 0 {
                    post.laps@ == pre.laps@.push(split)
                } else {
                    post.laps@ == pre.laps@
                }
            })
        }
    }

    /// Exactly how [`StopwatchState::reset`] relates the state after the
    /// call to the one before it.
    pub open spec fn reset_post(pre: Self, post: Self) -> bool {
        &&& post.timer == pre.timer.spec_reset()
        &&& post.laps@ == Seq::<u64>::empty()
        &&& post.lap_scroll_offset == 0
    }

    /// Record a lap at `now_ms`: take the clock's split and append it when
    /// it is positive. A no-op when the lap list is full; appends nothing
    /// when the clock was not running (its split is zero).
    pub fn record_lap(&mut self, now_ms: u64)
        ensures
            Self::record_lap_post(*old(self), *final(self), now_ms),
    {
        if self.laps.len() >= MAX_LAPS {
            return;
        }
        let lap_time = self.timer.lap(now_ms);
        if lap_time > 0 {
            self.laps.push(lap_time);
        }
    }

    /// Stop and clear the clock, drop all laps, and rewind the scroll
    /// position.
    pub fn reset(&mut self)
        ensures
            Self::reset_post(*old(self), *final(self)),
    {
        self.timer.reset();
        self.laps.clear();
        self.lap_scroll_offset = 0;
    }
}

} // verus!
