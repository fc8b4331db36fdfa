//! The countdown registry: a capacity-bounded ordered list of named
//! durations, a cursor over it, and at most one active countdown clock
//! bound to one of the entries.

use vstd::prelude::*;

use crate::clock::TimerCore;

verus! {

pub const MAX_COUNTDOWNS: usize = 20;

/// One named countdown preset.
#[derive(Clone, Debug)]
pub struct CountdownEntry {
    pub name: String,
    pub duration_ms: u64,
}

/// The registry. The active clock, when present, always refers to a
/// still-existing entry through `active_index`.
pub struct CountdownState {
    pub entries: Vec<CountdownEntry>,
    pub cursor: usize,
    pub active_timer: Option<TimerCore>,
    pub active_index: Option<usize>,
}

impl CountdownState {
    /// The registry's invariant: the active index exists exactly when the
    /// active clock does and refers to an existing entry, and the cursor
    /// stays on an entry (resting at zero when the list is empty).
    pub open spec fn wf(self) -> bool {
        &&& self.active_index is Some <==> self.active_timer is Some
        &&& self.active_index matches Some(i) ==> i < self.entries.len()
        &&& if self.entries.len() == 0 {
            self.cursor == 0
        } else {
            self.cursor < self.entries.len()
        }
    }

    /// An empty registry with nothing active.
    pub fn new() -> (r: Self)
        ensures
            r.entries@ == Seq::<CountdownEntry>::empty(),
            r.cursor == 0,
            r.active_timer is None,
            r.active_index is None,
            r.wf(),
    {
        CountdownState { entries: Vec::new(), cursor: 0, active_timer: None, active_index: None }
    }

    /// Exactly how [`CountdownState::add_entry`] relates the state after
    /// the call to the one before it.
    pub open spec fn add_entry_post(
        pre: Self,
        post: Self,
        name: String,
        duration_ms: u64,
        added: bool,
    ) -> bool {
        &&& added == (pre.entries.len() < MAX_COUNTDOWNS)
        &&& !added ==> post == pre
        &&& added ==> post.entries@ == pre.entries@.push(CountdownEntry { name, duration_ms })
        &&& post.cursor == pre.cursor
        &&& post.active_timer == pre.active_timer
        &&& post.active_index == pre.active_index
    }

    /// Exactly how [`CountdownState::delete_selected`] relates the state
    /// after the call to the one before it.
    pub open spec fn delete_selected_post(pre: Self, post: Self) -> bool {
        &&& pre.cursor >= pre.entries.len() ==> post == pre
        &&& pre.cursor < pre.entries.len() ==> {
            &&& post.entries@ == pre.entries@.remove(pre.cursor as int)
            &&& post.active_index == (match pre.active_index {
                Some(i) => if i == pre.cursor {
                    None
                } else if pre.cursor < i {
                    Some((i - 1) as usize)
                } else {
                    Some(i)
                },
                None => None,
            })
            &&& post.active_timer == (if pre.active_index == Some(pre.cursor) {
                None::<TimerCore>
            } else {
                pre.active_timer
            })
            &&& post.cursor == (if pre.cursor + 1 >= pre.entries.len() && pre.cursor > 0 {
                (pre.cursor - 1) as usize
            } else {
                pre.cursor
            })
        }
    }

    /// Exactly how [`CountdownState::start_selected`] relates the state
    /// after the call to the one before it.
    pub open spec fn start_selected_post(pre: Self, post: Self) -> bool {
        &&& pre.cursor >= pre.entries.len() ==> post == pre
        &&& pre.cursor < pre.entries.len() ==> {
            &&& post.active_timer == Some(
                TimerCore::spec_new_countdown(pre.entries@[pre.cursor as int].duration_ms),
            )
            &&& post.active_index == Some(pre.cursor)
            &&& post.entries == pre.entries
            &&& post.cursor == pre.cursor
        }
    }

    /// Exactly how [`CountdownState::stop_active`] relates the state after
    /// the call to the one before it.
    pub open spec fn stop_active_post(pre: Self, post: Self) -> bool {
        &&& post.active_timer is None
        &&& post.active_index is None
        &&& post.entries == pre.entries
        &&& post.cursor == pre.cursor
    }

    /// Append an entry. Fails, changing nothing, exactly when the registry
    /// already holds [`MAX_COUNTDOWNS`] entries; the caller must surface
    /// that failure.
    pub fn add_entry(&mut self, name: String, duration_ms: u64) -> (added: bool)
        requires
            old(self).wf(),
        ensures
            final(self).wf(),
            Self::add_entry_post(*old(self), *final(self), name, duration_ms, added),
    {
        if self.entries.len() >= MAX_COUNTDOWNS {
            return false;
        }
        self.entries.push(CountdownEntry { name, duration_ms });
        true
    }

    /// Delete the entry under the cursor, if any. Deleting the active entry
    /// clears the active clock; deleting an entry before the active one
    /// shifts the active index down by one so it keeps referring to the same
    /// entry; afterwards the cursor is clamped to the last entry (and stays
    /// at zero when the list became empty).
    pub fn delete_selected(&mut self)
        requires
            old(self).wf(),
        ensures
            final(self).wf(),
            Self::delete_selected_post(*old(self), *final(self)),
    {
        if self.cursor < self.entries.len() {
            if self.active_index == Some(self.cursor) {
                self.active_timer = None;
                self.active_index = None;
            } else if let Some(idx) = self.active_index {
                if self.cursor < idx {
                    self.active_index = Some(idx - 1);
                }
            }
            self.entries.remove(self.cursor);
            if self.cursor >= self.entries.len() && self.cursor > 0 {
                self.cursor = self.entries.len() - 1;
            }
        }
    }

    /// Bind a fresh countdown clock, targeted at the selected entry's
    /// duration, to the entry under the cursor. The clock starts stopped;
    /// the caller starts it. A no-op when the list is empty.
    pub fn start_selected(&mut self)
        requires
            old(self).wf(),
        ensures
            final(self).wf(),
            Self::start_selected_post(*old(self), *final(self)),
    {
        if self.cursor < self.entries.len() {
            let duration = self.entries[self.cursor].duration_ms;
            self.active_timer = Some(TimerCore::new_countdown(duration));
            self.active_index = Some(self.cursor);
        }
    }

    /// The name of the entry the active clock is bound to, if any.
    pub fn active_name(&self) -> (r: Option<&str>)
        ensures
            self.active_index matches Some(i) ==> ({
                &&& i < self.entries.len() ==> (r matches Some(s) && s@ == self.entries@[i as int].name@)
                &&& i >= self.entries.len() ==> r is None
            }),
            self.active_index is None ==> r is None,
    {
        match self.active_index {
            Some(i) => if i < self.entries.len() {
                Some(self.entries[i].name.as_str())
            } else {
                None
            },
            None => None,
        }
    }

    /// The configured duration of the entry the active clock is bound to.
    pub fn active_duration_ms(&self) -> (r: Option<u64>)
        ensures
            self.active_index matches Some(i) ==> ({
                &&& i < self.entries.len() ==> r == Some(self.entries@[i as int].duration_ms)
                &&& i >= self.entries.len() ==> r is None
            }),
            self.active_index is None ==> r is None,
    {
        match self.active_index {
            Some(i) => if i < self.entries.len() {
                Some(self.entries[i].duration_ms)
            } else {
                None
            },
            None => None,
        }
    }

    /// Drop the active clock and its binding; entries and cursor are kept.
    pub fn stop_active(&mut self)
        ensures
            Self::stop_active_post(*old(self), *final(self)),
            old(self).wf() ==> final(self).wf(),
    {
        self.active_timer = None;
        self.active_index = None;
    }
}

} // verus!
