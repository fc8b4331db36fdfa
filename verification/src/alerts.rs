//! User-facing alert preferences. Delivering an alert (vibration, audio,
//! notification) is the host's job; the engine only carries the flags and
//! decides when an alert is due.

use vstd::prelude::*;

verus! {

/// Which alert channels are enabled when a timer expires.
#[derive(Clone, Copy, PartialEq, Eq, Structural, Debug)]
pub struct AlertConfig {
    pub vibration: bool,
    pub audio: bool,
    pub notification: bool,
}

impl Default for AlertConfig {
    /// The configuration used when nothing was persisted: vibration and
    /// notification on, audio off.
    fn default() -> (r: Self)
        ensures
            r == (AlertConfig { vibration: true, audio: false, notification: true }),
    {
        AlertConfig { vibration: true, audio: false, notification: true }
    }
}

} // verus!
