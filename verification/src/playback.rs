//! The shared playback-state cache: the last known playback position and
//! total duration.
//!
//! The cache is an explicitly owned structure; the shell wraps one instance
//! in a lock and hands a reference to the event translator (which writes it)
//! and to any status-query caller (which reads it).

use vstd::prelude::*;

use crate::messages::F64Bits;

verus! {

/// The last known playback position and total duration, as double bit
/// patterns. Both default to zero.
#[derive(Clone, Copy, PartialEq, Eq, Structural, Debug)]
pub struct PlaybackState {
    pub position: F64Bits,
    pub duration: F64Bits,
}

impl PlaybackState {
    /// A fresh cache with both fields at zero.
    pub fn new() -> (s: PlaybackState)
        ensures
            s.position.bits == 0,
            s.duration.bits == 0,
    {
        PlaybackState { position: F64Bits::zero(), duration: F64Bits::zero() }
    }
}

} // verus!
