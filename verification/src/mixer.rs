//! Per-route volume control.

use vstd::prelude::*;
use std::sync::atomic::{AtomicBool, AtomicU32, Ordering};

verus! {

/// The fixed-point volume of unity gain: volumes are held as 16.16 fixed
/// point, so 1.0 is 65536.
pub const UNITY_VOLUME: u32 = 65536;

/// Lock-free volume and mute control.
///
/// The volume is held as 16.16 fixed point. Other threads may store at any
/// time, so what a load returns is not stated.
pub struct VolumeControl {
    volume: AtomicU32,
    muted: AtomicBool,
}

impl VolumeControl {
    /// Creates a control at unity volume, not muted.
    pub fn new() -> (r: Self) {
        VolumeControl { volume: AtomicU32::new(UNITY_VOLUME), muted: AtomicBool::new(false) }
    }

    /// Sets the mute state.
    pub fn set_muted(&self, muted: bool) {
        self.muted.store(muted, Ordering::Release);
    }

    /// Returns true if muted.
    pub fn is_muted(&self) -> (r: bool) {
        self.muted.load(Ordering::Acquire)
    }

    /// The volume as 16.16 fixed point.
    pub fn volume_fixed(&self) -> (r: u32) {
        self.volume.load(Ordering::Acquire)
    }

    /// Stores a volume given as 16.16 fixed point.
    pub fn set_volume_fixed(&self, value: u32) {
        self.volume.store(value, Ordering::Release);
    }
}

impl Default for VolumeControl {
    fn default() -> (r: Self) {
        Self::new()
    }
}

} // verus!
