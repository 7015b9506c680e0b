//! A 32-bit floating-point cell that threads share without locking,
//! held as the IEEE-754 bit pattern in an atomic word.
//!
//! The library only stores and carries these bit patterns; turning them
//! into and out of `f32` values happens outside the verified code.

use vstd::prelude::*;
use std::sync::atomic::{AtomicU32, Ordering};

verus! {

/// The bit pattern of `1.0_f32` (unity gain).
pub const UNITY_BITS: u32 = 0x3f80_0000;

/// The bit pattern of `0.0_f32`.
pub const ZERO_BITS: u32 = 0;

/// The bit pattern of `-6.0_f32` (the default manual headroom in dB).
pub const MINUS_SIX_BITS: u32 = 0xc0c0_0000;

/// A lock-free atomic floating-point value, held as its bit pattern.
///
/// Other threads may store at any time, so what a load returns is not
/// stated.
#[derive(Debug)]
pub struct AtomicF32 {
    bits: AtomicU32,
}

impl AtomicF32 {
    /// Creates a cell holding the value whose bit pattern is `bits`.
    pub fn from_bits(bits: u32) -> (r: Self) {
        AtomicF32 { bits: AtomicU32::new(bits) }
    }

    /// Loads the bit pattern of the value with `Acquire` ordering.
    pub fn get_bits(&self) -> (r: u32) {
        self.bits.load(Ordering::Acquire)
    }

    /// Stores the value with bit pattern `bits` with `Release` ordering.
    pub fn set_bits(&self, bits: u32) {
        self.bits.store(bits, Ordering::Release);
    }

    /// Loads the bit pattern with the given ordering.
    pub fn load_bits(&self, ordering: Ordering) -> (r: u32) {
        self.bits.load(ordering)
    }

    /// Stores the bit pattern with the given ordering.
    pub fn store_bits(&self, bits: u32, ordering: Ordering) {
        self.bits.store(bits, ordering);
    }

    /// Swaps in a bit pattern and returns the previous one.
    pub fn swap_bits(&self, bits: u32, ordering: Ordering) -> (r: u32) {
        self.bits.swap(bits, ordering)
    }
}

impl Clone for AtomicF32 {
    /// A new, independent cell holding what this one holds now.
    fn clone(&self) -> (r: Self) {
        Self::from_bits(self.get_bits())
    }
}

impl Default for AtomicF32 {
    /// A cell holding `0.0`.
    fn default() -> (r: Self) {
        Self::from_bits(ZERO_BITS)
    }
}

} // verus!
