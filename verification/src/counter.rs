//! The free-running 48-bit tick counter, split over two registers.

use vstd::prelude::*;

use crate::registers::RtcControl;

verus! {

/// The 48-bit value whose halves sit in the two timer registers:
/// `(high << 32) | low`.
pub open spec fn combined(high: u16, low: u32) -> u64 {
    ((high as u64) << 32u64) | (low as u64)
}

/// Reader of the hardware's monotonic tick counter.
pub struct RtcCounter;

impl RtcCounter {
    /// Read the low word and the high word and combine them into the 48-bit
    /// tick count.  On hardware the two reads are not atomic: if the low word
    /// wraps between them, the combined value can be transiently off by one
    /// low-word epoch, so callers must treat the result as approximate within
    /// that epoch.  Over this register model the read is a single borrow, so
    /// the result is exactly the combination of the two fields.
    pub fn now(regs: &RtcControl) -> (v: u64)
        ensures
            v == combined(regs.slp_timer_high, regs.slp_timer_low),
            v < 0x1_0000_0000_0000u64,
    {
        let low: u32 = regs.slp_timer_low;
        let high: u16 = regs.slp_timer_high;
        let v: u64 = ((high as u64) << 32u64) | (low as u64);
        proof {
            assert(((high as u64) << 32u64) | (low as u64) < 0x1_0000_0000_0000u64)
                by (bit_vector);
        }
        v
    }
}

} // verus!
