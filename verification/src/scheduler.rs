//! Programming the wake alarm and committing to deep sleep.
//!
//! The scheduler reads the current tick count, adds the requested offset to
//! get an absolute wake deadline, and then issues the programming writes in a
//! fixed order: power-down flag, wake-source mask, interrupt clears, the two
//! deadline halves, alarm enable, acknowledgement clear, and last of all the
//! sleep commit.  The commit bit is never set before the alarm is fully
//! programmed, and no programming write is issued before every watchdog has
//! been disarmed.

use vstd::prelude::*;

use crate::counter::{combined, RtcCounter};
use crate::registers::{RegWrite, RtcControl};
use crate::watchdog::{guard_writes, wdt_all_disabled, wdt_state, WatchdogGuard};

verus! {

/// Wake-source mask selecting the RTC timer and nothing else.
pub const RTC_TIMER_WAKE_MASK: u8 = 0x8;

/// The low 32 bits of a wake deadline, as written to `slp_timer0`.
pub open spec fn low_word(deadline: u64) -> u32 {
    (deadline & 0xFFFF_FFFFu64) as u32
}

/// The high 16 bits of a wake deadline, as written to `slp_timer1.slp_val_hi`.
/// A deadline past the 48-bit range is silently truncated to it, exactly as
/// the 16-bit register field truncates it.
pub open spec fn high_word(deadline: u64) -> u16 {
    ((deadline >> 32u64) & 0xFFFFu64) as u16
}

/// The absolute wake deadline a schedule request computes: the counter value
/// found in the timer registers, plus the requested offset.
pub open spec fn sleep_deadline(pre: RtcControl, offset_ticks: u64) -> u64 {
    (combined(pre.slp_timer_high, pre.slp_timer_low) + offset_ticks) as u64
}

/// The programming writes of one schedule request, in the order they are
/// issued.  The commit write comes last.
pub open spec fn programming_writes(deadline: u64) -> Seq<RegWrite> {
    seq![
        RegWrite::DigPowerDown,
        RegWrite::WakeMask(RTC_TIMER_WAKE_MASK),
        RegWrite::SleepIntClear,
        RegWrite::AlarmLow(low_word(deadline)),
        RegWrite::AlarmHigh(high_word(deadline)),
        RegWrite::AlarmEnable,
        RegWrite::SleepAckClear,
        RegWrite::SleepCommit,
    ]
}

/// Every write of one full sleep cycle: the four watchdog disables, then the
/// eight programming writes.
pub open spec fn cycle_writes(deadline: u64) -> Seq<RegWrite> {
    guard_writes() + programming_writes(deadline)
}

/// Exactly what a schedule request does to the register state: the wake
/// deadline halves land in the alarm registers, the digital core is marked
/// for power-down, the wake mask selects the RTC timer alone, the pending
/// sleep interrupts are cleared, the alarm is armed, and the commit bit is
/// set; the watchdog state is untouched and the eight programming writes are
/// appended to the log.
pub open spec fn schedule_rel(pre: RtcControl, post: RtcControl, offset_ticks: u64) -> bool {
    let deadline = sleep_deadline(pre, offset_ticks);
    &&& post.dig_pd_en
    &&& post.wakeup_ena == RTC_TIMER_WAKE_MASK
    &&& post.slp_reject_cleared
    &&& post.slp_wakeup_cleared
    &&& post.slp_timer_low == low_word(deadline)
    &&& post.slp_timer_high == high_word(deadline)
    &&& post.alarm_en
    &&& post.sleep_ack_cleared
    &&& post.sleep_en
    &&& wdt_state(post) == wdt_state(pre)
    &&& post.writes@ == pre.writes@ + programming_writes(deadline)
}

/// Computes the wake deadline and walks the chip into deep sleep.
pub struct SleepScheduler;

impl SleepScheduler {
    /// Program the wake alarm `offset_ticks` ticks from now and commit the
    /// chip to deep sleep.
    ///
    /// Every watchdog must already be disarmed: a guard left armed could
    /// reset the chip between these writes.  The deadline sum must fit in 64
    /// bits; what lies beyond the 48 bits the alarm registers hold is
    /// truncated by the registers themselves, as `low_word` and `high_word`
    /// state.  Within the 48-bit range the two alarm registers together hold
    /// the deadline exactly.
    pub fn schedule_and_sleep(regs: &mut RtcControl, offset_ticks: u64)
        requires
            old(regs).wf(),
            wdt_all_disabled(*old(regs)),
            offset_ticks > 0,
            combined(old(regs).slp_timer_high, old(regs).slp_timer_low) + offset_ticks
                <= u64::MAX,
        ensures
            final(regs).wf(),
            schedule_rel(*old(regs), *final(regs), offset_ticks),
            sleep_deadline(*old(regs), offset_ticks) < 0x1_0000_0000_0000u64
                ==> combined(final(regs).slp_timer_high, final(regs).slp_timer_low)
                    == sleep_deadline(*old(regs), offset_ticks),
    {
        let current: u64 = RtcCounter::now(regs);
        let deadline: u64 = current + offset_ticks;
        proof {
            assert(deadline & 0xFFFF_FFFFu64 <= 0xFFFF_FFFFu64) by (bit_vector);
            assert((deadline >> 32u64) & 0xFFFFu64 <= 0xFFFFu64) by (bit_vector);
        }
        let lo: u32 = (deadline & 0xFFFF_FFFFu64) as u32;
        let hi: u16 = ((deadline >> 32u64) & 0xFFFFu64) as u16;

        regs.dig_pd_en = true;
        regs.writes.push(RegWrite::DigPowerDown);
        regs.wakeup_ena = RTC_TIMER_WAKE_MASK;
        regs.writes.push(RegWrite::WakeMask(RTC_TIMER_WAKE_MASK));
        regs.slp_reject_cleared = true;
        regs.slp_wakeup_cleared = true;
        regs.writes.push(RegWrite::SleepIntClear);
        regs.slp_timer_low = lo;
        regs.writes.push(RegWrite::AlarmLow(lo));
        regs.slp_timer_high = hi;
        regs.writes.push(RegWrite::AlarmHigh(hi));
        regs.alarm_en = true;
        regs.writes.push(RegWrite::AlarmEnable);
        regs.sleep_ack_cleared = true;
        regs.writes.push(RegWrite::SleepAckClear);
        regs.sleep_en = true;
        regs.writes.push(RegWrite::SleepCommit);

        proof {
            assert(regs.writes@ =~= old(regs).writes@
                + programming_writes(sleep_deadline(*old(regs), offset_ticks)));
            assert(deadline < 0x1_0000_0000_0000u64 ==> ((((deadline >> 32u64) & 0xFFFFu64)
                as u16 as u64) << 32u64) | ((deadline & 0xFFFF_FFFFu64) as u32 as u64)
                == deadline) by (bit_vector);
        }
    }
}

/// Exactly what one full sleep cycle does to the register state: every
/// watchdog ends disarmed, the alarm holds the deadline computed from the
/// counter value the cycle started from, the chip is committed to sleep, and
/// the twelve cycle writes are appended to the log in order.
pub open spec fn cycle_rel(pre: RtcControl, post: RtcControl, offset_ticks: u64) -> bool {
    let deadline = sleep_deadline(pre, offset_ticks);
    &&& wdt_all_disabled(post)
    &&& post.dig_pd_en
    &&& post.wakeup_ena == RTC_TIMER_WAKE_MASK
    &&& post.slp_reject_cleared
    &&& post.slp_wakeup_cleared
    &&& post.slp_timer_low == low_word(deadline)
    &&& post.slp_timer_high == high_word(deadline)
    &&& post.alarm_en
    &&& post.sleep_ack_cleared
    &&& post.sleep_en
    &&& post.writes@ == pre.writes@ + cycle_writes(deadline)
}

/// One full sleep cycle, as the boot sequence runs it: disarm every watchdog,
/// then program the wake alarm and commit to deep sleep.  On hardware this
/// does not return — the chip powers down and later restarts from the reset
/// vector; over the register model the committed final state is returned to
/// the caller.
pub fn enter_deep_sleep(regs: &mut RtcControl, offset_ticks: u64)
    requires
        old(regs).wf(),
        offset_ticks > 0,
        combined(old(regs).slp_timer_high, old(regs).slp_timer_low) + offset_ticks
            <= u64::MAX,
    ensures
        final(regs).wf(),
        cycle_rel(*old(regs), *final(regs), offset_ticks),
        sleep_deadline(*old(regs), offset_ticks) < 0x1_0000_0000_0000u64
            ==> combined(final(regs).slp_timer_high, final(regs).slp_timer_low)
                == sleep_deadline(*old(regs), offset_ticks),
{
    WatchdogGuard::disable_all(regs);
    SleepScheduler::schedule_and_sleep(regs, offset_ticks);
    proof {
        let deadline = sleep_deadline(*old(regs), offset_ticks);
        assert(final(regs).writes@ =~= old(regs).writes@ + cycle_writes(deadline));
    }
}

/// A write is one of the four watchdog disables.
pub open spec fn is_wdt_disable_write(w: RegWrite) -> bool {
    ||| w == RegWrite::SwdDisable
    ||| w == RegWrite::RwdtDisable
    ||| w == RegWrite::Wdt0Disable
    ||| w == RegWrite::Wdt1Disable
}

/// A write programs the alarm or commits to sleep.
pub open spec fn is_alarm_or_commit_write(w: RegWrite) -> bool {
    ||| w matches RegWrite::AlarmLow(_)
    ||| w matches RegWrite::AlarmHigh(_)
    ||| w == RegWrite::AlarmEnable
    ||| w == RegWrite::SleepCommit
}

/// Ordering law of the sleep cycle: no alarm or commit write is ever issued
/// before every watchdog disable.  In the write sequence of a full cycle,
/// each of the four disables precedes each alarm and commit write.
pub proof fn lemma_guards_precede_alarm(deadline: u64)
    ensures
        forall|i: int, j: int|
            0 <= i < cycle_writes(deadline).len() && 0 <= j < cycle_writes(deadline).len()
                && is_alarm_or_commit_write(#[trigger] cycle_writes(deadline)[i])
                && is_wdt_disable_write(#[trigger] cycle_writes(deadline)[j]) ==> j < i,
{
    let t = cycle_writes(deadline);
    assert forall|i: int, j: int|
        0 <= i < t.len() && 0 <= j < t.len() && is_alarm_or_commit_write(#[trigger] t[i])
            && is_wdt_disable_write(#[trigger] t[j]) implies j < i by {
        assert(is_alarm_or_commit_write(t[i]) ==> i >= 7);
        assert(is_wdt_disable_write(t[j]) ==> j < 4);
    }
}

/// Interrupt-clear law of the sleep cycle: the write that clears the pending
/// sleep-reject and sleep-wakeup interrupts is issued before any write that
/// sets the commit bit.
pub proof fn lemma_int_clear_precedes_commit(deadline: u64)
    ensures
        exists|k: int|
            0 <= k < cycle_writes(deadline).len()
                && #[trigger] cycle_writes(deadline)[k] == RegWrite::SleepIntClear
                && forall|i: int|
                    0 <= i < cycle_writes(deadline).len()
                        && #[trigger] cycle_writes(deadline)[i] == RegWrite::SleepCommit
                        ==> k < i,
{
    let t = cycle_writes(deadline);
    assert(t[6] == RegWrite::SleepIntClear);
    assert forall|i: int| 0 <= i < t.len() && #[trigger] t[i] == RegWrite::SleepCommit
        implies 6 < i by {
    }
    assert(0 <= 6 < t.len() && t[6int] == RegWrite::SleepIntClear
        && forall|i: int| 0 <= i < t.len() && #[trigger] t[i] == RegWrite::SleepCommit ==> 6 < i);
}

} // verus!
