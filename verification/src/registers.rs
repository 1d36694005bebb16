//! Model of the register fields the sleep controller touches.
//!
//! The controller owns a single memory-mapped block for the whole sequence,
//! so its effect can be described as plain state: one field per register bit
//! or bit-field, plus a log of the writes in the order they were issued.  The
//! log is what lets the programming *order* be stated and checked, not only
//! the final register state.

use vstd::prelude::*;

verus! {

/// One write issued by the sleep controller, in program order.
#[derive(Clone, Copy, PartialEq, Eq, Debug)]
pub enum RegWrite {
    /// Disarm the super watchdog.
    SwdDisable,
    /// Disarm the RTC watchdog.
    RwdtDisable,
    /// Disarm the timer-group-0 watchdog.
    Wdt0Disable,
    /// Disarm the timer-group-1 watchdog.
    Wdt1Disable,
    /// Set `dig_pwc.dg_wrap_pd_en`: power the digital core down during sleep.
    DigPowerDown,
    /// Write the wake-source mask `wakeup_state.wakeup_ena`.
    WakeMask(u8),
    /// Clear the pending sleep-reject and sleep-wakeup interrupts, both in
    /// one write to `int_clr_rtc`.
    SleepIntClear,
    /// Write the low 32 bits of the wake deadline to `slp_timer0`.
    AlarmLow(u32),
    /// Write the high 16 bits of the wake deadline to `slp_timer1.slp_val_hi`.
    AlarmHigh(u16),
    /// Set `slp_timer1.main_timer_alarm_en`: arm the wake alarm.
    AlarmEnable,
    /// Clear the sleep-entry acknowledgement interrupt, bit 8 of `int_clr_rtc`.
    SleepAckClear,
    /// Set `state0.sleep_en`: commit the chip to sleep.
    SleepCommit,
}

/// The registers the sleep sequence reads and writes, as plain state.
///
/// `slp_timer0` and `slp_timer1.slp_val_hi` are shared registers: read, they
/// hold the two halves of the free-running 48-bit counter; written, they take
/// the two halves of the wake deadline.  The interrupt-clear bits are kept
/// sticky here — the field records that the clear was issued at least once —
/// since that is what matters to the protocol.
pub struct RtcControl {
    /// `slp_timer0`: low 32 bits of the counter / of the wake deadline.
    pub slp_timer_low: u32,
    /// `slp_timer1.slp_val_hi`: high 16 bits of the counter / of the deadline.
    pub slp_timer_high: u16,
    /// `dig_pwc.dg_wrap_pd_en`: power the digital core down during sleep.
    pub dig_pd_en: bool,
    /// `wakeup_state.wakeup_ena`: 4-bit wake-source mask.
    pub wakeup_ena: u8,
    /// A clear of the pending sleep-reject interrupt was issued.
    pub slp_reject_cleared: bool,
    /// A clear of the pending sleep-wakeup interrupt was issued.
    pub slp_wakeup_cleared: bool,
    /// A clear of the sleep-entry acknowledgement interrupt was issued.
    pub sleep_ack_cleared: bool,
    /// `slp_timer1.main_timer_alarm_en`: the wake alarm is armed.
    pub alarm_en: bool,
    /// `state0.sleep_en`: the chip is committed to entering sleep.
    pub sleep_en: bool,
    /// The super watchdog is armed.
    pub swd_en: bool,
    /// The RTC watchdog is armed.
    pub rwdt_en: bool,
    /// The timer-group-0 watchdog is armed.
    pub wdt0_en: bool,
    /// The timer-group-1 watchdog is armed.
    pub wdt1_en: bool,
    /// Every write issued so far, oldest first.
    pub writes: Vec<RegWrite>,
}

impl RtcControl {
    /// The wake-source mask is a 4-bit field.
    pub open spec fn wf(self) -> bool {
        self.wakeup_ena < 0x10
    }

    /// Fresh boot state: all watchdogs armed, nothing programmed, counter at
    /// the given value, empty write log.
    pub fn new(counter_low: u32, counter_high: u16) -> (r: RtcControl)
        ensures
            r.wf(),
            r.slp_timer_low == counter_low,
            r.slp_timer_high == counter_high,
            !r.dig_pd_en,
            r.wakeup_ena == 0u8,
            !r.slp_reject_cleared,
            !r.slp_wakeup_cleared,
            !r.sleep_ack_cleared,
            !r.alarm_en,
            !r.sleep_en,
            r.swd_en,
            r.rwdt_en,
            r.wdt0_en,
            r.wdt1_en,
            r.writes@ == Seq::<RegWrite>::empty(),
    {
        let r = RtcControl {
            slp_timer_low: counter_low,
            slp_timer_high: counter_high,
            dig_pd_en: false,
            wakeup_ena: 0u8,
            slp_reject_cleared: false,
            slp_wakeup_cleared: false,
            sleep_ack_cleared: false,
            alarm_en: false,
            sleep_en: false,
            swd_en: true,
            rwdt_en: true,
            wdt0_en: true,
            wdt1_en: true,
            writes: Vec::new(),
        };
        proof {
            assert(r.writes@ =~= Seq::<RegWrite>::empty());
        }
        r
    }
}

} // verus!
