//! Disarming the watchdogs before the sleep sequence.
//!
//! Three independent stall guards sit on this chip: the super watchdog, the
//! RTC watchdog and one watchdog per timer group.  Every one of them must be
//! disarmed before the alarm is programmed, or a guard may fire mid-setup and
//! reset the chip before sleep is properly armed.

use vstd::prelude::*;

use crate::registers::{RegWrite, RtcControl};

verus! {

/// The enable state of the four watchdog instances, super watchdog first.
pub open spec fn wdt_state(r: RtcControl) -> (bool, bool, bool, bool) {
    (r.swd_en, r.rwdt_en, r.wdt0_en, r.wdt1_en)
}

/// Every watchdog instance is disarmed.
pub open spec fn wdt_all_disabled(r: RtcControl) -> bool {
    !r.swd_en && !r.rwdt_en && !r.wdt0_en && !r.wdt1_en
}

/// The disable writes, in the order `disable_all` issues them.
pub open spec fn guard_writes() -> Seq<RegWrite> {
    seq![
        RegWrite::SwdDisable,
        RegWrite::RwdtDisable,
        RegWrite::Wdt0Disable,
        RegWrite::Wdt1Disable,
    ]
}

/// Exactly what `disable_all` does to the register state: all four watchdogs
/// end disarmed, the four disable writes are appended to the log, and every
/// other field is untouched.
pub open spec fn disable_all_rel(pre: RtcControl, post: RtcControl) -> bool {
    &&& wdt_all_disabled(post)
    &&& post.writes@ == pre.writes@ + guard_writes()
    &&& post.slp_timer_low == pre.slp_timer_low
    &&& post.slp_timer_high == pre.slp_timer_high
    &&& post.dig_pd_en == pre.dig_pd_en
    &&& post.wakeup_ena == pre.wakeup_ena
    &&& post.slp_reject_cleared == pre.slp_reject_cleared
    &&& post.slp_wakeup_cleared == pre.slp_wakeup_cleared
    &&& post.sleep_ack_cleared == pre.sleep_ack_cleared
    &&& post.alarm_en == pre.alarm_en
    &&& post.sleep_en == pre.sleep_en
}

/// Disarms every watchdog instance before the sleep sequence may proceed.
pub struct WatchdogGuard;

impl WatchdogGuard {
    /// Disarm all four watchdogs.  Writing a disable bit cannot fail, so the
    /// result is the fully disarmed state whatever state the guards were in.
    pub fn disable_all(regs: &mut RtcControl)
        requires
            old(regs).wf(),
        ensures
            final(regs).wf(),
            disable_all_rel(*old(regs), *final(regs)),
    {
        regs.swd_en = false;
        regs.writes.push(RegWrite::SwdDisable);
        regs.rwdt_en = false;
        regs.writes.push(RegWrite::RwdtDisable);
        regs.wdt0_en = false;
        regs.writes.push(RegWrite::Wdt0Disable);
        regs.wdt1_en = false;
        regs.writes.push(RegWrite::Wdt1Disable);
        proof {
            assert(regs.writes@ =~= old(regs).writes@ + guard_writes());
        }
    }
}

/// Disarming the watchdogs is idempotent: along any chain of states produced
/// by repeated `disable_all` passes, every state from the first pass on shows
/// one and the same watchdog enable state — all four instances disarmed.
pub proof fn lemma_disable_all_idempotent(states: Seq<RtcControl>)
    requires
        states.len() >= 2,
        forall|i: int|
            0 <= i < states.len() - 1 ==> disable_all_rel(#[trigger] states[i], states[i + 1]),
    ensures
        forall|i: int| 1 <= i < states.len() ==> wdt_state(#[trigger] states[i]) == wdt_state(states[1]),
        forall|i: int| 1 <= i < states.len() ==> wdt_all_disabled(#[trigger] states[i]),
{
    assert forall|i: int| 1 <= i < states.len() implies wdt_all_disabled(#[trigger] states[i]) by {
        assert(disable_all_rel(states[i - 1], states[i]));
    }
}

} // verus!
