use deep_sleep::counter::RtcCounter;
use deep_sleep::registers::{RegWrite, RtcControl};
use deep_sleep::scheduler::{enter_deep_sleep, SleepScheduler, RTC_TIMER_WAKE_MASK};
use deep_sleep::watchdog::WatchdogGuard;

fn positions(log: &Vec<RegWrite>, pred: fn(&RegWrite) -> bool) -> Vec<usize> {
    let mut out: Vec<usize> = Vec::new();
    for (i, w) in log.iter().enumerate() {
        if pred(w) {
            out.push(i);
        }
    }
    out
}

#[test]
fn now_combines_low_and_high() {
    let regs = RtcControl::new(5, 2);
    assert_eq!(RtcCounter::now(&regs), (2u64 << 32) | 5u64);
}

#[test]
fn now_zero_counter() {
    let regs = RtcControl::new(0, 0);
    assert_eq!(RtcCounter::now(&regs), 0);
}

#[test]
fn now_reads_full_48_bit_range() {
    let regs = RtcControl::new(0xFFFF_FFFF, 0xFFFF);
    assert_eq!(RtcCounter::now(&regs), 0xFFFF_FFFF_FFFF);
}

#[test]
fn disable_all_disarms_every_watchdog() {
    let mut regs = RtcControl::new(0, 0);
    assert!(regs.swd_en && regs.rwdt_en && regs.wdt0_en && regs.wdt1_en);
    WatchdogGuard::disable_all(&mut regs);
    assert!(!regs.swd_en);
    assert!(!regs.rwdt_en);
    assert!(!regs.wdt0_en);
    assert!(!regs.wdt1_en);
    assert_eq!(
        regs.writes,
        vec![
            RegWrite::SwdDisable,
            RegWrite::RwdtDisable,
            RegWrite::Wdt0Disable,
            RegWrite::Wdt1Disable,
        ]
    );
}

#[test]
fn disable_all_is_idempotent() {
    let mut once = RtcControl::new(7, 3);
    WatchdogGuard::disable_all(&mut once);
    let mut thrice = RtcControl::new(7, 3);
    WatchdogGuard::disable_all(&mut thrice);
    WatchdogGuard::disable_all(&mut thrice);
    WatchdogGuard::disable_all(&mut thrice);
    assert_eq!(
        (once.swd_en, once.rwdt_en, once.wdt0_en, once.wdt1_en),
        (thrice.swd_en, thrice.rwdt_en, thrice.wdt0_en, thrice.wdt1_en)
    );
    assert!(!thrice.swd_en && !thrice.rwdt_en && !thrice.wdt0_en && !thrice.wdt1_en);
}

#[test]
fn deadline_from_zero() {
    // now() = 0, offset 5_000_000: the whole deadline fits the low word.
    let mut regs = RtcControl::new(0, 0);
    WatchdogGuard::disable_all(&mut regs);
    SleepScheduler::schedule_and_sleep(&mut regs, 5_000_000);
    assert_eq!(regs.slp_timer_low, 5_000_000);
    assert_eq!(regs.slp_timer_high, 0);
}

#[test]
fn deadline_crosses_word_boundary() {
    // now() = 0xFFFF_FFFF, offset 10: deadline 0x1_0000_0009 splits as 9 / 1.
    let mut regs = RtcControl::new(0xFFFF_FFFF, 0);
    WatchdogGuard::disable_all(&mut regs);
    SleepScheduler::schedule_and_sleep(&mut regs, 10);
    assert_eq!(regs.slp_timer_low, 9);
    assert_eq!(regs.slp_timer_high, 1);
}

#[test]
fn deadline_truncates_past_48_bits() {
    // now() at the 48-bit ceiling plus one tick wraps the alarm to zero: the
    // registers keep only the low 48 bits of the sum.
    let mut regs = RtcControl::new(0xFFFF_FFFF, 0xFFFF);
    WatchdogGuard::disable_all(&mut regs);
    SleepScheduler::schedule_and_sleep(&mut regs, 1);
    assert_eq!(regs.slp_timer_low, 0);
    assert_eq!(regs.slp_timer_high, 0);
}

#[test]
fn wake_mask_is_timer_only_for_any_offset() {
    for offset in [1u64, 10, 5_000_000, 0xFFFF_FFFF, 0xFFFF_FFFF_FFFF] {
        let mut regs = RtcControl::new(123, 45);
        enter_deep_sleep(&mut regs, offset);
        assert_eq!(regs.wakeup_ena, 0x8);
        assert_eq!(regs.wakeup_ena, RTC_TIMER_WAKE_MASK);
    }
}

#[test]
fn cycle_commits_with_alarm_armed_and_core_powered_down() {
    let mut regs = RtcControl::new(0, 0);
    enter_deep_sleep(&mut regs, 5_000_000);
    assert!(regs.dig_pd_en);
    assert!(regs.alarm_en);
    assert!(regs.sleep_en);
    assert!(regs.slp_reject_cleared);
    assert!(regs.slp_wakeup_cleared);
    assert!(regs.sleep_ack_cleared);
}

#[test]
fn int_clears_precede_commit() {
    let mut regs = RtcControl::new(42, 0);
    enter_deep_sleep(&mut regs, 5_000_000);
    let clears = positions(&regs.writes, |w| matches!(w, RegWrite::SleepIntClear));
    let commits = positions(&regs.writes, |w| matches!(w, RegWrite::SleepCommit));
    assert_eq!(clears.len(), 1);
    assert_eq!(commits.len(), 1);
    assert!(clears[0] < commits[0]);
}

#[test]
fn guard_disables_precede_alarm_and_commit_writes() {
    let mut regs = RtcControl::new(9999, 7);
    enter_deep_sleep(&mut regs, 77);
    let guards = positions(
        &regs.writes,
        |w| {
            matches!(
                w,
                RegWrite::SwdDisable
                    | RegWrite::RwdtDisable
                    | RegWrite::Wdt0Disable
                    | RegWrite::Wdt1Disable
            )
        },
    );
    let alarms = positions(
        &regs.writes,
        |w| {
            matches!(
                w,
                RegWrite::AlarmLow(_)
                    | RegWrite::AlarmHigh(_)
                    | RegWrite::AlarmEnable
                    | RegWrite::SleepCommit
            )
        },
    );
    assert_eq!(guards.len(), 4);
    assert_eq!(alarms.len(), 4);
    for g in &guards {
        for a in &alarms {
            assert!(g < a);
        }
    }
}

#[test]
fn full_cycle_write_log_exact() {
    let mut regs = RtcControl::new(0xFFFF_FFFF, 0);
    enter_deep_sleep(&mut regs, 10);
    assert_eq!(
        regs.writes,
        vec![
            RegWrite::SwdDisable,
            RegWrite::RwdtDisable,
            RegWrite::Wdt0Disable,
            RegWrite::Wdt1Disable,
            RegWrite::DigPowerDown,
            RegWrite::WakeMask(0x8),
            RegWrite::SleepIntClear,
            RegWrite::AlarmLow(9),
            RegWrite::AlarmHigh(1),
            RegWrite::AlarmEnable,
            RegWrite::SleepAckClear,
            RegWrite::SleepCommit,
        ]
    );
}

#[test]
fn alarm_registers_read_back_as_deadline() {
    // The timer registers are shared: once the alarm is written, a counter
    // read returns the programmed deadline.
    let mut regs = RtcControl::new(0, 0);
    enter_deep_sleep(&mut regs, 5_000_000);
    assert_eq!(RtcCounter::now(&regs), 5_000_000);
}

#[test]
fn fresh_block_is_unprogrammed() {
    let regs = RtcControl::new(1, 1);
    assert!(!regs.dig_pd_en);
    assert_eq!(regs.wakeup_ena, 0);
    assert!(!regs.alarm_en);
    assert!(!regs.sleep_en);
    assert!(!regs.slp_reject_cleared);
    assert!(!regs.slp_wakeup_cleared);
    assert!(!regs.sleep_ack_cleared);
    assert!(regs.writes.is_empty());
}
