//! Boot-time deep-sleep controller for an RTC-timer wake-up.
//!
//! The library models the registers that the sleep sequence touches as plain
//! values, together with a log of the writes in the order they are issued.
//! On top of that model it proves the register-level protocol: every watchdog
//! is disarmed before any alarm or commit write, the wake deadline lands in
//! the two alarm registers split exactly as the hardware expects, and the
//! interrupt-clear writes precede the final sleep commit.

pub mod counter;
pub mod registers;
pub mod scheduler;
pub mod watchdog;
