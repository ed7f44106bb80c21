//! Hardware abstraction for the SAM3X family: a register field access model,
//! peripheral clock gating, PIO pins, the system clock sequencer, the
//! interrupt vector table and the watchdog.
//!
//! Register blocks are held as in-memory words with the same load/store
//! behaviour as the device, so every sequence of accesses can be checked.

pub mod register;
pub mod pmc;
pub mod peripheral_clock;
pub mod pin;
pub mod system_clock;
pub mod watchdog;
pub mod isr;
