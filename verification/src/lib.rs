//! A verified model of a single-core batch kernel: it loads a fixed table of
//! application images one at a time into a fixed memory window, hands control
//! to each in turn, and services traps (two system calls, a small set of
//! faults) until the table is exhausted.
//!
//! Machine state that only privileged hardware can touch (the register file,
//! the app window, the console) is modelled by plain values, so the kernel's
//! decisions and invariants are stated and proved over those values. The
//! platform boot stub, the privilege-switch instruction sequences and the
//! actual console sit outside the library and drive it through these types.

pub mod batch;
pub mod sync;
pub mod syscall;
pub mod trap;
