//! Architecture-specific userspace/kernel boundary for a Cortex-M style
//! embedded kernel.
//!
//! The crate models the mechanism that crosses the privilege boundary
//! between the kernel and an isolated user process:
//!
//! - the per-process saved register record and its binary snapshot format
//!   ([`state`]),
//! - a bounds-checked view of the process's accessible memory
//!   ([`memory`]),
//! - the system-call and return-value encodings the boundary transports
//!   across it ([`syscall`]),
//! - the packed-syscall batcher, the context-switch classification logic
//!   and the diagnostic snapshot ([`boundary`]),
//! - the hardware-interface types for date-time and WiFi devices
//!   ([`date_time`], [`wifi`]).
//!
//! The one thing the crate does not do is the CPU-level transition
//! itself: that is inline assembly on real hardware. The caller performs
//! it and reports its outcome as a [`boundary::HardwareSwitchResult`];
//! every decision before and after that single blocking step is verified
//! here.

pub mod boundary;
pub mod date_time;
pub mod errorcode;
pub mod memory;
pub mod state;
pub mod syscall;
pub mod wifi;
