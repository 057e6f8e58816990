//! Core of a minimal 64-bit x86 kernel, modelled as verified data and logic.
//!
//! The crate covers the interrupt-vector table and its per-vector bindings,
//! the cascaded interrupt-controller remap and acknowledgement protocol, the
//! interval-timer programming, the text-mode display driver with its
//! ring-buffered scrollback store, and the fixed-capacity event queue that
//! carries UI intents from interrupt context to the main loop.
//!
//! Hardware effects (port writes, table-register loads) are represented as
//! data: functions compute the exact byte sequences to emit, and the
//! unverified shell around the crate performs them.

pub mod common;
pub mod event;
pub mod gdt;
pub mod idt;
pub mod multiboot_header;
pub mod pic;
pub mod pit;
pub mod qemu;
pub mod vga;
