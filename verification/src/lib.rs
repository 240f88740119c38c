//! A cycle-accurate core of the MOS 6502 as found in the NES (no decimal mode).
//!
//! The processor is a state machine that advances by exactly one bus cycle per
//! call of [`clock`]. The core never touches memory itself. For each cycle the
//! host
//!
//! 1. samples the interrupt lines if [`Cpu::poll_point`] says so, and hands
//!    what it found to [`raise_interrupt`];
//! 2. asks [`Cpu::bus_access`] for the cycle's one access and carries it out on
//!    its own bus;
//! 3. calls [`clock`] with the byte that was read.

pub mod cpu;

pub use crate::cpu::interrupts::Interrupt;
pub use crate::cpu::{clock, new_cpu, raise_interrupt, Cpu};
