//! Bring-up and steady-state coordination core of a bare-metal multi-core
//! kernel, with the coordination logic verified.
//!
//! The hardware drivers themselves (GPIO, serial, mailbox, interrupt
//! controller) are external collaborators: this crate decides *what* to do —
//! which pin each core drives, how the staged bring-up chain short-circuits
//! on failure, what the timer interrupt handler must write — and a host
//! performs those actions against the hardware.

pub mod actions;
pub mod bringup;
pub mod cell;
pub mod irq;
pub mod lifecycle;
pub mod pins;
pub mod registers;
pub mod steady;
