//! Input subsystem of a bare-metal kernel: the PS/2 controller protocol and
//! the keyboard driver on top of it.
//!
//! Nothing here touches a hardware register. Every operation that talks to
//! the controller is a small state machine: it names the register operations
//! the host has to perform and is resumed with the byte that came back.

pub mod keyboard;
pub mod ps2;
