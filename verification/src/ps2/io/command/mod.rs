//! The one-byte opcodes of the PS/2 protocol, by whom they address.

pub mod controller;
pub mod device;
