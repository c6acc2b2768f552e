//! Devices that can be attached to the machine.

pub mod clock_generic;
pub mod keyboard_generic;
pub mod monitor_lem1802;
pub mod floppy_m35fd;
pub mod peripheral;
