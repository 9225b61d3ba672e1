//! The command byte of each register of the chip. The command byte is the
//! first byte of every transaction and selects the register that the rest
//! of the transaction reads or writes.

use vstd::prelude::*;

verus! {

/// Reads the logic level currently on the port-0 pins.
pub const READ_PORT_0: u8 = 0x00;

/// Reads the logic level currently on the port-1 pins.
pub const READ_PORT_1: u8 = 0x01;

/// Writes the port-0 output register.
pub const WRITE_PORT_0: u8 = 0x02;

/// Writes the port-1 output register.
pub const WRITE_PORT_1: u8 = 0x03;

/// Writes the port-0 polarity inversion register.
pub const POLARITY_INVERT_PORT_0: u8 = 0x04;

/// Writes the port-1 polarity inversion register.
pub const POLARITY_INVERT_PORT_1: u8 = 0x05;

/// Writes the port-0 direction (configuration) register.
pub const CONFIGURATION_PORT_0: u8 = 0x06;

/// Writes the port-1 direction (configuration) register.
pub const CONFIGURATION_PORT_1: u8 = 0x07;

} // verus!
