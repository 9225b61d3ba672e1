//! Driver logic for the TCA9555/TCA9535 16-port I/O expander.
//!
//! The chip exposes two 8-bit GPIO ports behind eight command-addressed
//! registers on an I2C bus. This crate contains the device-addressing
//! scheme, the register-command protocol layer, and a register-level
//! simulation of the chip that exercises the protocol without hardware.

pub mod address;
pub mod command;
pub mod driver;
pub mod sim;
pub mod transport;

pub use address::DeviceAddr;
pub use command::CONFIGURATION_PORT_0;
pub use command::CONFIGURATION_PORT_1;
pub use command::POLARITY_INVERT_PORT_0;
pub use command::POLARITY_INVERT_PORT_1;
pub use command::READ_PORT_0;
pub use command::READ_PORT_1;
pub use command::WRITE_PORT_0;
pub use command::WRITE_PORT_1;
pub use driver::Tca9535;
pub use driver::Tca9555;
pub use sim::ChipState;
pub use sim::Frame;
pub use sim::SimBus;
pub use transport::I2cBus;
pub use transport::I2cWrite;
pub use transport::I2cWriteRead;
pub use transport::Transaction;
