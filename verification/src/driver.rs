//! The register protocol driver: translates port-level operations into
//! command-addressed register transactions on the bus.

use vstd::prelude::*;

use crate::address::DeviceAddr;
use crate::command::CONFIGURATION_PORT_0;
use crate::command::CONFIGURATION_PORT_1;
use crate::command::POLARITY_INVERT_PORT_0;
use crate::command::POLARITY_INVERT_PORT_1;
use crate::command::READ_PORT_0;
use crate::command::READ_PORT_1;
use crate::command::WRITE_PORT_0;
use crate::command::WRITE_PORT_1;
use crate::transport::high_byte;
use crate::transport::lemma_ports_of_word;
use crate::transport::low_byte;
use crate::transport::word_from_ports;
use crate::transport::I2cBus;
use crate::transport::I2cWrite;
use crate::transport::I2cWriteRead;
use crate::transport::Transaction;

verus! {

/// The transaction a driver at address `a` issues to write `value` into
/// the register selected by `command`.
pub open spec fn write_txn(a: DeviceAddr, command: u8, value: u8) -> Transaction {
    Transaction::Write { addr: a.spec_addr(), data: seq![command, value] }
}

/// The transaction a driver at address `a` issues to read the register
/// selected by `command`, with the byte the device answered.
pub open spec fn read_txn(a: DeviceAddr, command: u8, response: u8) -> Transaction {
    Transaction::WriteRead { addr: a.spec_addr(), data: seq![command], response }
}

/// Type alias for TCA9555. Both chips implement the same I2C commands
/// so in theory are interchangeable here. Use with a TCA9535 has not
/// been tested.
pub type Tca9535<I2C> = Tca9555<I2C>;

/// TCA9555 device
pub struct Tca9555<I2C> {
    address: DeviceAddr,
    i2c: I2C,
}

impl<I2C: I2cBus> Tca9555<I2C> {
    /// The address selection this driver was constructed with.
    pub closed spec fn device_address(self) -> DeviceAddr {
        self.address
    }

    /// The transactions the driver's transport has completed so far.
    pub closed spec fn transactions(self) -> Seq<Transaction> {
        self.i2c.log()
    }

    /// The errors the driver's transport has reported so far. An
    /// operation that fails appends exactly one entry: the error value it
    /// returns. The transport's error is propagated unchanged, nothing is
    /// retried, and no further exchange is attempted in that operation.
    pub closed spec fn errors(self) -> Seq<I2C::BusError> {
        self.i2c.error_log()
    }

    /// Create a TCA9555 device with the given address
    pub fn new(i2c: I2C, address: DeviceAddr) -> (r: Self)
        ensures
            r.device_address() == address,
            r.transactions() == i2c.log(),
            r.errors() == i2c.error_log(),
    {
        Self { i2c, address }
    }

    /// Give the transport back, consuming the driver.
    pub fn release(self) -> (r: I2C)
        ensures
            r.log() == self.transactions(),
            r.error_log() == self.errors(),
    {
        self.i2c
    }
}

impl<I2C: I2cWriteRead> Tca9555<I2C> {
    /// Sends one read command byte and reads one byte back, as a single
    /// transaction addressed to this driver's device.
    fn read_register(&mut self, command: u8) -> (r: Result<u8, I2C::BusError>)
        ensures
            final(self).device_address() == old(self).device_address(),
            r matches Ok(b) ==> final(self).transactions() == old(self).transactions().push(
                read_txn(old(self).device_address(), command, b),
            ),
            r is Ok ==> final(self).errors() == old(self).errors(),
            r matches Err(e) ==> final(self).transactions() == old(self).transactions() && final(
                self).errors() == old(self).errors().push(e),
    {
        let mut out: Vec<u8> = Vec::new();
        out.push(command);
        proof {
            assert(out@ =~= seq![command]);
        }
        let address = self.address.addr();
        self.i2c.bus_write_read_byte(address, &out)
    }

    /// Read input port 0 in full, returning a u8. Reads the current logic
    /// level of the pins, regardless of whether they have been configured
    /// as inputs or outputs
    pub fn read_port_0(&mut self) -> (r: Result<u8, I2C::BusError>)
        ensures
            final(self).device_address() == old(self).device_address(),
            r matches Ok(b) ==> final(self).transactions() == old(self).transactions().push(
                read_txn(old(self).device_address(), READ_PORT_0, b),
            ),
            r is Ok ==> final(self).errors() == old(self).errors(),
            r matches Err(e) ==> final(self).transactions() == old(self).transactions() && final(
                self).errors() == old(self).errors().push(e),
    {
        self.read_register(READ_PORT_0)
    }

    /// Read input port 1 in full, returning a u8. Reads the current logic
    /// level of the pins, regardless of whether they have been configured
    /// as inputs or outputs
    pub fn read_port_1(&mut self) -> (r: Result<u8, I2C::BusError>)
        ensures
            final(self).device_address() == old(self).device_address(),
            r matches Ok(b) ==> final(self).transactions() == old(self).transactions().push(
                read_txn(old(self).device_address(), READ_PORT_1, b),
            ),
            r is Ok ==> final(self).errors() == old(self).errors(),
            r matches Err(e) ==> final(self).transactions() == old(self).transactions() && final(
                self).errors() == old(self).errors().push(e),
    {
        self.read_register(READ_PORT_1)
    }

    /// Read both input ports in turn, combining their values into a u16.
    /// Reads the current logic level of the pins, regardless of whether
    /// they have been configured as inputs or outputs.
    ///
    /// The two ports are read in two separate transactions, port 0 first;
    /// a pin change between the two reads is reflected inconsistently, as
    /// the hardware has no combined 16-bit read.
    pub fn read_all(&mut self) -> (r: Result<u16, I2C::BusError>)
        ensures
            final(self).device_address() == old(self).device_address(),
            r matches Ok(v) ==> final(self).transactions() == old(self).transactions().push(
                read_txn(old(self).device_address(), READ_PORT_0, low_byte(v)),
            ).push(read_txn(old(self).device_address(), READ_PORT_1, high_byte(v))) && final(
                self).errors() == old(self).errors(),
            r matches Err(e) ==> final(self).errors() == old(self).errors().push(e) && (final(
                self).transactions() == old(self).transactions() || (exists|b0: u8|
                final(self).transactions() == old(self).transactions().push(
                    #[trigger] read_txn(old(self).device_address(), READ_PORT_0, b0),
                ))),
    {
        let port0 = match self.read_port_0() {
            Ok(b) => b,
            Err(e) => {
                return Err(e);
            },
        };
        let port1 = match self.read_port_1() {
            Ok(b) => b,
            Err(e) => {
                return Err(e);
            },
        };
        let v: u16 = ((port1 as u16) << 8u16) | (port0 as u16);
        proof {
            assert(v == word_from_ports(port1, port0));
            lemma_ports_of_word(port1, port0);
        }
        Ok(v)
    }
}

impl<I2C: I2cWrite> Tca9555<I2C> {
    /// Sends one write command byte followed by one value byte, as a single
    /// transaction addressed to this driver's device.
    fn write_register(&mut self, command: u8, value: u8) -> (r: Result<(), I2C::BusError>)
        ensures
            final(self).device_address() == old(self).device_address(),
            r is Ok ==> final(self).transactions() == old(self).transactions().push(
                write_txn(old(self).device_address(), command, value),
            ),
            r is Ok ==> final(self).errors() == old(self).errors(),
            r matches Err(e) ==> final(self).transactions() == old(self).transactions() && final(
                self).errors() == old(self).errors().push(e),
    {
        let mut out: Vec<u8> = Vec::new();
        out.push(command);
        out.push(value);
        proof {
            assert(out@ =~= seq![command, value]);
        }
        let address = self.address.addr();
        self.i2c.bus_write(address, &out)
    }

    /// Write the given byte to port 0. Has no effect on pins which have
    /// been configured as inputs.
    pub fn write_port_0(&mut self, value: u8) -> (r: Result<(), I2C::BusError>)
        ensures
            final(self).device_address() == old(self).device_address(),
            r is Ok ==> final(self).transactions() == old(self).transactions().push(
                write_txn(old(self).device_address(), WRITE_PORT_0, value),
            ),
            r is Ok ==> final(self).errors() == old(self).errors(),
            r matches Err(e) ==> final(self).transactions() == old(self).transactions() && final(
                self).errors() == old(self).errors().push(e),
    {
        self.write_register(WRITE_PORT_0, value)
    }

    /// Set the port 0 direction register. Bits set to 0 are in output
    /// mode, while bits set to 1 are in input mode.
    pub fn set_port_0_direction(&mut self, dir_mask: u8) -> (r: Result<(), I2C::BusError>)
        ensures
            final(self).device_address() == old(self).device_address(),
            r is Ok ==> final(self).transactions() == old(self).transactions().push(
                write_txn(old(self).device_address(), CONFIGURATION_PORT_0, dir_mask),
            ),
            r is Ok ==> final(self).errors() == old(self).errors(),
            r matches Err(e) ==> final(self).transactions() == old(self).transactions() && final(
                self).errors() == old(self).errors().push(e),
    {
        self.write_register(CONFIGURATION_PORT_0, dir_mask)
    }

    /// Set the port 0 polarity inversion register. Bits set to 1 have
    /// their polarity inverted
    pub fn set_port_0_polarity_invert(&mut self, polarity_mask: u8) -> (r: Result<
        (),
        I2C::BusError,
    >)
        ensures
            final(self).device_address() == old(self).device_address(),
            r is Ok ==> final(self).transactions() == old(self).transactions().push(
                write_txn(old(self).device_address(), POLARITY_INVERT_PORT_0, polarity_mask),
            ),
            r is Ok ==> final(self).errors() == old(self).errors(),
            r matches Err(e) ==> final(self).transactions() == old(self).transactions() && final(
                self).errors() == old(self).errors().push(e),
    {
        self.write_register(POLARITY_INVERT_PORT_0, polarity_mask)
    }

    /// Write the given byte to port 1. Has no effect on pins which have
    /// been configured as inputs.
    pub fn write_port_1(&mut self, value: u8) -> (r: Result<(), I2C::BusError>)
        ensures
            final(self).device_address() == old(self).device_address(),
            r is Ok ==> final(self).transactions() == old(self).transactions().push(
                write_txn(old(self).device_address(), WRITE_PORT_1, value),
            ),
            r is Ok ==> final(self).errors() == old(self).errors(),
            r matches Err(e) ==> final(self).transactions() == old(self).transactions() && final(
                self).errors() == old(self).errors().push(e),
    {
        self.write_register(WRITE_PORT_1, value)
    }

    /// Set the port 1 direction register. Bits set to 0 are in output
    /// mode, while bits set to 1 are in input mode.
    pub fn set_port_1_direction(&mut self, dir_mask: u8) -> (r: Result<(), I2C::BusError>)
        ensures
            final(self).device_address() == old(self).device_address(),
            r is Ok ==> final(self).transactions() == old(self).transactions().push(
                write_txn(old(self).device_address(), CONFIGURATION_PORT_1, dir_mask),
            ),
            r is Ok ==> final(self).errors() == old(self).errors(),
            r matches Err(e) ==> final(self).transactions() == old(self).transactions() && final(
                self).errors() == old(self).errors().push(e),
    {
        self.write_register(CONFIGURATION_PORT_1, dir_mask)
    }

    /// Set the port 1 polarity inversion register. Bits set to 1 have
    /// their polarity inverted
    pub fn set_port_1_polarity_invert(&mut self, polarity_mask: u8) -> (r: Result<
        (),
        I2C::BusError,
    >)
        ensures
            final(self).device_address() == old(self).device_address(),
            r is Ok ==> final(self).transactions() == old(self).transactions().push(
                write_txn(old(self).device_address(), POLARITY_INVERT_PORT_1, polarity_mask),
            ),
            r is Ok ==> final(self).errors() == old(self).errors(),
            r matches Err(e) ==> final(self).transactions() == old(self).transactions() && final(
                self).errors() == old(self).errors().push(e),
    {
        self.write_register(POLARITY_INVERT_PORT_1, polarity_mask)
    }

    /// Write the given u16 across all 16 output pins.
    ///
    /// The low byte goes to port 0 first, then the high byte to port 1.
    /// If the port-0 write succeeds but the port-1 write fails, port 0 is
    /// left updated and the failure is reported; no rollback is attempted,
    /// as the hardware has no transactional write of both ports.
    pub fn write_all(&mut self, value: u16) -> (r: Result<(), I2C::BusError>)
        ensures
            final(self).device_address() == old(self).device_address(),
            r is Ok ==> final(self).transactions() == old(self).transactions().push(
                write_txn(old(self).device_address(), WRITE_PORT_0, low_byte(value)),
            ).push(write_txn(old(self).device_address(), WRITE_PORT_1, high_byte(value))) && final(
                self).errors() == old(self).errors(),
            r matches Err(e) ==> final(self).errors() == old(self).errors().push(e) && (final(
                self).transactions() == old(self).transactions() || final(self).transactions()
                == old(self).transactions().push(
                write_txn(old(self).device_address(), WRITE_PORT_0, low_byte(value)),
            )),
    {
        proof {
            assert(value & 0xff < 256 && value >> 8u16 < 256) by (bit_vector);
        }
        let lo: u8 = (value & 0xff) as u8;
        let hi: u8 = (value >> 8u16) as u8;
        match self.write_port_0(lo) {
            Ok(_) => {},
            Err(e) => {
                return Err(e);
            },
        }
        self.write_port_1(hi)
    }
}

} // verus!
