//! The transport capability interfaces the driver depends on, and the
//! mathematical model of a bus transaction.
//!
//! A transport is any object that can write bytes to a slave address and,
//! optionally, write bytes and then read a response in one combined
//! transaction. The ghost transaction log of a transport records every
//! exchange that completed on the bus, so that a driver operation's
//! contract can state exactly which transactions it issued, in order.

use vstd::prelude::*;

verus! {

/// One completed exchange on the I2C bus, as the protocol layer sees it.
pub enum Transaction {
    /// Bytes sent to a slave address.
    Write { addr: u8, data: Seq<u8> },
    /// Bytes sent to a slave address, followed by a one-byte response read
    /// back in the same transaction.
    WriteRead { addr: u8, data: Seq<u8>, response: u8 },
}

/// A transport that keeps a ghost log of the transactions that completed
/// on the bus. The log only ever grows; a failed exchange records nothing.
pub trait I2cBus: Sized {
    /// The transport's own error type, propagated unchanged by the driver.
    type BusError;

    /// All transactions that have completed on the bus so far, oldest first.
    ///
    /// The default records nothing, which no implementation of the two
    /// capabilities below can satisfy: an implementation whose behaviour
    /// is reasoned about must give the log a body of its own. Unverified
    /// implementations, which nothing is proved about, may keep the
    /// default.
    open spec fn log(&self) -> Seq<Transaction> {
        Seq::empty()
    }

    /// Every error the transport has reported so far, oldest first: one
    /// entry for each exchange that failed. An operation that propagates a
    /// transport failure unchanged appends exactly one entry here — the
    /// value it returns — and no retry can hide behind it.
    ///
    /// As with `log`, the default records nothing and is only for
    /// implementations that nothing is proved about.
    open spec fn error_log(&self) -> Seq<Self::BusError> {
        Seq::empty()
    }
}

/// The capability to write bytes to a device.
pub trait I2cWrite: I2cBus {
    /// Sends `bytes` to the device at `address` as one transaction.
    /// On success the transaction is appended to the log; on failure the
    /// log is unchanged and the one error the exchange reported is both
    /// appended to the error log and returned.
    fn bus_write(&mut self, address: u8, bytes: &Vec<u8>) -> (r: Result<(), Self::BusError>)
        ensures
            r is Ok ==> final(self).log() == old(self).log().push(
                Transaction::Write { addr: address, data: bytes@ },
            ) && final(self).error_log() == old(self).error_log(),
            r matches Err(e) ==> final(self).log() == old(self).log() && final(self).error_log()
                == old(self).error_log().push(e),
    ;
}

/// The capability to write bytes and then read one byte back, as one
/// combined transaction.
pub trait I2cWriteRead: I2cBus {
    /// Sends `bytes` to the device at `address`, then reads one byte back
    /// in the same transaction. On success the transaction, including the
    /// byte read back, is appended to the log; on failure the log is
    /// unchanged and the one error the exchange reported is both appended
    /// to the error log and returned.
    fn bus_write_read_byte(&mut self, address: u8, bytes: &Vec<u8>) -> (r: Result<
        u8,
        Self::BusError,
    >)
        ensures
            r matches Ok(b) ==> final(self).log() == old(self).log().push(
                Transaction::WriteRead { addr: address, data: bytes@, response: b },
            ) && final(self).error_log() == old(self).error_log(),
            r matches Err(e) ==> final(self).log() == old(self).log() && final(self).error_log()
                == old(self).error_log().push(e),
    ;
}

/// The low byte of a combined 16-bit port value: port 0.
pub open spec fn low_byte(v: u16) -> u8 {
    (v & 0xff) as u8
}

/// The high byte of a combined 16-bit port value: port 1.
pub open spec fn high_byte(v: u16) -> u8 {
    (v >> 8u16) as u8
}

/// Both ports composed into one 16-bit value, port 1 in the high byte and
/// port 0 in the low byte.
pub open spec fn word_from_ports(port1: u8, port0: u8) -> u16 {
    ((port1 as u16) << 8u16) | (port0 as u16)
}

/// Composing two port bytes and taking the word apart again yields the
/// bytes that went in.
pub proof fn lemma_ports_of_word(port1: u8, port0: u8)
    ensures
        low_byte(word_from_ports(port1, port0)) == port0,
        high_byte(word_from_ports(port1, port0)) == port1,
{
    assert(((((port1 as u16) << 8u16) | (port0 as u16)) & 0xff) as u8 == port0) by (bit_vector);
    assert(((((port1 as u16) << 8u16) | (port0 as u16)) >> 8u16) as u8 == port1) by (bit_vector);
}

/// Taking a word apart into its two port bytes and composing them again
/// yields the word that went in.
pub proof fn lemma_word_of_ports(v: u16)
    ensures
        word_from_ports(high_byte(v), low_byte(v)) == v,
{
    assert((((v >> 8u16) as u8 as u16) << 8u16) | ((v & 0xff) as u8 as u16) == v) by (bit_vector);
}

} // verus!
