//! Resolution of the chip's 7-bit I2C slave address from the state of its
//! three address-select strap pins.

use vstd::prelude::*;

verus! {

/// Represents the address of a connected TCA9555
#[derive(Copy, Clone, Debug, PartialEq, Eq, Structural)]
pub enum DeviceAddr {
    /// Default address when all address pins are connected to GND (0x20)
    Default,
    /// Set an alternative address with the values of the (A0, A1, A2)
    /// pins
    Alternative(bool, bool, bool),
}

impl DeviceAddr {
    /// Address driven on the bus when all three strap pins are grounded.
    pub const DEFAULT: u8 = 0x20;

    /// The 7-bit slave address that a selection resolves to: the base
    /// address with the three strap pins as its low-order bits.
    pub open spec fn spec_addr(self) -> u8 {
        match self {
            DeviceAddr::Default => DeviceAddr::DEFAULT,
            DeviceAddr::Alternative(a0, a1, a2) => DeviceAddr::DEFAULT | (if a0 {
                1u8
            } else {
                0u8
            }) | ((if a1 {
                1u8
            } else {
                0u8
            }) << 1u8) | ((if a2 {
                1u8
            } else {
                0u8
            }) << 2u8),
        }
    }

    /// Get the raw address
    pub fn addr(self) -> (r: u8)
        ensures
            r == self.spec_addr(),
            0x20 <= r <= 0x27,
    {
        match self {
            DeviceAddr::Default => DeviceAddr::DEFAULT,
            DeviceAddr::Alternative(a0, a1, a2) => {
                let b0: u8 = if a0 { 1 } else { 0 };
                let b1: u8 = if a1 { 1 } else { 0 };
                let b2: u8 = if a2 { 1 } else { 0 };
                let r: u8 = DeviceAddr::DEFAULT | b0 | (b1 << 1u8) | (b2 << 2u8);
                proof {
                    assert(0x20 <= (0x20u8 | b0 | (b1 << 1u8) | (b2 << 2u8)) <= 0x27)
                        by (bit_vector)
                        requires
                            b0 <= 1 && b1 <= 1 && b2 <= 1,
                    ;
                }
                r
            },
        }
    }
}

impl Default for DeviceAddr {
    /// The default selection: all strap pins grounded.
    fn default() -> (r: Self)
        ensures
            r == DeviceAddr::Default,
    {
        DeviceAddr::Default
    }
}

/// The "default" selection behaves exactly like the explicit selection
/// with all three strap pins grounded: both resolve to the base address.
pub proof fn lemma_default_addr_is_all_pins_grounded()
    ensures
        DeviceAddr::Default.spec_addr() == DeviceAddr::Alternative(false, false, false).spec_addr(),
{
    assert(0x20u8 | 0u8 | (0u8 << 1u8) | (0u8 << 2u8) == 0x20u8) by (bit_vector);
}

} // verus!
