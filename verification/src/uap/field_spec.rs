//! FSPEC octet: seven presence bits and a field-extension (FX) bit.
//!
//! Bit index 1 is the most significant bit of the octet (FRN slot 1 of the
//! octet's group); bit index 8 is the least significant bit, reserved as FX.

use vstd::prelude::*;

verus! {

/// Place value of bit `index` within an octet, where index 1 is the most
/// significant bit and index 8 the least significant.
pub open spec fn bit_divisor(index: int) -> int {
    if index == 1 {
        128
    } else if index == 2 {
        64
    } else if index == 3 {
        32
    } else if index == 4 {
        16
    } else if index == 5 {
        8
    } else if index == 6 {
        4
    } else if index == 7 {
        2
    } else {
        1
    }
}

/// Whether bit `index` (1 = MSB .. 8 = LSB) of `b` is set.
pub open spec fn byte_bit(b: u8, index: int) -> bool {
    (b as int / bit_divisor(index)) % 2 == 1
}

/// `b` with bit `index` set.
pub open spec fn set_bit(b: u8, index: int) -> u8 {
    if byte_bit(b, index) {
        b
    } else {
        (b + bit_divisor(index)) as u8
    }
}

// Primary Subfield
// | 8 | 7 | 6 | 5 | 4 | 3 | 2 | 1 | bit
// |SF1|SF2|SF3|SF4|SF5|SF6|SF7| FX| subfield
#[derive(Default, Debug, PartialEq, Clone, Copy)]
pub struct FieldSpec {
    pub fspec: u8,  // 1 byte
}

impl FieldSpec {
    /// Octet length on the wire.
    pub const MESSAGE_LENGTH: usize = 1;

    pub fn new() -> (r: Self)
        ensures
            r.fspec == 0,
    {
        Self { fspec: 0 }
    }

    /// Convert byte stream to struct.
    pub fn from_bytes(&mut self, array: &[u8; 1])
        ensures
            final(self).fspec == array[0],
    {
        self.fspec = array[0];
    }

    /// Convert struct to byte stream.
    pub fn to_bytes(&self) -> (r: [u8; 1])
        ensures
            r[0] == self.fspec,
    {
        [self.fspec]
    }

    /// Create fixed length array from slice.
    pub fn array_of_byte_message(array: &[u8]) -> (r: [u8; 1])
        requires
            array@.len() == 1,
        ensures
            r[0] == array[0],
    {
        [array[0]]
    }

    /// Set fspec as bit field.
    pub fn set_fspec(&mut self, fspec: u8)
        ensures
            final(self).fspec == fspec,
    {
        self.fspec = fspec;
    }

    /// Get fspec as bit field.
    pub fn get_fspec(&self) -> (r: u8)
        ensures
            r == self.fspec,
    {
        self.fspec
    }

    /// Set fspec bit value to 1 at index (1 = MSB .. 8 = LSB = FX);
    /// any other index leaves the octet unchanged.
    pub fn set_fspec_bit(&mut self, index: u8)
        ensures
            final(self).fspec == if 1 <= index <= 8 {
                set_bit(old(self).fspec, index as int)
            } else {
                old(self).fspec
            },
    {
        if 1 <= index && index <= 8 {
            match index {
                1 => {
                    if (self.fspec / 128) % 2 == 0 {
                        self.fspec = self.fspec + 128;
                    }
                },
                2 => {
                    if (self.fspec / 64) % 2 == 0 {
                        self.fspec = self.fspec + 64;
                    }
                },
                3 => {
                    if (self.fspec / 32) % 2 == 0 {
                        self.fspec = self.fspec + 32;
                    }
                },
                4 => {
                    if (self.fspec / 16) % 2 == 0 {
                        self.fspec = self.fspec + 16;
                    }
                },
                5 => {
                    if (self.fspec / 8) % 2 == 0 {
                        self.fspec = self.fspec + 8;
                    }
                },
                6 => {
                    if (self.fspec / 4) % 2 == 0 {
                        self.fspec = self.fspec + 4;
                    }
                },
                7 => {
                    if (self.fspec / 2) % 2 == 0 {
                        self.fspec = self.fspec + 2;
                    }
                },
                _ => {
                    if self.fspec % 2 == 0 {
                        self.fspec = self.fspec + 1;
                    }
                },
            }
        }
    }

    /// Get fspec bit value at index (1 = MSB .. 8 = LSB = FX);
    /// any other index reads as false.
    pub fn get_fspec_bit(&self, index: u8) -> (r: bool)
        ensures
            r == (1 <= index <= 8 && byte_bit(self.fspec, index as int)),
    {
        if 1 <= index && index <= 8 {
            match index {
                1 => (self.fspec / 128) % 2 == 1,
                2 => (self.fspec / 64) % 2 == 1,
                3 => (self.fspec / 32) % 2 == 1,
                4 => (self.fspec / 16) % 2 == 1,
                5 => (self.fspec / 8) % 2 == 1,
                6 => (self.fspec / 4) % 2 == 1,
                7 => (self.fspec / 2) % 2 == 1,
                _ => self.fspec % 2 == 1,
            }
        } else {
            false
        }
    }
}

} // verus!
