//! Antenna Rotation Period (I034/041): a big-endian two-octet count in units
//! of 1/128 seconds.

use vstd::prelude::*;

verus! {

/// The two big-endian octets of a 16-bit value.
pub open spec fn u16_wire(v: u16) -> Seq<u8> {
    seq![(v as int / 256) as u8, (v as int % 256) as u8]
}

#[derive(Default, Debug, PartialEq, Clone, Copy)]
pub struct AntennaRotation {
    pub period: u16,  // 2 bytes
}

impl AntennaRotation {
    /// Octet length on the wire.
    pub const MESSAGE_LENGTH: usize = 2;

    /// The two octets of this field on the wire.
    pub open spec fn wire(self) -> Seq<u8> {
        u16_wire(self.period)
    }

    /// Convert byte stream to struct.
    pub fn from_bytes(&mut self, array: &[u8; 2])
        ensures
            final(self).period as int == 256 * (array[0] as int) + array[1] as int,
    {
        self.period = (array[0] as u16) * 256 + (array[1] as u16);
    }

    /// Convert struct to byte stream.
    pub fn to_bytes(&self) -> (r: [u8; 2])
        ensures
            r@ == self.wire(),
    {
        let r = [(self.period / 256) as u8, (self.period % 256) as u8];
        proof {
            assert(r@ =~= self.wire());
        }
        r
    }

    /// Create fixed length array from slice.
    pub fn array_of_byte_message(array: &[u8]) -> (r: [u8; 2])
        requires
            array@.len() == 2,
        ensures
            r@ == array@,
    {
        let r = [array[0], array[1]];
        proof {
            assert(r@ =~= array@);
        }
        r
    }

    /// Set period, in units of 1/128 seconds.
    pub fn set_period(&mut self, period: u16)
        ensures
            final(self).period == period,
    {
        self.period = period;
    }

    /// Get period, in units of 1/128 seconds.
    pub fn get_period(&self) -> (r: u16)
        ensures
            r == self.period,
    {
        self.period
    }
}

} // verus!
