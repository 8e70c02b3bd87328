//! Time of Day (I034/030): a big-endian 24-bit count in units of
//! 1/128 seconds.

use vstd::prelude::*;

verus! {

/// The three big-endian octets of a 24-bit value (higher bits are ignored).
pub open spec fn u24_wire(v: u32) -> Seq<u8> {
    seq![((v as int / 65536) % 256) as u8, ((v as int / 256) % 256) as u8, (v as int % 256) as u8]
}

/// The 24-bit value read from three big-endian octets.
pub open spec fn u24_value(b0: u8, b1: u8, b2: u8) -> int {
    65536 * (b0 as int) + 256 * (b1 as int) + b2 as int
}

#[derive(Default, Debug, PartialEq, Clone, Copy)]
pub struct TimeOfDay {
    pub time: u32,  // 24 bits on the wire
}

impl TimeOfDay {
    /// Octet length on the wire.
    pub const MESSAGE_LENGTH: usize = 3;

    /// The stored count fits the 24-bit wire representation.
    pub open spec fn wf(self) -> bool {
        self.time < 0x1000000
    }

    /// The three octets of this field on the wire.
    pub open spec fn wire(self) -> Seq<u8> {
        u24_wire(self.time)
    }

    /// Convert byte stream to struct.
    pub fn from_bytes(&mut self, array: &[u8; 3])
        ensures
            final(self).time as int == u24_value(array[0], array[1], array[2]),
            final(self).wf(),
    {
        self.time = (array[0] as u32) * 65536 + (array[1] as u32) * 256 + (array[2] as u32);
    }

    /// Convert struct to byte stream.
    pub fn to_bytes(&self) -> (r: [u8; 3])
        ensures
            r@ == self.wire(),
    {
        let r = [((self.time / 65536) % 256) as u8, ((self.time / 256) % 256) as u8, (self.time
            % 256) as u8];
        proof {
            assert(r@ =~= self.wire());
        }
        r
    }

    /// Create fixed length array from slice.
    pub fn array_of_byte_message(array: &[u8]) -> (r: [u8; 3])
        requires
            array@.len() == 3,
        ensures
            r@ == array@,
    {
        let r = [array[0], array[1], array[2]];
        proof {
            assert(r@ =~= array@);
        }
        r
    }

    /// Set time, in units of 1/128 seconds; counts are 24 bits wide.
    pub fn set_time(&mut self, time: u32)
        requires
            time < 0x1000000,
        ensures
            final(self).time == time,
            final(self).wf(),
    {
        self.time = time;
    }

    /// Get time, in units of 1/128 seconds.
    pub fn get_time(&self) -> (r: u32)
        ensures
            r == self.time,
    {
        self.time
    }
}

} // verus!
