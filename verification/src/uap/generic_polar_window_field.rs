//! Generic Polar Window (I034/100): four big-endian 16-bit values, rho in
//! units of 1/256 nautical miles and theta in units of 360/65536 degrees.

use vstd::prelude::*;
use crate::uap::antenna_rotation_field::u16_wire;

verus! {

#[derive(Default, Debug, PartialEq, Clone, Copy)]
pub struct GenericPolarWindow {
    pub rho_start: u16,  // 2 bytes
    pub rho_end: u16,  // 2 bytes
    pub theta_start: u16,  // 2 bytes
    pub theta_end: u16,  // 2 bytes
}

impl GenericPolarWindow {
    /// Octet length on the wire.
    pub const MESSAGE_LENGTH: usize = 8;

    /// The eight octets of this field on the wire.
    pub open spec fn wire(self) -> Seq<u8> {
        u16_wire(self.rho_start) + u16_wire(self.rho_end) + u16_wire(self.theta_start) + u16_wire(
            self.theta_end,
        )
    }

    /// Convert byte stream to struct.
    pub fn from_bytes(&mut self, array: &[u8; 8])
        ensures
            final(self).rho_start as int == 256 * (array[0] as int) + array[1] as int,
            final(self).rho_end as int == 256 * (array[2] as int) + array[3] as int,
            final(self).theta_start as int == 256 * (array[4] as int) + array[5] as int,
            final(self).theta_end as int == 256 * (array[6] as int) + array[7] as int,
    {
        self.rho_start = (array[0] as u16) * 256 + (array[1] as u16);
        self.rho_end = (array[2] as u16) * 256 + (array[3] as u16);
        self.theta_start = (array[4] as u16) * 256 + (array[5] as u16);
        self.theta_end = (array[6] as u16) * 256 + (array[7] as u16);
    }

    /// Convert struct to byte stream.
    pub fn to_bytes(&self) -> (r: [u8; 8])
        ensures
            r@ == self.wire(),
    {
        let r = [
            (self.rho_start / 256) as u8,
            (self.rho_start % 256) as u8,
            (self.rho_end / 256) as u8,
            (self.rho_end % 256) as u8,
            (self.theta_start / 256) as u8,
            (self.theta_start % 256) as u8,
            (self.theta_end / 256) as u8,
            (self.theta_end % 256) as u8,
        ];
        proof {
            assert(r@ =~= self.wire());
        }
        r
    }

    /// Create fixed length array from slice.
    pub fn array_of_byte_message(array: &[u8]) -> (r: [u8; 8])
        requires
            array@.len() == 8,
        ensures
            r@ == array@,
    {
        let r = [
            array[0],
            array[1],
            array[2],
            array[3],
            array[4],
            array[5],
            array[6],
            array[7],
        ];
        proof {
            assert(r@ =~= array@);
        }
        r
    }

    /// Set rho start and end, in units of 1/256 nautical miles.
    pub fn set_rho(&mut self, start: u16, end: u16)
        ensures
            final(self).rho_start == start,
            final(self).rho_end == end,
            final(self).theta_start == old(self).theta_start,
            final(self).theta_end == old(self).theta_end,
    {
        self.rho_start = start;
        self.rho_end = end;
    }

    /// Get rho start and end, in units of 1/256 nautical miles.
    pub fn get_rho(&self) -> (r: (u16, u16))
        ensures
            r.0 == self.rho_start,
            r.1 == self.rho_end,
    {
        (self.rho_start, self.rho_end)
    }

    /// Set theta start and end, in units of 360/65536 degrees.
    pub fn set_theta(&mut self, start: u16, end: u16)
        ensures
            final(self).theta_start == start,
            final(self).theta_end == end,
            final(self).rho_start == old(self).rho_start,
            final(self).rho_end == old(self).rho_end,
    {
        self.theta_start = start;
        self.theta_end = end;
    }

    /// Get theta start and end, in units of 360/65536 degrees.
    pub fn get_theta(&self) -> (r: (u16, u16))
        ensures
            r.0 == self.theta_start,
            r.1 == self.theta_end,
    {
        (self.theta_start, self.theta_end)
    }
}

} // verus!
