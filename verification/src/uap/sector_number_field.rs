//! Sector Number (I034/020): one octet, 360/256 degrees per LSB.

use vstd::prelude::*;

verus! {

#[derive(Default, Debug, PartialEq, Clone, Copy)]
pub struct SectorNumber {
    pub sector: u8,  // 1 byte
}

impl SectorNumber {
    /// Octet length on the wire.
    pub const MESSAGE_LENGTH: usize = 1;

    /// The octet of this field on the wire.
    pub open spec fn wire(self) -> Seq<u8> {
        seq![self.sector]
    }

    pub fn new() -> (r: Self)
        ensures
            r.sector == 0,
    {
        Self { sector: 0 }
    }

    /// Convert byte stream to struct.
    pub fn from_bytes(&mut self, array: &[u8; 1])
        ensures
            final(self).sector == array[0],
    {
        self.sector = array[0];
    }

    /// Convert struct to byte stream.
    pub fn to_bytes(&self) -> (r: [u8; 1])
        ensures
            r[0] == self.sector,
            r@ == self.wire(),
    {
        let r = [self.sector];
        proof {
            assert(r@ =~= self.wire());
        }
        r
    }

    /// Create fixed length array from slice.
    pub fn array_of_byte_message(array: &[u8]) -> (r: [u8; 1])
        requires
            array@.len() == 1,
        ensures
            r[0] == array[0],
    {
        [array[0]]
    }

    /// Set sector, in units of 360/256 degrees.
    pub fn set_sector(&mut self, sector: u8)
        ensures
            final(self).sector == sector,
    {
        self.sector = sector;
    }

    /// Get sector, in units of 360/256 degrees.
    pub fn get_sector(&self) -> (r: u8)
        ensures
            r == self.sector,
    {
        self.sector
    }
}

} // verus!
