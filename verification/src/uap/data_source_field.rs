//! Data Source Identifier (I034/010): System Identification Code (SIC) and
//! System Area Code (SAC), one octet each.

use vstd::prelude::*;

verus! {

#[derive(Default, Debug, PartialEq, Clone, Copy)]
pub struct DataSource {
    pub sic: u8,  // 1 byte
    pub sac: u8,  // 1 byte
}

impl DataSource {
    /// Octet length on the wire.
    pub const MESSAGE_LENGTH: usize = 2;

    /// The two octets of this field on the wire.
    pub open spec fn wire(self) -> Seq<u8> {
        seq![self.sic, self.sac]
    }

    pub fn new() -> (r: Self)
        ensures
            r.sic == 0,
            r.sac == 0,
    {
        Self { sic: 0, sac: 0 }
    }

    /// Convert byte stream to struct.
    pub fn from_bytes(&mut self, array: &[u8; 2])
        ensures
            final(self).wire() == array@,
    {
        self.sic = array[0];
        self.sac = array[1];
        proof {
            assert(self.wire() =~= array@);
        }
    }

    /// Convert struct to byte stream.
    pub fn to_bytes(&self) -> (r: [u8; 2])
        ensures
            r@ == self.wire(),
    {
        let r = [self.sic, self.sac];
        proof {
            assert(r@ =~= self.wire());
        }
        r
    }

    /// Create fixed length array from slice.
    pub fn array_of_byte_message(array: &[u8]) -> (r: [u8; 2])
        requires
            array@.len() == 2,
        ensures
            r@ == array@,
    {
        let r = [array[0], array[1]];
        proof {
            assert(r@ =~= array@);
        }
        r
    }

    /// Set source id SIC.
    pub fn set_source_id_sic(&mut self, sic: u8)
        ensures
            final(self).sic == sic,
            final(self).sac == old(self).sac,
    {
        self.sic = sic;
    }

    /// Get source id SIC.
    pub fn get_source_id_sic(&self) -> (r: u8)
        ensures
            r == self.sic,
    {
        self.sic
    }

    /// Set source id SAC.
    pub fn set_source_id_sac(&mut self, sac: u8)
        ensures
            final(self).sac == sac,
            final(self).sic == old(self).sic,
    {
        self.sac = sac;
    }

    /// Get source id SAC.
    pub fn get_source_id_sac(&self) -> (r: u8)
        ensures
            r == self.sac,
    {
        self.sac
    }
}

} // verus!
