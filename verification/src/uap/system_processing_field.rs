//! System Processing Mode (I034/060): a primary octet whose bits
//! announce which subfield octets (COM, PSR, SSR, MDS) follow, in that order.

use vstd::prelude::*;
use crate::uap::field_spec::byte_bit;
use crate::uap::system_configuration_field::{subfield_wire, subfield_wire_len};

verus! {

/// Types of subfields with bit position from right to left.
#[derive(Debug, Clone, PartialEq, Eq, Structural, Copy)]
pub enum Subfield {
    Com,
    Psr,
    Ssr,
    Mds,
}

/// The bit index (1 = MSB .. 8 = LSB) that announces a subfield in the
/// primary octet: COM at bit 1, PSR at bit 4, SSR at bit 5, MDS at bit 6.
pub open spec fn subfield_bit(subfield: Subfield) -> int {
    match subfield {
        Subfield::Com => 1,
        Subfield::Psr => 4,
        Subfield::Ssr => 5,
        Subfield::Mds => 6,
    }
}

#[derive(Default, Debug, PartialEq, Clone, Copy)]
pub struct SystemProcessingMode {
    pub processing_options: u8,  // primary octet
    pub com_subfield: u8,  // 1 byte
    pub psr_subfield: u8,  // 1 byte
    pub ssr_subfield: u8,  // 1 byte
    pub mds_subfield: u8,  // 1 byte
}

impl SystemProcessingMode {
    /// A subfield octet that the primary octet does not announce holds zero,
    /// so that the wire form determines the whole value.
    pub open spec fn wf(self) -> bool {
        &&& (!byte_bit(self.processing_options, 1) ==> self.com_subfield == 0)
        &&& (!byte_bit(self.processing_options, 4) ==> self.psr_subfield == 0)
        &&& (!byte_bit(self.processing_options, 5) ==> self.ssr_subfield == 0)
        &&& (!byte_bit(self.processing_options, 6) ==> self.mds_subfield == 0)
    }

    /// The octets of this field on the wire.
    pub open spec fn wire(self) -> Seq<u8> {
        subfield_wire(
            self.processing_options,
            self.com_subfield,
            self.psr_subfield,
            self.ssr_subfield,
            self.mds_subfield,
        )
    }

    /// Convert primary octet of byte stream to struct.
    pub fn from_bytes(&mut self, array: u8)
        ensures
            *final(self) == (SystemProcessingMode { processing_options: array, ..*old(self) }),
    {
        self.processing_options = array;
    }

    /// Convert primary octet of struct to byte stream.
    pub fn to_bytes(&self) -> (r: u8)
        ensures
            r == self.processing_options,
    {
        self.processing_options
    }

    /// Convert subfield octet of byte stream to struct.
    pub fn from_bytes_subfield(&mut self, subfield: Subfield, array: u8)
        ensures
            match subfield {
                Subfield::Com => *final(self) == (SystemProcessingMode {
                    com_subfield: array,
                    ..*old(self)
                }),
                Subfield::Psr => *final(self) == (SystemProcessingMode {
                    psr_subfield: array,
                    ..*old(self)
                }),
                Subfield::Ssr => *final(self) == (SystemProcessingMode {
                    ssr_subfield: array,
                    ..*old(self)
                }),
                Subfield::Mds => *final(self) == (SystemProcessingMode {
                    mds_subfield: array,
                    ..*old(self)
                }),
            },
    {
        match subfield {
            Subfield::Com => self.com_subfield = array,
            Subfield::Psr => self.psr_subfield = array,
            Subfield::Ssr => self.ssr_subfield = array,
            Subfield::Mds => self.mds_subfield = array,
        }
    }

    /// Convert subfield octet of struct to byte stream.
    pub fn to_bytes_subfield(&self, subfield: Subfield) -> (r: u8)
        ensures
            match subfield {
                Subfield::Com => r == self.com_subfield,
                Subfield::Psr => r == self.psr_subfield,
                Subfield::Ssr => r == self.ssr_subfield,
                Subfield::Mds => r == self.mds_subfield,
            },
    {
        match subfield {
            Subfield::Com => self.com_subfield,
            Subfield::Psr => self.psr_subfield,
            Subfield::Ssr => self.ssr_subfield,
            Subfield::Mds => self.mds_subfield,
        }
    }

    /// Announce a subfield in the primary octet.
    pub fn set_processing_option(&mut self, subfield: Subfield)
        ensures
            final(self).processing_options == crate::uap::field_spec::set_bit(
                old(self).processing_options,
                subfield_bit(subfield),
            ),
            final(self).com_subfield == old(self).com_subfield,
            final(self).psr_subfield == old(self).psr_subfield,
            final(self).ssr_subfield == old(self).ssr_subfield,
            final(self).mds_subfield == old(self).mds_subfield,
    {
        match subfield {
            Subfield::Com => {
                if (self.processing_options / 128) % 2 == 0 {
                    self.processing_options = self.processing_options + 128;
                }
            },
            Subfield::Psr => {
                if (self.processing_options / 16) % 2 == 0 {
                    self.processing_options = self.processing_options + 16;
                }
            },
            Subfield::Ssr => {
                if (self.processing_options / 8) % 2 == 0 {
                    self.processing_options = self.processing_options + 8;
                }
            },
            Subfield::Mds => {
                if (self.processing_options / 4) % 2 == 0 {
                    self.processing_options = self.processing_options + 4;
                }
            },
        }
    }

    /// Octet count of this field on the wire: the primary octet plus one
    /// octet per announced subfield.
    pub fn wire_length(&self) -> (r: usize)
        ensures
            r as int == subfield_wire_len(self.processing_options),
            r == self.wire().len(),
    {
        let mut n: usize = 1;
        if (self.processing_options / 128) % 2 == 1 {
            n = n + 1;
        }
        if (self.processing_options / 16) % 2 == 1 {
            n = n + 1;
        }
        if (self.processing_options / 8) % 2 == 1 {
            n = n + 1;
        }
        if (self.processing_options / 4) % 2 == 1 {
            n = n + 1;
        }
        n
    }

    /// Whether the primary octet announces a subfield.
    pub fn get_processing_option(&self, subfield: Subfield) -> (r: bool)
        ensures
            r == byte_bit(self.processing_options, subfield_bit(subfield)),
    {
        match subfield {
            Subfield::Com => (self.processing_options / 128) % 2 == 1,
            Subfield::Psr => (self.processing_options / 16) % 2 == 1,
            Subfield::Ssr => (self.processing_options / 8) % 2 == 1,
            Subfield::Mds => (self.processing_options / 4) % 2 == 1,
        }
    }
}

} // verus!
