//! System Configuration and Status (I034/050): a primary octet whose bits
//! announce which subfield octets (COM, PSR, SSR, MDS) follow, in that order.

use vstd::prelude::*;
use crate::uap::field_spec::byte_bit;

verus! {

/// Types of subfields with bit position from right to left.
#[derive(Debug, Clone, PartialEq, Eq, Structural, Copy)]
pub enum Subfield {
    Com,
    Psr,
    Ssr,
    Mds,
}

/// The bit index (1 = MSB .. 8 = LSB) that announces a subfield in the
/// primary octet: COM at bit 1, PSR at bit 4, SSR at bit 5, MDS at bit 6.
pub open spec fn subfield_bit(subfield: Subfield) -> int {
    match subfield {
        Subfield::Com => 1,
        Subfield::Psr => 4,
        Subfield::Ssr => 5,
        Subfield::Mds => 6,
    }
}

/// The octets that a primary octet and the four subfield octets lay out on
/// the wire: the primary octet, then one octet for each announced subfield.
pub open spec fn subfield_wire(options: u8, com: u8, psr: u8, ssr: u8, mds: u8) -> Seq<u8> {
    seq![options] + (if byte_bit(options, 1) {
        seq![com]
    } else {
        Seq::<u8>::empty()
    }) + (if byte_bit(options, 4) {
        seq![psr]
    } else {
        Seq::<u8>::empty()
    }) + (if byte_bit(options, 5) {
        seq![ssr]
    } else {
        Seq::<u8>::empty()
    }) + (if byte_bit(options, 6) {
        seq![mds]
    } else {
        Seq::<u8>::empty()
    })
}

/// Octet count of `subfield_wire` for a given primary octet.
pub open spec fn subfield_wire_len(options: u8) -> int {
    1 + (if byte_bit(options, 1) {
        1int
    } else {
        0
    }) + (if byte_bit(options, 4) {
        1int
    } else {
        0
    }) + (if byte_bit(options, 5) {
        1int
    } else {
        0
    }) + (if byte_bit(options, 6) {
        1int
    } else {
        0
    })
}

#[derive(Default, Debug, PartialEq, Clone, Copy)]
pub struct SystemConfigurationStatus {
    pub configuration_options: u8,  // primary octet
    pub com_subfield: u8,  // 1 byte
    pub psr_subfield: u8,  // 1 byte
    pub ssr_subfield: u8,  // 1 byte
    pub mds_subfield: u8,  // 1 byte
}

impl SystemConfigurationStatus {
    /// A subfield octet that the primary octet does not announce holds zero,
    /// so that the wire form determines the whole value.
    pub open spec fn wf(self) -> bool {
        &&& (!byte_bit(self.configuration_options, 1) ==> self.com_subfield == 0)
        &&& (!byte_bit(self.configuration_options, 4) ==> self.psr_subfield == 0)
        &&& (!byte_bit(self.configuration_options, 5) ==> self.ssr_subfield == 0)
        &&& (!byte_bit(self.configuration_options, 6) ==> self.mds_subfield == 0)
    }

    /// The octets of this field on the wire.
    pub open spec fn wire(self) -> Seq<u8> {
        subfield_wire(
            self.configuration_options,
            self.com_subfield,
            self.psr_subfield,
            self.ssr_subfield,
            self.mds_subfield,
        )
    }

    /// Convert primary octet of byte stream to struct.
    pub fn from_bytes(&mut self, array: u8)
        ensures
            *final(self) == (SystemConfigurationStatus { configuration_options: array, ..*old(self) }),
    {
        self.configuration_options = array;
    }

    /// Convert primary octet of struct to byte stream.
    pub fn to_bytes(&self) -> (r: u8)
        ensures
            r == self.configuration_options,
    {
        self.configuration_options
    }

    /// Convert subfield octet of byte stream to struct.
    pub fn from_bytes_subfield(&mut self, subfield: Subfield, array: u8)
        ensures
            match subfield {
                Subfield::Com => *final(self) == (SystemConfigurationStatus {
                    com_subfield: array,
                    ..*old(self)
                }),
                Subfield::Psr => *final(self) == (SystemConfigurationStatus {
                    psr_subfield: array,
                    ..*old(self)
                }),
                Subfield::Ssr => *final(self) == (SystemConfigurationStatus {
                    ssr_subfield: array,
                    ..*old(self)
                }),
                Subfield::Mds => *final(self) == (SystemConfigurationStatus {
                    mds_subfield: array,
                    ..*old(self)
                }),
            },
    {
        match subfield {
            Subfield::Com => self.com_subfield = array,
            Subfield::Psr => self.psr_subfield = array,
            Subfield::Ssr => self.ssr_subfield = array,
            Subfield::Mds => self.mds_subfield = array,
        }
    }

    /// Convert subfield octet of struct to byte stream.
    pub fn to_bytes_subfield(&self, subfield: Subfield) -> (r: u8)
        ensures
            match subfield {
                Subfield::Com => r == self.com_subfield,
                Subfield::Psr => r == self.psr_subfield,
                Subfield::Ssr => r == self.ssr_subfield,
                Subfield::Mds => r == self.mds_subfield,
            },
    {
        match subfield {
            Subfield::Com => self.com_subfield,
            Subfield::Psr => self.psr_subfield,
            Subfield::Ssr => self.ssr_subfield,
            Subfield::Mds => self.mds_subfield,
        }
    }

    /// Announce a subfield in the primary octet.
    pub fn set_configuration_option(&mut self, subfield: Subfield)
        ensures
            final(self).configuration_options == crate::uap::field_spec::set_bit(
                old(self).configuration_options,
                subfield_bit(subfield),
            ),
            final(self).com_subfield == old(self).com_subfield,
            final(self).psr_subfield == old(self).psr_subfield,
            final(self).ssr_subfield == old(self).ssr_subfield,
            final(self).mds_subfield == old(self).mds_subfield,
    {
        match subfield {
            Subfield::Com => {
                if (self.configuration_options / 128) % 2 == 0 {
                    self.configuration_options = self.configuration_options + 128;
                }
            },
            Subfield::Psr => {
                if (self.configuration_options / 16) % 2 == 0 {
                    self.configuration_options = self.configuration_options + 16;
                }
            },
            Subfield::Ssr => {
                if (self.configuration_options / 8) % 2 == 0 {
                    self.configuration_options = self.configuration_options + 8;
                }
            },
            Subfield::Mds => {
                if (self.configuration_options / 4) % 2 == 0 {
                    self.configuration_options = self.configuration_options + 4;
                }
            },
        }
    }

    /// Octet count of this field on the wire: the primary octet plus one
    /// octet per announced subfield.
    pub fn wire_length(&self) -> (r: usize)
        ensures
            r as int == subfield_wire_len(self.configuration_options),
            r == self.wire().len(),
    {
        let mut n: usize = 1;
        if (self.configuration_options / 128) % 2 == 1 {
            n = n + 1;
        }
        if (self.configuration_options / 16) % 2 == 1 {
            n = n + 1;
        }
        if (self.configuration_options / 8) % 2 == 1 {
            n = n + 1;
        }
        if (self.configuration_options / 4) % 2 == 1 {
            n = n + 1;
        }
        n
    }

    /// Whether the primary octet announces a subfield.
    pub fn get_configuration_option(&self, subfield: Subfield) -> (r: bool)
        ensures
            r == byte_bit(self.configuration_options, subfield_bit(subfield)),
    {
        match subfield {
            Subfield::Com => (self.configuration_options / 128) % 2 == 1,
            Subfield::Psr => (self.configuration_options / 16) % 2 == 1,
            Subfield::Ssr => (self.configuration_options / 8) % 2 == 1,
            Subfield::Mds => (self.configuration_options / 4) % 2 == 1,
        }
    }
}

} // verus!
