//! Data block header: a one-octet category (CAT) and a two-octet length
//! indicator (LEN) counting the whole data block, the header included.
//!
//! On the wire the length stands big-endian, high byte first, immediately
//! after the category octet.

use vstd::prelude::*;

verus! {

/// The three header octets for a given category and length.
pub open spec fn header_wire(cat: u8, len: u16) -> Seq<u8> {
    seq![cat, (len as int / 256) as u8, (len as int % 256) as u8]
}

/// The length declared by a header that starts at `start` in `b`.
pub open spec fn declared_len(b: Seq<u8>, start: int) -> int {
    256 * (b[start + 1] as int) + b[start + 2] as int
}

#[derive(Default, Debug, PartialEq, Clone, Copy)]
pub struct Header {
    pub cat: u8,  // 1 byte
    pub len: u16,  // 2 bytes
}

impl Header {
    /// Octet length on the wire.
    pub const MESSAGE_LENGTH: usize = 3;

    pub fn new() -> (r: Self)
        ensures
            r.cat == 0,
            r.len == 0,
    {
        Self { cat: 0, len: 0 }
    }

    /// Convert byte stream to struct.
    pub fn from_bytes(&mut self, array: &[u8; 3])
        ensures
            final(self).cat == array[0],
            final(self).len as int == 256 * (array[1] as int) + array[2] as int,
    {
        self.cat = array[0];
        let hi = (array[1] as u16) * 256;
        let lo = array[2] as u16;
        self.len = hi + lo;
    }

    /// Convert struct to byte stream.
    pub fn to_bytes(&self) -> (r: [u8; 3])
        ensures
            r@ == header_wire(self.cat, self.len),
    {
        let r = [self.cat, (self.len / 256) as u8, (self.len % 256) as u8];
        proof {
            assert(r@ =~= header_wire(self.cat, self.len));
        }
        r
    }

    /// Create fixed length array from slice.
    pub fn array_of_byte_message(array: &[u8]) -> (r: [u8; 3])
        requires
            array@.len() == 3,
        ensures
            r@ == array@,
    {
        let r = [array[0], array[1], array[2]];
        proof {
            assert(r@ =~= array@);
        }
        r
    }

    /// Set category.
    pub fn set_cat(&mut self, cat: u8)
        ensures
            final(self).cat == cat,
            final(self).len == old(self).len,
    {
        self.cat = cat;
    }

    /// Get category.
    pub fn get_cat(&self) -> (r: u8)
        ensures
            r == self.cat,
    {
        self.cat
    }

    /// Set length.
    pub fn set_len(&mut self, len: u16)
        ensures
            final(self).len == len,
            final(self).cat == old(self).cat,
    {
        self.len = len;
    }

    /// Get length.
    pub fn get_len(&self) -> (r: u16)
        ensures
            r == self.len,
    {
        self.len
    }
}

} // verus!
