//! 3D Position of Data Source (I034/120): height in metres (16-bit two's
//! complement), then latitude and longitude as 24-bit two's complement
//! counts in units of 180/2^23 degrees, all big-endian.

use vstd::prelude::*;
use crate::uap::time_of_day_field::{u24_value, u24_wire};

verus! {

/// The signed reading of a raw 16-bit two's-complement value.
pub open spec fn i16_of_raw(v: u16) -> int {
    if v >= 0x8000 {
        v as int - 0x10000
    } else {
        v as int
    }
}

/// The signed reading of a raw 24-bit two's-complement value.
pub open spec fn i24_of_raw(v: u32) -> int {
    if v >= 0x800000 {
        v as int - 0x1000000
    } else {
        v as int
    }
}

#[derive(Default, Debug, PartialEq, Clone, Copy)]
pub struct PositionSource {
    pub height: u16,  // raw two's-complement metres, 2 bytes
    pub lat: u32,  // raw two's-complement count, 24 bits on the wire
    pub lon: u32,  // raw two's-complement count, 24 bits on the wire
}

impl PositionSource {
    /// Octet length on the wire.
    pub const MESSAGE_LENGTH: usize = 8;

    /// The stored counts fit the 24-bit wire representation.
    pub open spec fn wf(self) -> bool {
        self.lat < 0x1000000 && self.lon < 0x1000000
    }

    /// The eight octets of this field on the wire.
    pub open spec fn wire(self) -> Seq<u8> {
        seq![(self.height as int / 256) as u8, (self.height as int % 256) as u8] + u24_wire(
            self.lat,
        ) + u24_wire(self.lon)
    }

    /// Convert byte stream to struct.
    pub fn from_bytes(&mut self, array: &[u8; 8])
        ensures
            final(self).height as int == 256 * (array[0] as int) + array[1] as int,
            final(self).lat as int == u24_value(array[2], array[3], array[4]),
            final(self).lon as int == u24_value(array[5], array[6], array[7]),
            final(self).wf(),
    {
        self.height = (array[0] as u16) * 256 + (array[1] as u16);
        self.lat = (array[2] as u32) * 65536 + (array[3] as u32) * 256 + (array[4] as u32);
        self.lon = (array[5] as u32) * 65536 + (array[6] as u32) * 256 + (array[7] as u32);
    }

    /// Convert struct to byte stream.
    pub fn to_bytes(&self) -> (r: [u8; 8])
        ensures
            r@ == self.wire(),
    {
        let r = [
            (self.height / 256) as u8,
            (self.height % 256) as u8,
            ((self.lat / 65536) % 256) as u8,
            ((self.lat / 256) % 256) as u8,
            (self.lat % 256) as u8,
            ((self.lon / 65536) % 256) as u8,
            ((self.lon / 256) % 256) as u8,
            (self.lon % 256) as u8,
        ];
        proof {
            assert(r@ =~= self.wire());
        }
        r
    }

    /// Create fixed length array from slice.
    pub fn array_of_byte_message(array: &[u8]) -> (r: [u8; 8])
        requires
            array@.len() == 8,
        ensures
            r@ == array@,
    {
        let r = [
            array[0],
            array[1],
            array[2],
            array[3],
            array[4],
            array[5],
            array[6],
            array[7],
        ];
        proof {
            assert(r@ =~= array@);
        }
        r
    }

    /// Set latitude and longitude, as signed counts in units of 180/2^23
    /// degrees.
    pub fn set_lat_lon(&mut self, lat: i32, lon: i32)
        requires
            -0x800000 <= lat < 0x800000,
            -0x800000 <= lon < 0x800000,
        ensures
            i24_of_raw(final(self).lat) == lat,
            i24_of_raw(final(self).lon) == lon,
            final(self).height == old(self).height,
            final(self).wf(),
    {
        self.lat = if lat < 0 {
            (lat + 0x1000000) as u32
        } else {
            lat as u32
        };
        self.lon = if lon < 0 {
            (lon + 0x1000000) as u32
        } else {
            lon as u32
        };
    }

    /// Get latitude and longitude, as signed counts in units of 180/2^23
    /// degrees.
    pub fn get_lat_lon(&self) -> (r: (i32, i32))
        requires
            self.wf(),
        ensures
            r.0 == i24_of_raw(self.lat),
            r.1 == i24_of_raw(self.lon),
    {
        let lat = if self.lat >= 0x800000 {
            self.lat as i32 - 0x1000000
        } else {
            self.lat as i32
        };
        let lon = if self.lon >= 0x800000 {
            self.lon as i32 - 0x1000000
        } else {
            self.lon as i32
        };
        (lat, lon)
    }

    /// Set height, in metres.
    pub fn set_height(&mut self, height: i16)
        ensures
            i16_of_raw(final(self).height) == height,
            final(self).lat == old(self).lat,
            final(self).lon == old(self).lon,
    {
        self.height = if height < 0 {
            (height as i32 + 0x10000) as u16
        } else {
            height as u16
        };
    }

    /// Get height, in metres.
    pub fn get_height(&self) -> (r: i16)
        ensures
            r == i16_of_raw(self.height),
    {
        if self.height >= 0x8000 {
            ((self.height as i32) - 0x10000) as i16
        } else {
            self.height as i16
        }
    }
}

} // verus!
