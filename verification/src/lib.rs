//! Codec for ASTERIX Category 034 (monoradar service messages): a verified
//! record/message packing engine with an FSPEC presence-bit chain, per-field
//! fixed-point byte layouts, and strict round-trip guarantees.

pub mod asterix;
pub mod byte_stream;
pub mod cat34;
pub mod cat_error;
pub mod category;
pub mod tools;
pub mod uap;

use vstd::prelude::*;
use bytes::Bytes;
use crate::asterix::cat34::{
    decode, encode, message_wire, records_wire, spec_decode_message, Cat34Message,
};
use crate::byte_stream::{bytes_from_vec, bytes_seq, bytes_to_vec};
use crate::category::{CatError, Category};

verus! {

/// The byte stream that a sequence of categorized messages encodes to: the
/// messages' wire forms concatenated in order, or the first failure. Only
/// CAT034 messages can be encoded here.
pub open spec fn spec_encode_asterix(s: Seq<Category>) -> Result<Seq<u8>, CatError>
    decreases s.len(),
{
    if s.len() == 0 {
        Ok(Seq::<u8>::empty())
    } else {
        match s[0] {
            Category::Cat034(m) => {
                if m.header.cat != 34 {
                    Err(CatError::CategoryInvalid)
                } else if 3 + records_wire(m.record@).len() > 65535 {
                    Err(CatError::SizeInvalid)
                } else {
                    match spec_encode_asterix(s.skip(1)) {
                        Ok(rest) => Ok(message_wire(m) + rest),
                        Err(e) => Err(e),
                    }
                }
            },
            _ => Err(CatError::CategoryInvalid),
        }
    }
}

/// Encode many ASTERIX messages into one byte stream, in order; the first
/// message that cannot be encoded aborts the whole call.
pub fn encode_asterix(messages: &Vec<Category>) -> (r: Result<Bytes, CatError>)
    ensures
        match spec_encode_asterix(messages@) {
            Ok(w) => r matches Ok(b) && bytes_seq(b) == w,
            Err(e) => r == Err::<Bytes, CatError>(e),
        },
{
    let n = messages.len();
    let mut sum_bytes: Vec<u8> = Vec::new();
    let mut i: usize = 0;
    proof {
        assert(messages@.skip(0) =~= messages@);
        match spec_encode_asterix(messages@) {
            Ok(rest) => {
                assert(Seq::<u8>::empty() + rest =~= rest);
            },
            Err(_) => {},
        }
    }
    while i < n
        invariant
            i <= n,
            n == messages@.len(),
            spec_encode_asterix(messages@) == (match spec_encode_asterix(
                messages@.skip(i as int),
            ) {
                Ok(rest) => Ok::<Seq<u8>, CatError>(sum_bytes@ + rest),
                Err(e) => Err::<Seq<u8>, CatError>(e),
            }),
        decreases n - i,
    {
        proof {
            assert(messages@.skip(i as int)[0] == messages@[i as int]);
            assert(messages@.skip(i as int).skip(1) =~= messages@.skip(i as int + 1));
        }
        match &messages[i] {
            Category::Cat034(cat34) => {
                let result = encode(cat34);
                match result {
                    Ok(bytes) => {
                        let ghost prev = sum_bytes@;
                        let mut piece = bytes_to_vec(&bytes);
                        sum_bytes.append(&mut piece);
                        proof {
                            match spec_encode_asterix(messages@.skip(i as int + 1)) {
                                Ok(rest) => {
                                    assert(prev + (message_wire(*cat34) + rest) =~= sum_bytes@
                                        + rest);
                                },
                                Err(_) => {},
                            }
                        }
                    },
                    Err(e) => {
                        return Err(e);
                    },
                }
            },
            _ => {
                return Err(CatError::CategoryInvalid);
            },
        }
        i = i + 1;
    }
    proof {
        assert(messages@.skip(n as int) =~= Seq::<Category>::empty());
        match spec_encode_asterix(messages@) {
            Ok(w) => {
                assert(sum_bytes@ + Seq::<u8>::empty() =~= sum_bytes@);
            },
            Err(_) => {},
        }
    }
    Ok(bytes_from_vec(sum_bytes))
}

/// Decode one byte stream into ASTERIX messages. The stream must hold
/// exactly one CAT034 data block; its structural failures propagate.
pub fn decode_asterix(bytes: &Bytes) -> (r: Result<Vec<Category>, CatError>)
    ensures
        match spec_decode_message(bytes_seq(*bytes)) {
            Ok(recs) => r matches Ok(v) && v@.len() == 1 && (v@[0] matches Category::Cat034(m)
                && m.header.cat == 34 && m.header.len as int == bytes_seq(*bytes).len()
                && m.record@ == recs),
            Err(e) => r == Err::<Vec<Category>, CatError>(e),
        },
{
    let result = decode(bytes);
    match result {
        Ok(message) => {
            let mut vector: Vec<Category> = Vec::new();
            vector.push(Category::Cat034(message));
            Ok(vector)
        },
        Err(error) => Err(error),
    }
}

} // verus!
