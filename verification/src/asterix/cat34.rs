//! Message engine for CAT034: a three-octet header wrapping zero or more
//! records, the header's length field counting the whole data block.

use vstd::prelude::*;
use bytes::Bytes;
use crate::asterix::header_field::{declared_len, header_wire, Header};
use crate::asterix::record34::{
    lemma_decode_record_bounds, record_wire, spec_decode_record, Record34,
};
use crate::byte_stream::{bytes_from_vec, bytes_seq, bytes_to_vec};
use crate::category::{CatError, Category};

verus! {

/// CAT34 message.
#[derive(Debug, PartialEq, Clone)]
pub struct Cat34Message {
    /// Header holds category and data block length.
    pub header: Header,
    /// Several records are possible per message.
    pub record: Vec<Record34>,
}

impl Cat34Message {
    /// Category.
    pub const CATEGORY: u8 = 34;

    /// Insert a record at the back.
    pub fn insert_record34(&mut self, record34: Record34)
        ensures
            final(self).record@ == old(self).record@.push(record34),
            final(self).header == old(self).header,
    {
        self.record.push(record34);
    }

    /// Remove and return the last record, if any.
    pub fn remove_record34(&mut self) -> (r: Option<Record34>)
        ensures
            old(self).record@.len() == 0 ==> r is None && final(self).record@
                == old(self).record@,
            old(self).record@.len() > 0 ==> r == Some(old(self).record@.last())
                && final(self).record@ == old(self).record@.drop_last(),
            final(self).header == old(self).header,
    {
        self.record.pop()
    }

    pub fn get_header(&self) -> (r: Header)
        ensures
            r == self.header,
    {
        self.header
    }

    pub fn set_header(&mut self, header: Header)
        ensures
            final(self).header == header,
            final(self).record@ == old(self).record@,
    {
        self.header = header;
    }
}

impl Cat34Message {
    /// The CAT034 message inside a categorized value, if that is what it
    /// holds.
    pub fn try_from(value: Category) -> (r: Result<Cat34Message, ()>)
        ensures
            match value {
                Category::Cat034(cat) => r == Ok::<Cat34Message, ()>(cat),
                _ => r == Err::<Cat34Message, ()>(()),
            },
    {
        match value {
            Category::Cat007 => Err(()),
            Category::Cat034(cat) => Ok(cat),
            Category::Cat048 => Err(()),
            Category::Cat062 => Err(()),
        }
    }
}

impl Default for Cat34Message {
    /// A message with no records whose header already carries the CAT034
    /// category tag.
    fn default() -> (r: Self)
        ensures
            r.header.cat == 34,
            r.header.len == 0,
            r.record@.len() == 0,
    {
        let mut message = Self { header: Header::new(), record: Vec::new() };
        message.header.set_cat(Cat34Message::CATEGORY);
        message
    }
}

/// The wire form of a sequence of records: their canonical forms
/// concatenated in order.
pub open spec fn records_wire(s: Seq<Record34>) -> Seq<u8>
    decreases s.len(),
{
    if s.len() == 0 {
        Seq::<u8>::empty()
    } else {
        record_wire(s[0]) + records_wire(s.skip(1))
    }
}

/// Every record of the sequence is well formed.
pub open spec fn records_wf(s: Seq<Record34>) -> bool {
    forall|i: int| 0 <= i < s.len() ==> (#[trigger] s[i]).wf()
}

/// Concatenating one more record extends the wire form at its end.
pub proof fn lemma_records_wire_snoc(s: Seq<Record34>)
    requires
        s.len() > 0,
    ensures
        records_wire(s) == records_wire(s.drop_last()) + record_wire(s.last()),
    decreases s.len(),
{
    if s.len() == 1 {
        assert(s.drop_last() =~= Seq::<Record34>::empty());
        assert(s.skip(1) =~= Seq::<Record34>::empty());
        assert(records_wire(s) =~= records_wire(s.drop_last()) + record_wire(s.last()));
    } else {
        lemma_records_wire_snoc(s.skip(1));
        assert(s.skip(1).drop_last() =~= s.drop_last().skip(1));
        assert(s.skip(1).last() == s.last());
        assert(s.drop_last()[0] == s[0]);
        assert(records_wire(s.drop_last()) == record_wire(s[0]) + records_wire(
            s.drop_last().skip(1),
        ));
        assert(records_wire(s) =~= records_wire(s.drop_last()) + record_wire(s.last()));
    }
}

/// The wire form of a message: a header declaring the whole data block's
/// octet count, then the records in order.
pub open spec fn message_wire(m: Cat34Message) -> Seq<u8> {
    header_wire(m.header.cat, (3 + records_wire(m.record@).len()) as u16) + records_wire(m.record@)
}

/// Length invariant: in every encoded message the header's length field
/// counts exactly the octets of the whole encoded message.
pub proof fn lemma_message_length(m: Cat34Message)
    requires
        3 + records_wire(m.record@).len() <= 65535,
    ensures
        declared_len(message_wire(m), 0) == message_wire(m).len(),
{
    let len = (3 + records_wire(m.record@).len()) as u16;
    assert(message_wire(m)[1] == (len as int / 256) as u8);
    assert(message_wire(m)[2] == (len as int % 256) as u8);
}

/// The records read back one after the other from `cur` to the end of the
/// buffer; `None` when any of them is malformed or oversteps the end.
pub open spec fn spec_decode_records(b: Seq<u8>, cur: int) -> Option<Seq<Record34>>
    decreases b.len() - cur,
{
    if cur == b.len() {
        Some(Seq::<Record34>::empty())
    } else if !(0 <= cur && cur < b.len()) {
        None
    } else {
        match spec_decode_record(b, cur) {
            Some((rec, used)) => if 1 <= used && cur + used <= b.len() {
                match spec_decode_records(b, cur + used) {
                    Some(rest) => Some(seq![rec] + rest),
                    None => None,
                }
            } else {
                None
            },
            None => None,
        }
    }
}

/// What a buffer decodes to as a CAT34 message: the structural checks of
/// the header, then the record sequence.
pub open spec fn spec_decode_message(b: Seq<u8>) -> Result<Seq<Record34>, CatError> {
    if b.len() < 3 {
        Err(CatError::SizeInvalid)
    } else if declared_len(b, 0) != b.len() {
        Err(CatError::SizeInvalid)
    } else if b[0] != 34 {
        Err(CatError::CategoryInvalid)
    } else {
        match spec_decode_records(b, 3) {
            Some(recs) => Ok(recs),
            None => Err(CatError::SizeInvalid),
        }
    }
}

/// A sequence of well-formed records laid out back to back, filling the
/// buffer from `cur` to its end, decodes to exactly that sequence.
#[verifier::rlimit(100)]
pub proof fn lemma_decode_records_at(b: Seq<u8>, cur: int, s: Seq<Record34>)
    requires
        records_wf(s),
        0 <= cur <= b.len(),
        cur + records_wire(s).len() == b.len(),
        forall|i: int| 0 <= i < records_wire(s).len() ==> b[cur + i] == #[trigger] records_wire(
            s,
        )[i],
    ensures
        spec_decode_records(b, cur) == Some(s),
    decreases s.len(),
{
    if s.len() == 0 {
        assert(spec_decode_records(b, cur) == Some(Seq::<Record34>::empty()));
        assert(s =~= Seq::<Record34>::empty());
    } else {
        let w0 = record_wire(s[0]);
        let rest = records_wire(s.skip(1));
        assert(records_wire(s) == w0 + rest);
        assert(s[0].wf());
        assert forall|i: int| 0 <= i < w0.len() implies b[cur + i] == #[trigger] w0[i] by {
            assert(records_wire(s)[i] == w0[i]);
            assert(b[cur + i] == records_wire(s)[i]);
        };
        crate::asterix::record34::lemma_record_round_trip_at(b, cur, s[0]);
        crate::asterix::record34::lemma_record_wire_len(s[0]);
        assert(w0.len() >= 1);
        assert(records_wf(s.skip(1)));
        assert forall|i: int| 0 <= i < rest.len() implies b[(cur + w0.len()) + i]
            == #[trigger] rest[i] by {
            assert(records_wire(s)[w0.len() + i] == rest[i]);
            assert(b[cur + (w0.len() + i)] == records_wire(s)[w0.len() + i]);
        };
        lemma_decode_records_at(b, cur + w0.len(), s.skip(1));
        assert(seq![s[0]] + s.skip(1) =~= s);
    }
}

/// Round trip: a message whose header already carries the category tag and
/// the data block's true length, and whose records are all well formed,
/// decodes from its own wire form to exactly its record sequence.
#[verifier::rlimit(100)]
pub proof fn lemma_message_round_trip(m: Cat34Message)
    requires
        m.header.cat == 34,
        m.header.len as int == 3 + records_wire(m.record@).len(),
        3 + records_wire(m.record@).len() <= 65535,
        records_wf(m.record@),
    ensures
        spec_decode_message(message_wire(m)) == Ok::<Seq<Record34>, CatError>(m.record@),
{
    let b = message_wire(m);
    let rw = records_wire(m.record@);
    lemma_message_length(m);
    assert(b.len() == 3 + rw.len());
    assert(b[0] == m.header.cat);
    assert forall|i: int| 0 <= i < rw.len() implies b[3 + i] == #[trigger] rw[i] by {
        assert(b[3 + i] == rw[i]);
    };
    lemma_decode_records_at(b, 3, m.record@);
}

/// Encode into CAT34 byte stream/// Encode into CAT34 byte stream: the records in order behind a header
/// whose length field counts the whole data block. Fails with
/// `CategoryInvalid` when the message's category is not 34, and with
/// `SizeInvalid` when the data block cannot be counted by the 16-bit
/// length field.
pub fn encode(message: &Cat34Message) -> (r: Result<Bytes, CatError>)
    ensures
        message.header.cat != 34 ==> r == Err::<Bytes, CatError>(CatError::CategoryInvalid),
        message.header.cat == 34 && 3 + records_wire(message.record@).len() > 65535 ==> r
            == Err::<Bytes, CatError>(CatError::SizeInvalid),
        message.header.cat == 34 && 3 + records_wire(message.record@).len() <= 65535 ==> (
        r matches Ok(b) && bytes_seq(b) == message_wire(*message)),
{
    if message.header.cat != 34 {
        return Err(CatError::CategoryInvalid);
    }
    let n = message.record.len();
    let mut body: Vec<u8> = Vec::new();
    let mut i: usize = 0;
    while i < n
        invariant
            i <= n,
            n == message.record@.len(),
            body@ == records_wire(message.record@.subrange(0, i as int)),
        decreases n - i,
    {
        let mut rec_bytes = message.record[i].encode_to_vec();
        body.append(&mut rec_bytes);
        proof {
            let s = message.record@.subrange(0, i + 1);
            lemma_records_wire_snoc(s);
            assert(s.drop_last() =~= message.record@.subrange(0, i as int));
            assert(s.last() == message.record@[i as int]);
        }
        i = i + 1;
    }
    proof {
        assert(message.record@.subrange(0, n as int) =~= message.record@);
    }
    if body.len() > 65532 {
        return Err(CatError::SizeInvalid);
    }
    let total = 3 + body.len();
    let mut out: Vec<u8> = Vec::new();
    out.push(message.header.cat);
    out.push((total / 256) as u8);
    out.push((total % 256) as u8);
    out.append(&mut body);
    proof {
        assert(out@ =~= message_wire(*message));
    }
    Ok(bytes_from_vec(out))
}

/// Decode from CAT34 byte stream: check the header's length against the
/// buffer and its category tag, then read records until they end exactly at
/// the declared boundary.
#[verifier::rlimit(100)]
pub fn decode(bytes: &Bytes) -> (r: Result<Cat34Message, CatError>)
    ensures
        match spec_decode_message(bytes_seq(*bytes)) {
            Ok(recs) => r matches Ok(m) && m.header.cat == 34 && m.header.len as int == bytes_seq(
                *bytes,
            ).len() && m.record@ == recs,
            Err(e) => r == Err::<Cat34Message, CatError>(e),
        },
{
    let buf = bytes_to_vec(bytes);
    let len = buf.len();
    if len < 3 {
        return Err(CatError::SizeInvalid);
    }
    let mut header = Header::new();
    header.from_bytes(&[buf[0], buf[1], buf[2]]);
    if !(header.get_len() as usize == len) {
        return Err(CatError::SizeInvalid);
    }
    if header.get_cat() != 34 {
        return Err(CatError::CategoryInvalid);
    }
    let mut records: Vec<Record34> = Vec::new();
    let mut cur: usize = 3;
    while cur < len
        invariant
            3 <= cur <= len,
            len == buf@.len(),
            buf@ == bytes_seq(*bytes),
            declared_len(buf@, 0) == len as int,
            buf@[0] == 34,
            header.cat == 34,
            header.len as int == len as int,
            spec_decode_records(buf@, 3) == (match spec_decode_records(buf@, cur as int) {
                Some(rest) => Some(records@ + rest),
                None => None::<Seq<Record34>>,
            }),
        decreases len - cur,
    {
        let mut record = Record34::default();
        match record.decode_from_vec(&buf, cur) {
            Ok(used) => {
                proof {
                    lemma_decode_record_bounds(buf@, cur as int);
                }
                let ghost old_records = records@;
                records.push(record);
                proof {
                    match spec_decode_records(buf@, (cur + used) as int) {
                        Some(rest) => {
                            assert(old_records + (seq![record] + rest) =~= records@ + rest);
                        },
                        None => {},
                    }
                }
                cur = cur + used;
            },
            Err(_e) => {
                return Err(CatError::SizeInvalid);
            },
        }
    }
    proof {
        assert(spec_decode_records(buf@, cur as int) == Some(Seq::<Record34>::empty()));
        match spec_decode_records(buf@, 3) {
            Some(recs) => {
                assert(records@ + Seq::<Record34>::empty() =~= records@);
            },
            None => {},
        }
    }
    let message = Cat34Message { header: header, record: records };
    Ok(message)
}

} // verus!