use vstd::prelude::*;

use crate::codec::{is_lower_hex_char, lower_hex, nibble};
use crate::generate::Generate;

verus! {

/// A 32-bit integer as four bytes, most significant first.
pub open spec fn be32(x: u32) -> Seq<u8> {
    seq![(x >> 24) as u8, (x >> 16) as u8, (x >> 8) as u8, x as u8]
}

/// Relies on bson::oid::ObjectId::new: the current time in seconds, a random value drawn
/// once per process, and a per-process counter; nothing is stated of them.
#[verifier::external_body]
fn object_id_new() -> [u8; 12] {
    ::bson::oid::ObjectId::new().bytes()
}

/// Relies on bson::oid::ObjectId::from_parts: the seconds big-endian, then the process
/// id, then the counter.
#[verifier::external_body]
fn object_id_from_parts(seconds: u32, process_id: [u8; 5], counter: [u8; 3]) -> (r: [u8; 12])
    ensures
        r@ == be32(seconds) + process_id@ + counter@,
{
    ::bson::oid::ObjectId::from_parts(seconds, process_id, counter).bytes()
}

/// Relies on bson::oid::ObjectId::to_hex: the 12 bytes as 24 lower-case hex digits.
#[verifier::external_body]
fn object_id_hex(b: [u8; 12]) -> (r: String)
    ensures
        r@ == lower_hex(b@),
{
    ::bson::oid::ObjectId::from_bytes(b).to_hex()
}

/// An ObjectId generator: with a timestamp in seconds since the Unix epoch, every
/// ObjectId carries it; without one, each carries the time at which it is made.
pub struct ObjectIdGenerator {
    pub timestamp: Option<u32>,
}

impl ObjectIdGenerator {
    pub fn new(timestamp: Option<u32>) -> (r: Self)
        ensures
            r.timestamp == timestamp,
    {
        ObjectIdGenerator { timestamp }
    }

    /// Whether `b` is an ObjectId that this generator may make.
    pub open spec fn accepts(&self, b: Seq<u8>) -> bool {
        &&& b.len() == 12
        &&& match self.timestamp {
            Some(seconds) => b.subrange(0, 4) == be32(seconds),
            None => true,
        }
    }

    /// Generates the bytes of one ObjectId. With a fixed timestamp, a fresh ObjectId is
    /// drawn and only its four timestamp bytes are replaced, so that its random value and
    /// counter stay those of the fresh one.
    pub fn generate_bytes(&self) -> (r: [u8; 12])
        ensures
            self.accepts(r@),
    {
        let oid = object_id_new();
        match self.timestamp {
            Some(seconds) => {
                let r = object_id_from_parts(
                    seconds,
                    [oid[4], oid[5], oid[6], oid[7], oid[8]],
                    [oid[9], oid[10], oid[11]],
                );
                assert(r@.subrange(0, 4) =~= be32(seconds));
                r
            },
            None => oid,
        }
    }
}

impl Generate for ObjectIdGenerator {
    open spec fn produces(&self, s: Seq<char>) -> bool {
        exists|b: Seq<u8>| self.accepts(b) && s == lower_hex(b)
    }

    fn generate(&self) -> (r: String) {
        let b = self.generate_bytes();
        let r = object_id_hex(b);
        assert(self.accepts(b@) && r@ == lower_hex(b@));
        r
    }
}

/// Every ObjectId text is 24 lower-case hex digits.
pub proof fn lemma_object_id_text_form(g: ObjectIdGenerator, s: Seq<char>)
    requires
        g.produces(s),
    ensures
        s.len() == 24,
        forall|i: int| 0 <= i < 24 ==> is_lower_hex_char(#[trigger] s[i]),
{
    let b = choose|b: Seq<u8>| g.accepts(b) && s == lower_hex(b);
    assert forall|i: int| 0 <= i < 24 implies is_lower_hex_char(#[trigger] s[i]) by {
        assert(nibble(b, i) < 16);
    }
}

/// With a fixed timestamp, an ObjectId text starts with the eight hex digits of that
/// timestamp, big-endian.
pub proof fn lemma_object_id_fixed_timestamp_prefix(g: ObjectIdGenerator, s: Seq<char>)
    requires
        g.timestamp is Some,
        g.produces(s),
    ensures
        s.subrange(0, 8) == lower_hex(be32(g.timestamp->Some_0)),
{
    let b = choose|b: Seq<u8>| g.accepts(b) && s == lower_hex(b);
    let p = be32(g.timestamp->Some_0);
    assert forall|i: int| 0 <= i < 8 implies s[i] == lower_hex(p)[i] by {
        assert(b[i / 2] == b.subrange(0, 4)[i / 2]);
    }
    assert(s.subrange(0, 8) =~= lower_hex(p));
}

/// Two ObjectIds made with the same fixed timestamp share their first eight characters.
pub proof fn lemma_object_id_same_timestamp(g: ObjectIdGenerator, s: Seq<char>, t: Seq<char>)
    requires
        g.timestamp is Some,
        g.produces(s),
        g.produces(t),
    ensures
        s.subrange(0, 8) == t.subrange(0, 8),
{
    lemma_object_id_fixed_timestamp_prefix(g, s);
    lemma_object_id_fixed_timestamp_prefix(g, t);
}

/// Timestamp 0 gives an ObjectId text that starts with `"00000000"`, and timestamp
/// `u32::MAX` one that starts with `"ffffffff"`.
pub proof fn lemma_object_id_extreme_timestamps(g: ObjectIdGenerator, s: Seq<char>)
    requires
        g.timestamp == Some(0u32) || g.timestamp == Some(u32::MAX),
        g.produces(s),
    ensures
        g.timestamp == Some(0u32) ==> forall|i: int| 0 <= i < 8 ==> s[i] == '0',
        g.timestamp == Some(u32::MAX) ==> forall|i: int| 0 <= i < 8 ==> s[i] == 'f',
{
    lemma_object_id_fixed_timestamp_prefix(g, s);
    let x = g.timestamp->Some_0;
    let p = be32(x);
    if x == 0 {
        assert((0u32 >> 24) as u8 == 0 && (0u32 >> 16) as u8 == 0 && (0u32 >> 8) as u8 == 0
            && 0u32 as u8 == 0) by (bit_vector);
        assert forall|i: int| 0 <= i < 8 implies s[i] == '0' by {
            assert(s[i] == s.subrange(0, 8)[i]);
            assert(p[i / 2] == 0);
        }
    } else {
        assert((0xFFFF_FFFFu32 >> 24) as u8 == 0xFF && (0xFFFF_FFFFu32 >> 16) as u8 == 0xFF
            && (0xFFFF_FFFFu32 >> 8) as u8 == 0xFF && 0xFFFF_FFFFu32 as u8 == 0xFF) by (bit_vector);
        assert forall|i: int| 0 <= i < 8 implies s[i] == 'f' by {
            assert(s[i] == s.subrange(0, 8)[i]);
            assert(p[i / 2] == 0xFF);
        }
    }
}

} // verus!
