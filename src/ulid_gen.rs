use vstd::prelude::*;

use crate::generate::Generate;

verus! {

/// Mask of the 48 timestamp bits of a ULID.
pub const ULID_TIME_MASK: u64 = 0xFFFF_FFFF_FFFF;

/// The Crockford base-32 digit for a value below 32 (no I, L, O or U).
pub open spec fn crockford_char(n: nat) -> char {
    seq![
        '0', '1', '2', '3', '4', '5', '6', '7', '8', '9', 'A', 'B', 'C', 'D', 'E', 'F',
        'G', 'H', 'J', 'K', 'M', 'N', 'P', 'Q', 'R', 'S', 'T', 'V', 'W', 'X', 'Y', 'Z',
    ][n as int]
}

pub open spec fn is_crockford_char(c: char) -> bool {
    ('0' <= c && c <= '9') || ('A' <= c && c <= 'Z' && c != 'I' && c != 'L' && c != 'O' && c != 'U')
}

/// Which bits of the 128 the `i`-th character of a ULID text carries: it holds the five
/// bits from this position up (the first one only three).
pub open spec fn ulid_shift(i: int) -> u128 {
    (125 - 5 * i) as u128
}

/// A 128-bit value as the 26 Crockford base-32 digits of a ULID, most significant first.
pub open spec fn crockford(v: u128) -> Seq<char> {
    Seq::new(26, |i: int| crockford_char(((v >> ulid_shift(i)) & 31) as nat))
}

/// Relies on ulid::Ulid::from_datetime at the Unix epoch plus `millis`: the low 48 bits of
/// the milliseconds form the top 48 bits of the value, the 80 below are random.
#[verifier::external_body]
fn ulid_at(millis: u64) -> (r: u128)
    ensures
        r >> 80 == (millis & ULID_TIME_MASK) as u128,
{
    let at = std::time::SystemTime::UNIX_EPOCH + std::time::Duration::from_millis(millis);
    ::ulid::Ulid::from_datetime(at).0
}

/// Relies on ulid::Ulid::new, which reads the system clock and draws random bits.
#[verifier::external_body]
fn ulid_now() -> u128 {
    ::ulid::Ulid::new().0
}

/// Relies on ulid's `Display` for `Ulid`: 26 Crockford base-32 digits, most significant
/// first.
#[verifier::external_body]
fn ulid_text(v: u128) -> (r: String)
    ensures
        r@ == crockford(v),
{
    ::ulid::Ulid(v).to_string()
}

/// A ULID generator: with a timestamp in milliseconds since the Unix epoch, every ULID
/// carries it; without one, each carries the time at which it is made.
pub struct UlidGenerator {
    pub timestamp: Option<u64>,
}

impl UlidGenerator {
    pub fn new(timestamp: Option<u64>) -> (r: Self)
        ensures
            r.timestamp == timestamp,
    {
        UlidGenerator { timestamp }
    }

    /// Whether `v` is a ULID value that this generator may make.
    pub open spec fn accepts(&self, v: u128) -> bool {
        match self.timestamp {
            Some(millis) => v >> 80 == (millis & ULID_TIME_MASK) as u128,
            None => true,
        }
    }
}

impl Generate for UlidGenerator {
    open spec fn produces(&self, s: Seq<char>) -> bool {
        exists|v: u128| self.accepts(v) && s == crockford(v)
    }

    fn generate(&self) -> (r: String) {
        let v = match self.timestamp {
            Some(millis) => ulid_at(millis),
            None => ulid_now(),
        };
        let r = ulid_text(v);
        assert(self.accepts(v) && r@ == crockford(v));
        r
    }
}

/// Every ULID text is 26 characters, each a Crockford base-32 digit (upper case or a
/// decimal digit).
pub proof fn lemma_ulid_text_form(g: UlidGenerator, s: Seq<char>)
    requires
        g.produces(s),
    ensures
        s.len() == 26,
        forall|i: int| 0 <= i < 26 ==> is_crockford_char(#[trigger] s[i]),
{
    let v = choose|v: u128| g.accepts(v) && s == crockford(v);
    assert forall|i: int| 0 <= i < 26 implies is_crockford_char(#[trigger] s[i]) by {
        let sh = ulid_shift(i);
        assert((v >> sh) & 31 < 32) by (bit_vector);
    }
}

/// The first ten characters of a ULID text carry its timestamp and nothing else: two
/// ULIDs made with the same fixed timestamp share them.
pub proof fn lemma_ulid_fixed_timestamp_prefix(g: UlidGenerator, s: Seq<char>, t: Seq<char>)
    requires
        g.timestamp is Some,
        g.produces(s),
        g.produces(t),
    ensures
        s.subrange(0, 10) == t.subrange(0, 10),
{
    let v = choose|v: u128| g.accepts(v) && s == crockford(v);
    let w = choose|w: u128| g.accepts(w) && t == crockford(w);
    assert forall|i: int| 0 <= i < 10 implies s[i] == t[i] by {
        let sh = ulid_shift(i);
        assert(v >> 80 == w >> 80 && 80 <= sh && sh <= 125 ==> (v >> sh) & 31 == (w >> sh) & 31)
            by (bit_vector);
    }
    assert(s.subrange(0, 10) =~= t.subrange(0, 10));
}

/// A ULID made with timestamp 0 starts with ten `'0'` characters.
pub proof fn lemma_ulid_zero_timestamp(g: UlidGenerator, s: Seq<char>)
    requires
        g.timestamp == Some(0u64),
        g.produces(s),
    ensures
        forall|i: int| 0 <= i < 10 ==> s[i] == '0',
{
    let v = choose|v: u128| g.accepts(v) && s == crockford(v);
    assert(0u64 & ULID_TIME_MASK == 0) by (bit_vector);
    assert forall|i: int| 0 <= i < 10 implies s[i] == '0' by {
        let sh = ulid_shift(i);
        assert(v >> 80 == 0 && 80 <= sh && sh <= 125 ==> (v >> sh) & 31 == 0) by (bit_vector);
    }
}

} // verus!
