use vstd::prelude::*;

use vstd::string::StringSliceAdditionalSpecFns;

use crate::error::{Argument, ParseError};

verus! {

/// Longest nanosecond field of a timestamp, in digits.
pub const TIMESTAMP_NANOS_DIGITS: usize = 9;

/// Longest timestamp text: twenty digits of seconds and nine of nanoseconds.
pub const TIMESTAMP_MAX_DIGITS: usize = 29;

pub open spec fn is_digit(c: u8) -> bool {
    0x30 <= c && c <= 0x39
}

pub open spec fn all_digits(s: Seq<u8>) -> bool {
    forall|i: int| 0 <= i < s.len() ==> is_digit(#[trigger] s[i])
}

/// The number that a string of decimal digits denotes.
pub open spec fn decimal_value(s: Seq<u8>) -> nat
    decreases s.len(),
{
    if s.len() == 0 {
        0
    } else {
        decimal_value(s.drop_last()) * 10 + (s.last() - 0x30) as nat
    }
}

pub open spec fn pow10(n: nat) -> nat
    decreases n,
{
    if n == 0 {
        1
    } else {
        10 * pow10((n - 1) as nat)
    }
}

/// Where the seconds of a timestamp text end and its nanoseconds begin.
pub open spec fn nanos_start(len: nat) -> nat {
    if len > TIMESTAMP_NANOS_DIGITS {
        (len - TIMESTAMP_NANOS_DIGITS) as nat
    } else {
        0
    }
}

/// The (seconds, nanoseconds) that a timestamp text of digits denotes.
pub open spec fn timestamp_value(s: Seq<u8>) -> (nat, nat) {
    let k = nanos_start(s.len()) as int;
    (decimal_value(s.subrange(0, k)), decimal_value(s.subrange(k, s.len() as int)))
}

/// What parsing a timestamp text gives: the rule that `parse_timestamp_ns` follows.
pub open spec fn timestamp_result(s: Seq<u8>) -> Result<(u64, u32), ParseError> {
    if s.len() == 0 || s.len() > TIMESTAMP_MAX_DIGITS {
        Err(ParseError::InvalidLength { argument: Argument::Timestamp, length: s.len() as usize })
    } else if !all_digits(s) {
        Err(ParseError::InvalidFormat { argument: Argument::Timestamp })
    } else if timestamp_value(s).0 > u64::MAX {
        Err(ParseError::OutOfRange { argument: Argument::Timestamp })
    } else {
        Ok((timestamp_value(s).0 as u64, timestamp_value(s).1 as u32))
    }
}

proof fn lemma_pow10_small()
    ensures
        forall|n: nat| n <= 9 ==> #[trigger] pow10(n) <= 1_000_000_000,
{
    reveal_with_fuel(pow10, 10);
    assert forall|n: nat| n <= 9 implies #[trigger] pow10(n) <= 1_000_000_000 by {
        reveal_with_fuel(pow10, 10);
    }
}

proof fn lemma_decimal_bound(s: Seq<u8>)
    requires
        all_digits(s),
    ensures
        decimal_value(s) < pow10(s.len()),
    decreases s.len(),
{
    if s.len() > 0 {
        let p = s.drop_last();
        lemma_decimal_bound(p);
        let v = decimal_value(p);
        let d = (s.last() - 0x30) as nat;
        let q = pow10(p.len());
        assert(s.last() == s[s.len() - 1]);
        assert(v * 10 + d < 10 * q) by (nonlinear_arith)
            requires
                v < q,
                d < 10,
        ;
    }
}

/// Appending digits never makes the value smaller.
proof fn lemma_decimal_grows(s: Seq<u8>, n: int)
    requires
        all_digits(s),
        0 <= n <= s.len(),
    ensures
        decimal_value(s.subrange(0, n)) <= decimal_value(s),
    decreases s.len() - n,
{
    if n < s.len() {
        lemma_decimal_grows(s, n + 1);
        let t = s.subrange(0, n + 1);
        assert(t.drop_last() =~= s.subrange(0, n));
    } else {
        assert(s.subrange(0, n) =~= s);
    }
}

/// Reads the decimal digits `b[lo..hi]` as a `u64`; `None` where the value does not fit.
fn read_decimal(b: &[u8], lo: usize, hi: usize) -> (r: Option<u64>)
    requires
        lo <= hi <= b@.len(),
        all_digits(b@.subrange(lo as int, hi as int)),
    ensures
        match r {
            Some(v) => v as nat == decimal_value(b@.subrange(lo as int, hi as int)),
            None => decimal_value(b@.subrange(lo as int, hi as int)) > u64::MAX,
        },
{
    let ghost s = b@.subrange(lo as int, hi as int);
    let mut acc: u64 = 0;
    let mut i: usize = lo;
    while i < hi
        invariant
            lo <= i <= hi <= b@.len(),
            s == b@.subrange(lo as int, hi as int),
            all_digits(s),
            acc as nat == decimal_value(s.subrange(0, i - lo)),
        decreases hi - i,
    {
        let ghost t = s.subrange(0, i - lo + 1);
        assert(t.drop_last() =~= s.subrange(0, i - lo));
        assert(t.last() == b@[i as int]);
        assert(is_digit(s[i - lo]));
        let d: u64 = (b[i] - 0x30) as u64;
        let next = match acc.checked_mul(10) {
            Some(m) => m.checked_add(d),
            None => None,
        };
        match next {
            Some(v) => {
                acc = v;
            },
            None => {
                proof {
                    lemma_decimal_grows(s, i - lo + 1);
                }
                return None;
            },
        }
        i = i + 1;
    }
    assert(s.subrange(0, hi - lo) =~= s);
    Some(acc)
}

/// Parses a timestamp given in nanoseconds as decimal digits into whole seconds and the
/// nanoseconds past them.
///
/// The last nine digits are the nanoseconds and those before them the seconds; a text of
/// nine digits or fewer is nanoseconds alone. The text must be 1 to 29 ASCII digits.
pub fn parse_timestamp_ns(value: &str) -> (r: Result<(u64, u32), ParseError>)
    ensures
        r == timestamp_result(value.spec_bytes()),
{
    let b = value.as_bytes();
    let len = b.len();
    let ghost s = b@;
    if len == 0 || len > TIMESTAMP_MAX_DIGITS {
        return Err(ParseError::InvalidLength { argument: Argument::Timestamp, length: len });
    }
    let mut i: usize = 0;
    while i < len
        invariant
            0 <= i <= len,
            0 < len <= TIMESTAMP_MAX_DIGITS,
            len == s.len(),
            s == b@,
            s == value.spec_bytes(),
            forall|j: int| 0 <= j < i ==> is_digit(#[trigger] s[j]),
        decreases len - i,
    {
        if b[i] < 0x30 || b[i] > 0x39 {
            assert(!is_digit(s[i as int]));
            return Err(ParseError::InvalidFormat { argument: Argument::Timestamp });
        }
        i = i + 1;
    }
    let k: usize = if len > TIMESTAMP_NANOS_DIGITS {
        len - TIMESTAMP_NANOS_DIGITS
    } else {
        0
    };
    assert(all_digits(s.subrange(0, k as int)));
    assert(all_digits(s.subrange(k as int, len as int)));
    let nanos = match read_decimal(b, k, len) {
        Some(n) => n,
        None => {
            proof {
                lemma_decimal_bound(s.subrange(k as int, len as int));
                lemma_pow10_small();
            }
            return Err(ParseError::OutOfRange { argument: Argument::Timestamp });
        },
    };
    proof {
        let ns = s.subrange(k as int, len as int);
        lemma_decimal_bound(ns);
        lemma_pow10_small();
        assert(ns.len() <= 9);
    }
    match read_decimal(b, 0, k) {
        Some(secs) => Ok((secs, nanos as u32)),
        None => Err(ParseError::OutOfRange { argument: Argument::Timestamp }),
    }
}


/// Length of a UUID payload, in bytes.
pub const DATA_BYTES: usize = 16;

/// Length of a UUID payload written in hex, in characters.
pub const DATA_HEX_DIGITS: usize = 32;

pub open spec fn is_hex_digit(c: u8) -> bool {
    (0x30 <= c && c <= 0x39) || (0x41 <= c && c <= 0x46) || (0x61 <= c && c <= 0x66)
}

pub open spec fn all_hex(s: Seq<u8>) -> bool {
    forall|i: int| 0 <= i < s.len() ==> is_hex_digit(#[trigger] s[i])
}

/// The value of a hex digit of either case.
pub open spec fn hex_value(c: u8) -> nat {
    if 0x30 <= c && c <= 0x39 {
        (c - 0x30) as nat
    } else if 0x41 <= c && c <= 0x46 {
        (c - 0x41 + 10) as nat
    } else {
        (c - 0x61 + 10) as nat
    }
}

/// The bytes that a string of hex digits denotes, two digits to a byte, high nibble first.
pub open spec fn hex_decoded(s: Seq<u8>) -> Seq<u8> {
    Seq::new(s.len() / 2, |i: int| (hex_value(s[2 * i]) * 16 + hex_value(s[2 * i + 1])) as u8)
}

/// A payload text completed with trailing `'0'` digits to the full 32.
pub open spec fn padded_payload(s: Seq<u8>) -> Seq<u8> {
    s + Seq::new((DATA_HEX_DIGITS - s.len()) as nat, |i: int| 0x30u8)
}

/// What parsing a payload text gives: the rule that `parse_data` follows.
pub open spec fn payload_result(s: Seq<u8>) -> Result<Seq<u8>, ParseError> {
    if s.len() == 0 || s.len() > DATA_HEX_DIGITS {
        Err(ParseError::InvalidLength { argument: Argument::Data, length: s.len() as usize })
    } else if !all_hex(s) {
        Err(ParseError::InvalidFormat { argument: Argument::Data })
    } else {
        Ok(hex_decoded(padded_payload(s)))
    }
}

/// Relies on hex::decode_to_slice: 32 hex digits of either case fill 16 bytes, each byte
/// from two digits with the first as its high nibble.
#[verifier::external_body]
fn decode_hex_16(text: &Vec<u8>) -> (r: Option<[u8; 16]>)
    ensures
        text@.len() == 32 && all_hex(text@) ==> match r {
            Some(d) => d@ == hex_decoded(text@),
            None => false,
        },
{
    let mut data = [0u8; 16];
    match hex::decode_to_slice(text, &mut data) {
        Ok(()) => Some(data),
        Err(_) => None,
    }
}

/// Parses a UUID payload of 1 to 32 hex digits (either case) into 16 bytes.
///
/// A shorter text is completed with trailing `'0'` digits, so that it fills the high-order
/// bytes and leaves the low-order ones zero.
pub fn parse_data(value: &str) -> (r: Result<[u8; 16], ParseError>)
    ensures
        match r {
            Ok(d) => payload_result(value.spec_bytes()) == Ok::<Seq<u8>, ParseError>(d@),
            Err(e) => payload_result(value.spec_bytes()) == Err::<Seq<u8>, ParseError>(e),
        },
{
    let b = value.as_bytes();
    let len = b.len();
    let ghost s = b@;
    if len == 0 || len > DATA_HEX_DIGITS {
        return Err(ParseError::InvalidLength { argument: Argument::Data, length: len });
    }
    let mut full: Vec<u8> = Vec::new();
    let mut i: usize = 0;
    while i < len
        invariant
            0 <= i <= len,
            0 < len <= DATA_HEX_DIGITS,
            len == s.len(),
            s == b@,
            s == value.spec_bytes(),
            full@ == s.subrange(0, i as int),
            forall|j: int| 0 <= j < i ==> is_hex_digit(#[trigger] s[j]),
        decreases len - i,
    {
        let c = b[i];
        if !((0x30 <= c && c <= 0x39) || (0x41 <= c && c <= 0x46) || (0x61 <= c && c <= 0x66)) {
            assert(!is_hex_digit(s[i as int]));
            return Err(ParseError::InvalidFormat { argument: Argument::Data });
        }
        full.push(c);
        i = i + 1;
    }
    while i < DATA_HEX_DIGITS
        invariant
            len <= i <= DATA_HEX_DIGITS,
            len == s.len(),
            full@ == padded_payload(s).subrange(0, i as int),
        decreases DATA_HEX_DIGITS - i,
    {
        full.push(0x30);
        i = i + 1;
    }
    assert(full@ =~= padded_payload(s));
    assert(all_hex(full@)) by {
        assert forall|j: int| 0 <= j < full@.len() implies is_hex_digit(#[trigger] full@[j]) by {
            if j < len {
                assert(full@[j] == s[j]);
            }
        }
    }
    match decode_hex_16(&full) {
        Some(d) => Ok(d),
        None => Err(ParseError::InvalidFormat { argument: Argument::Data }),
    }
}

/// A MAC address that says it was made by software (locally administered bit set) and
/// names one station (multicast bit clear).
pub open spec fn is_local_unicast(m: Seq<u8>) -> bool {
    m.len() == 6 && m[0] & 0x02 == 0x02 && m[0] & 0x01 == 0
}

/// Marks six bytes as a locally administered unicast MAC address: bit 1 of the first byte
/// is set and bit 0 cleared, the other bits are kept.
pub fn to_pseudo_mac(raw: [u8; 6]) -> (r: [u8; 6])
    ensures
        r[0] == (raw[0] | 0x02) & 0xFE,
        forall|i: int| 1 <= i < 6 ==> r[i] == raw[i],
        is_local_unicast(r@),
{
    let r0: u8 = raw[0];
    let first: u8 = (r0 | 0x02) & 0xFE;
    assert(first & 0x02 == 0x02 && first & 0x01 == 0) by (bit_vector)
        requires
            first == (r0 | 0x02) & 0xFE,
    ;
    [first, raw[1], raw[2], raw[3], raw[4], raw[5]]
}

/// Relies on rand::Rng::fill with the thread-local generator of rand::rng; nothing is
/// known of the bytes.
#[verifier::external_body]
fn random_bytes_6() -> [u8; 6] {
    let mut b = [0u8; 6];
    rand::Rng::fill(&mut rand::rng(), &mut b);
    b
}

/// Generates a random, locally administered, unicast MAC address, for a UUID node id
/// where none is given.
pub fn generate_pseudo_mac() -> (r: [u8; 6])
    ensures
        is_local_unicast(r@),
{
    to_pseudo_mac(random_bytes_6())
}


/// The lower-case hex digit for a value below 16.
pub open spec fn hex_char(n: nat) -> char {
    seq!['0', '1', '2', '3', '4', '5', '6', '7', '8', '9', 'a', 'b', 'c', 'd', 'e', 'f'][n as int]
}

pub open spec fn is_lower_hex_char(c: char) -> bool {
    ('0' <= c && c <= '9') || ('a' <= c && c <= 'f')
}

/// The value of the `i`-th nibble of a byte string, high nibble of each byte first.
pub open spec fn nibble(b: Seq<u8>, i: int) -> nat {
    if i % 2 == 0 {
        (b[i / 2] / 16) as nat
    } else {
        (b[i / 2] % 16) as nat
    }
}

/// A byte string written as lower-case hex, two digits to a byte, high nibble first.
pub open spec fn lower_hex(b: Seq<u8>) -> Seq<char> {
    Seq::new(2 * b.len(), |i: int| hex_char(nibble(b, i)))
}

} // verus!
