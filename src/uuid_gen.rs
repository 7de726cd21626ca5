use vstd::prelude::*;

use crate::generate::Generate;
use crate::codec::{generate_pseudo_mac, hex_char, is_local_unicast, is_lower_hex_char, lower_hex, nibble};

verus! {

/// The UUID versions that can be generated.
#[derive(Clone, Copy, Debug, PartialEq, Eq, Structural)]
pub enum SupportedUUIDVersion {
    V1,
    V3,
    V4,
    V5,
    V6,
    V7,
    V8,
}

impl SupportedUUIDVersion {
    pub open spec fn spec_number(self) -> u8 {
        match self {
            SupportedUUIDVersion::V1 => 1,
            SupportedUUIDVersion::V3 => 3,
            SupportedUUIDVersion::V4 => 4,
            SupportedUUIDVersion::V5 => 5,
            SupportedUUIDVersion::V6 => 6,
            SupportedUUIDVersion::V7 => 7,
            SupportedUUIDVersion::V8 => 8,
        }
    }

    /// The version number, as it stands in the version nibble of a UUID.
    #[verifier::when_used_as_spec(spec_number)]
    pub fn number(self) -> (r: u8)
        ensures
            r == self.spec_number(),
    {
        match self {
            SupportedUUIDVersion::V1 => 1,
            SupportedUUIDVersion::V3 => 3,
            SupportedUUIDVersion::V4 => 4,
            SupportedUUIDVersion::V5 => 5,
            SupportedUUIDVersion::V6 => 6,
            SupportedUUIDVersion::V7 => 7,
            SupportedUUIDVersion::V8 => 8,
        }
    }

    /// Whether UUIDs of this version carry a timestamp that a caller may fix.
    pub open spec fn spec_takes_timestamp(self) -> bool {
        self == SupportedUUIDVersion::V1 || self == SupportedUUIDVersion::V6
            || self == SupportedUUIDVersion::V7
    }

    #[verifier::when_used_as_spec(spec_takes_timestamp)]
    pub fn takes_timestamp(self) -> (r: bool)
        ensures
            r == self.spec_takes_timestamp(),
    {
        match self {
            SupportedUUIDVersion::V1 | SupportedUUIDVersion::V6 | SupportedUUIDVersion::V7 => true,
            _ => false,
        }
    }

    /// Whether UUIDs of this version are made from a namespace and a name.
    pub open spec fn spec_is_name_based(self) -> bool {
        self == SupportedUUIDVersion::V3 || self == SupportedUUIDVersion::V5
    }

    #[verifier::when_used_as_spec(spec_is_name_based)]
    pub fn is_name_based(self) -> (r: bool)
        ensures
            r == self.spec_is_name_based(),
    {
        match self {
            SupportedUUIDVersion::V3 | SupportedUUIDVersion::V5 => true,
            _ => false,
        }
    }
}

/// The well-known namespaces of name-based UUIDs.
#[derive(Clone, Copy, Debug, PartialEq, Eq, Structural)]
pub enum SupportedUUIDNamespace {
    DNS,
    OID,
    URL,
    X500,
}

/// The bytes of a namespace UUID: `6ba7b81x-9dad-11d1-80b4-00c04fd430c8`, where `x` is
/// 0 for DNS, 1 for URL, 2 for OID and 4 for X.500.
pub open spec fn namespace_bytes(ns: SupportedUUIDNamespace) -> Seq<u8> {
    let x: u8 = match ns {
        SupportedUUIDNamespace::DNS => 0x10,
        SupportedUUIDNamespace::URL => 0x11,
        SupportedUUIDNamespace::OID => 0x12,
        SupportedUUIDNamespace::X500 => 0x14,
    };
    seq![0x6bu8, 0xa7, 0xb8, x, 0x9d, 0xad, 0x11, 0xd1, 0x80, 0xb4, 0x00, 0xc0, 0x4f, 0xd4, 0x30, 0xc8]
}

impl SupportedUUIDNamespace {
    /// The namespace UUID, as 16 bytes.
    pub fn to_bytes(self) -> (r: [u8; 16])
        ensures
            r@ == namespace_bytes(self),
    {
        let x: u8 = match self {
            SupportedUUIDNamespace::DNS => 0x10,
            SupportedUUIDNamespace::URL => 0x11,
            SupportedUUIDNamespace::OID => 0x12,
            SupportedUUIDNamespace::X500 => 0x14,
        };
        let r = [0x6bu8, 0xa7, 0xb8, x, 0x9d, 0xad, 0x11, 0xd1, 0x80, 0xb4, 0x00, 0xc0, 0x4f, 0xd4, 0x30, 0xc8];
        assert(r@ =~= namespace_bytes(self));
        r
    }
}

/// A UUID of the given version in the RFC 4122 variant: the high nibble of byte 6 is the
/// version and the two high bits of byte 8 are `10`.
pub open spec fn has_version(b: Seq<u8>, v: u8) -> bool {
    b.len() == 16 && b[6] >> 4 == v && b[8] & 0xC0 == 0x80
}

pub open spec fn is_hyphen_position(i: int) -> bool {
    i == 8 || i == 13 || i == 18 || i == 23
}

/// Which hex digit of the 32 stands at position `i` of the hyphenated form.
pub open spec fn digit_index(i: int) -> int {
    if i < 8 {
        i
    } else if i < 13 {
        i - 1
    } else if i < 18 {
        i - 2
    } else if i < 23 {
        i - 3
    } else {
        i - 4
    }
}

/// The canonical text of a UUID: 32 lower-case hex digits in groups of 8, 4, 4, 4 and 12,
/// joined by hyphens.
pub open spec fn hyphenated(b: Seq<u8>) -> Seq<char> {
    Seq::new(36, |i: int| if is_hyphen_position(i) { '-' } else { lower_hex(b)[digit_index(i)] })
}

/// A text in the canonical UUID form whose version digit is `v` and whose variant digit
/// is one of `8`, `9`, `a`, `b`.
pub open spec fn is_canonical_uuid(s: Seq<char>, v: u8) -> bool {
    &&& s.len() == 36
    &&& forall|i: int| 0 <= i < 36 && is_hyphen_position(i) ==> s[i] == '-'
    &&& forall|i: int| 0 <= i < 36 && !is_hyphen_position(i) ==> is_lower_hex_char(#[trigger] s[i])
    &&& s[14] == hex_char(v as nat)
    &&& (s[19] == '8' || s[19] == '9' || s[19] == 'a' || s[19] == 'b')
}

/// The hyphenated text of any UUID with a version and the RFC 4122 variant is canonical,
/// with its version digit at index 14 and its variant digit at index 19.
pub proof fn lemma_hyphenated_is_canonical(b: Seq<u8>, v: u8)
    requires
        has_version(b, v),
        v < 16,
    ensures
        is_canonical_uuid(hyphenated(b), v),
{
    let s = hyphenated(b);
    assert forall|i: int| 0 <= i < 36 && !is_hyphen_position(i) implies is_lower_hex_char(
        #[trigger] s[i],
    ) by {
        let k = digit_index(i);
        assert(nibble(b, k) < 16);
    }
    let b6 = b[6];
    let b8 = b[8];
    assert(b6 / 16 == b6 >> 4) by (bit_vector);
    assert(b8 & 0xC0 == 0x80 ==> 8 <= b8 / 16 && b8 / 16 <= 11) by (bit_vector);
    assert(s[14] == lower_hex(b)[12]);
    assert(s[19] == lower_hex(b)[16]);
}

/// The UUID that the name-based version 3 algorithm (MD5) makes of a namespace and a name.
pub uninterp spec fn md5_uuid(namespace: Seq<u8>, name: Seq<char>) -> Seq<u8>;

/// The UUID that the name-based version 5 algorithm (SHA-1) makes of a namespace and a name.
pub uninterp spec fn sha1_uuid(namespace: Seq<u8>, name: Seq<char>) -> Seq<u8>;

/// A custom (version 8) UUID: the payload with the version nibble set to 8 and the
/// variant bits set to RFC 4122.
pub open spec fn custom_uuid(data: Seq<u8>) -> Seq<u8> {
    data.update(6, (data[6] & 0x0F) | 0x80).update(8, (data[8] & 0x3F) | 0x80)
}

/// Relies on uuid's `Display` for `Uuid`: the lower-case hyphenated form of its bytes.
#[verifier::external_body]
fn uuid_text(b: [u8; 16]) -> (r: String)
    ensures
        r@ == hyphenated(b@),
{
    ::uuid::Uuid::from_bytes(b).to_string()
}

/// 100-nanosecond intervals between the Gregorian epoch (1582-10-15) and the Unix epoch.
pub const TICKS_BETWEEN_EPOCHS: u64 = 0x01B2_1DD2_1381_4000;

/// A Unix time as 100-nanosecond intervals since the Gregorian epoch, modulo 2^64.
pub open spec fn gregorian_ticks(seconds: u64, nanos: u32) -> u64 {
    ((TICKS_BETWEEN_EPOCHS + seconds * 10_000_000 + nanos / 100) % 0x1_0000_0000_0000_0000) as u64
}

/// The first eight bytes of a version 1 UUID: the low 32 bits of the ticks, the next 16,
/// then the version 1 nibble over the top 12 bits of the 60.
pub open spec fn v1_time_bytes(t: u64) -> Seq<u8> {
    seq![
        (t >> 24) as u8, (t >> 16) as u8, (t >> 8) as u8, t as u8,
        (t >> 40) as u8, (t >> 32) as u8,
        (((t >> 56) & 0x0F) | 0x10) as u8, (t >> 48) as u8,
    ]
}

/// The first eight bytes of a version 6 UUID: the top 48 of the 60 tick bits, most
/// significant first, then the version 6 nibble over the low 12.
pub open spec fn v6_time_bytes(t: u64) -> Seq<u8> {
    seq![
        (t >> 52) as u8, (t >> 44) as u8, (t >> 36) as u8, (t >> 28) as u8,
        (t >> 20) as u8, (t >> 12) as u8,
        (((t >> 8) & 0x0F) | 0x60) as u8, t as u8,
    ]
}

/// Relies on uuid::Uuid::new_v1 with a timestamp from uuid::Timestamp::from_unix and a
/// fresh uuid::Context, whose first clock sequence is 0: the time fields of the ticks,
/// the clock sequence 0 under the RFC 4122 variant, then the node id.
#[verifier::external_body]
fn uuid_v1_at(seconds: u64, nanos: u32, node: &[u8; 6]) -> (r: [u8; 16])
    ensures
        r@ == v1_time_bytes(gregorian_ticks(seconds, nanos)) + seq![0x80u8, 0x00u8] + node@,
{
    let ts = ::uuid::Timestamp::from_unix(::uuid::Context::new(0), seconds, nanos);
    ::uuid::Uuid::new_v1(ts, node).into_bytes()
}

/// Relies on uuid::Uuid::now_v1, which reads the system clock: version 1, RFC 4122
/// variant, the node id in the last six bytes.
#[verifier::external_body]
fn uuid_v1_now(node: &[u8; 6]) -> (r: [u8; 16])
    ensures
        has_version(r@, 1),
        r@.subrange(10, 16) == node@,
{
    ::uuid::Uuid::now_v1(node).into_bytes()
}

/// Relies on uuid::Uuid::new_v3: MD5 of the namespace and the name's bytes, with
/// version 3 and the RFC 4122 variant set.
#[verifier::external_body]
fn uuid_v3(namespace: &[u8; 16], name: &str) -> (r: [u8; 16])
    ensures
        r@ == md5_uuid(namespace@, name@),
        has_version(r@, 3),
{
    ::uuid::Uuid::new_v3(&::uuid::Uuid::from_bytes(*namespace), name.as_bytes()).into_bytes()
}

/// Relies on uuid::Uuid::new_v4: random bits with version 4 and the RFC 4122 variant set.
#[verifier::external_body]
fn uuid_v4() -> (r: [u8; 16])
    ensures
        has_version(r@, 4),
{
    ::uuid::Uuid::new_v4().into_bytes()
}

/// Relies on uuid::Uuid::new_v5: SHA-1 of the namespace and the name's bytes, with
/// version 5 and the RFC 4122 variant set.
#[verifier::external_body]
fn uuid_v5(namespace: &[u8; 16], name: &str) -> (r: [u8; 16])
    ensures
        r@ == sha1_uuid(namespace@, name@),
        has_version(r@, 5),
{
    ::uuid::Uuid::new_v5(&::uuid::Uuid::from_bytes(*namespace), name.as_bytes()).into_bytes()
}

/// Relies on uuid::Uuid::new_v6 with a timestamp from uuid::Timestamp::from_unix and a
/// random uuid::Context: the sorted time fields of the ticks, a random clock sequence
/// under the RFC 4122 variant, then the node id.
#[verifier::external_body]
fn uuid_v6_at(seconds: u64, nanos: u32, node: &[u8; 6]) -> (r: [u8; 16])
    ensures
        r@.subrange(0, 8) == v6_time_bytes(gregorian_ticks(seconds, nanos)),
        r@[8] & 0xC0 == 0x80,
        r@.subrange(10, 16) == node@,
{
    let ts = ::uuid::Timestamp::from_unix(::uuid::Context::new_random(), seconds, nanos);
    ::uuid::Uuid::new_v6(ts, node).into_bytes()
}

/// Relies on uuid::Uuid::now_v6, which reads the system clock: version 6, RFC 4122
/// variant, the node id in the last six bytes.
#[verifier::external_body]
fn uuid_v6_now(node: &[u8; 6]) -> (r: [u8; 16])
    ensures
        has_version(r@, 6),
        r@.subrange(10, 16) == node@,
{
    ::uuid::Uuid::now_v6(node).into_bytes()
}

/// Relies on uuid::Uuid::new_v7 with a timestamp from uuid::Timestamp::from_unix and a
/// fresh uuid::ContextV7: version 7 and the RFC 4122 variant.
#[verifier::external_body]
fn uuid_v7_at(seconds: u64, nanos: u32) -> (r: [u8; 16])
    ensures
        has_version(r@, 7),
{
    let ts = ::uuid::Timestamp::from_unix(::uuid::ContextV7::new(), seconds, nanos);
    ::uuid::Uuid::new_v7(ts).into_bytes()
}

/// Relies on uuid::Uuid::now_v7, which reads the system clock: version 7 and the
/// RFC 4122 variant.
#[verifier::external_body]
fn uuid_v7_now() -> (r: [u8; 16])
    ensures
        has_version(r@, 7),
{
    ::uuid::Uuid::now_v7().into_bytes()
}

/// Relies on uuid::Uuid::new_v8: the payload with its version nibble set to 8 and its
/// variant bits set to RFC 4122.
#[verifier::external_body]
fn uuid_v8(data: [u8; 16]) -> (r: [u8; 16])
    ensures
        r@ == custom_uuid(data@),
{
    ::uuid::Uuid::new_v8(data).into_bytes()
}


pub proof fn lemma_custom_uuid_has_version(data: Seq<u8>)
    requires
        data.len() == 16,
    ensures
        has_version(custom_uuid(data), 8),
{
    let d6 = data[6];
    let d8 = data[8];
    assert(((d6 & 0x0F) | 0x80) >> 4 == 8) by (bit_vector);
    assert(((d8 & 0x3F) | 0x80) & 0xC0 == 0x80) by (bit_vector);
}

/// The value behind an optional reference.
pub open spec fn deref_opt<T>(o: Option<&T>) -> Option<T> {
    match o {
        Some(x) => Some(*x),
        None => None,
    }
}

/// The node id that a time-based UUID uses: the one given, or else a pseudo-MAC.
pub open spec fn is_resolved_node(n: [u8; 6], given: Option<[u8; 6]>) -> bool {
    match given {
        Some(m) => n == m,
        None => is_local_unicast(n@),
    }
}

/// What `from_params` makes of its arguments, once they are valid.
pub open spec fn is_from_params(
    g: UuidGenerator,
    version: SupportedUUIDVersion,
    timestamp: Option<(u64, u32)>,
    namespace: Option<SupportedUUIDNamespace>,
    name: Option<Seq<char>>,
    node_id: Option<[u8; 6]>,
    data: Option<[u8; 16]>,
) -> bool {
    match version {
        SupportedUUIDVersion::V1 => g matches UuidGenerator::V1 { node_id: n, timestamp: t }
            && t == timestamp && is_resolved_node(n, node_id),
        SupportedUUIDVersion::V3 => g matches UuidGenerator::V3 { namespace: ns, name: nm }
            && ns@ == namespace_bytes(namespace->Some_0) && nm@ == name->Some_0,
        SupportedUUIDVersion::V4 => g is V4,
        SupportedUUIDVersion::V5 => g matches UuidGenerator::V5 { namespace: ns, name: nm }
            && ns@ == namespace_bytes(namespace->Some_0) && nm@ == name->Some_0,
        SupportedUUIDVersion::V6 => g matches UuidGenerator::V6 { node_id: n, timestamp: t }
            && t == timestamp && is_resolved_node(n, node_id),
        SupportedUUIDVersion::V7 => g == (UuidGenerator::V7 { timestamp }),
        SupportedUUIDVersion::V8 => g == (UuidGenerator::V8 { data: data->Some_0 }),
    }
}

/// Whether the arguments of a UUID generator are complete for its version: a namespace
/// and a name for versions 3 and 5, a payload for version 8.
pub open spec fn has_required_params(
    version: SupportedUUIDVersion,
    has_namespace: bool,
    has_name: bool,
    has_data: bool,
) -> bool {
    &&& version.spec_is_name_based() ==> has_namespace && has_name
    &&& version == SupportedUUIDVersion::V8 ==> has_data
}

/// The view of an optional reference to a string.
pub open spec fn name_view(o: Option<&String>) -> Option<Seq<char>> {
    match o {
        Some(s) => Some(s@),
        None => None,
    }
}

/// A UUID generator: the version to generate and what that version is made from.
pub enum UuidGenerator {
    /// Time-based, from a node id and the given time or, without one, the current time.
    V1 { node_id: [u8; 6], timestamp: Option<(u64, u32)> },
    /// Name-based, with MD5.
    V3 { namespace: [u8; 16], name: String },
    /// Random.
    V4,
    /// Name-based, with SHA-1.
    V5 { namespace: [u8; 16], name: String },
    /// Time-ordered, from a node id and the given time or, without one, the current time.
    V6 { node_id: [u8; 6], timestamp: Option<(u64, u32)> },
    /// Unix-time-ordered, from the given time or, without one, the current time.
    V7 { timestamp: Option<(u64, u32)> },
    /// Custom, from a payload of 16 bytes.
    V8 { data: [u8; 16] },
}

impl UuidGenerator {
    /// The version of the UUIDs that this generator makes.
    pub open spec fn version(&self) -> u8 {
        match self {
            UuidGenerator::V1 { .. } => 1,
            UuidGenerator::V3 { .. } => 3,
            UuidGenerator::V4 => 4,
            UuidGenerator::V5 { .. } => 5,
            UuidGenerator::V6 { .. } => 6,
            UuidGenerator::V7 { .. } => 7,
            UuidGenerator::V8 { .. } => 8,
        }
    }

    /// Whether `b` is a UUID that this generator may make.
    pub open spec fn accepts(&self, b: Seq<u8>) -> bool {
        &&& has_version(b, self.version())
        &&& match self {
            UuidGenerator::V1 { node_id, timestamp } => {
                &&& b.subrange(10, 16) == node_id@
                &&& timestamp matches Some((secs, nanos)) ==> b == v1_time_bytes(
                    gregorian_ticks(*secs, *nanos),
                ) + seq![0x80u8, 0x00u8] + node_id@
            },
            UuidGenerator::V3 { namespace, name } => b == md5_uuid(namespace@, name@),
            UuidGenerator::V4 => true,
            UuidGenerator::V5 { namespace, name } => b == sha1_uuid(namespace@, name@),
            UuidGenerator::V6 { node_id, timestamp } => {
                &&& b.subrange(10, 16) == node_id@
                &&& timestamp matches Some((secs, nanos)) ==> b.subrange(0, 8) == v6_time_bytes(
                    gregorian_ticks(*secs, *nanos),
                )
            },
            UuidGenerator::V7 { .. } => true,
            UuidGenerator::V8 { data } => b == custom_uuid(data@),
        }
    }

    /// The node id to use: the one given, or else a fresh pseudo-MAC.
    pub fn resolve_node_id(node_id: Option<&[u8; 6]>) -> (r: [u8; 6])
        ensures
            is_resolved_node(r, deref_opt(node_id)),
    {
        match node_id {
            Some(mac) => *mac,
            None => generate_pseudo_mac(),
        }
    }

    /// A version 1 generator; without a node id it takes a random pseudo-MAC.
    pub fn new_v1(node_id: Option<&[u8; 6]>, timestamp: Option<(u64, u32)>) -> (r: Self)
        ensures
            r matches UuidGenerator::V1 { node_id: n, timestamp: t } && is_resolved_node(n, deref_opt(node_id))
                && t == timestamp,
    {
        UuidGenerator::V1 { node_id: Self::resolve_node_id(node_id), timestamp }
    }

    /// A version 3 generator for a namespace and a name.
    pub fn new_v3(namespace: &SupportedUUIDNamespace, name: &str) -> (r: Self)
        ensures
            r matches UuidGenerator::V3 { namespace: ns, name: n } && ns@ == namespace_bytes(*namespace)
                && n@ == name@,
    {
        UuidGenerator::V3 { namespace: namespace.to_bytes(), name: name.to_owned() }
    }

    /// A version 4 generator.
    pub fn new_v4() -> (r: Self)
        ensures
            r is V4,
    {
        UuidGenerator::V4
    }

    /// A version 5 generator for a namespace and a name.
    pub fn new_v5(namespace: &SupportedUUIDNamespace, name: &str) -> (r: Self)
        ensures
            r matches UuidGenerator::V5 { namespace: ns, name: n } && ns@ == namespace_bytes(*namespace)
                && n@ == name@,
    {
        UuidGenerator::V5 { namespace: namespace.to_bytes(), name: name.to_owned() }
    }

    /// A version 6 generator; without a node id it takes a random pseudo-MAC.
    pub fn new_v6(node_id: Option<&[u8; 6]>, timestamp: Option<(u64, u32)>) -> (r: Self)
        ensures
            r matches UuidGenerator::V6 { node_id: n, timestamp: t } && is_resolved_node(n, deref_opt(node_id))
                && t == timestamp,
    {
        UuidGenerator::V6 { node_id: Self::resolve_node_id(node_id), timestamp }
    }

    /// A version 7 generator.
    pub fn new_v7(timestamp: Option<(u64, u32)>) -> (r: Self)
        ensures
            r == (UuidGenerator::V7 { timestamp }),
    {
        UuidGenerator::V7 { timestamp }
    }

    /// A version 8 generator for a payload.
    pub fn new_v8(data: [u8; 16]) -> (r: Self)
        ensures
            r == (UuidGenerator::V8 { data }),
    {
        UuidGenerator::V8 { data }
    }

    /// A generator of the given version from the arguments that version uses; the others
    /// are not read.
    pub fn from_params(
        version: SupportedUUIDVersion,
        timestamp: Option<(u64, u32)>,
        namespace: Option<&SupportedUUIDNamespace>,
        name: Option<&String>,
        node_id: Option<&[u8; 6]>,
        data: Option<&[u8; 16]>,
    ) -> (r: Self)
        requires
            has_required_params(version, namespace is Some, name is Some, data is Some),
        ensures
            is_from_params(
                r,
                version,
                timestamp,
                deref_opt(namespace),
                name_view(name),
                deref_opt(node_id),
                deref_opt(data),
            ),
    {
        // The fallback arms below cannot be reached: the precondition rules them out.
        match version {
            SupportedUUIDVersion::V1 => Self::new_v1(node_id, timestamp),
            SupportedUUIDVersion::V3 => match (namespace, name) {
                (Some(ns), Some(n)) => Self::new_v3(ns, n.as_str()),
                _ => Self::new_v4(),
            },
            SupportedUUIDVersion::V4 => Self::new_v4(),
            SupportedUUIDVersion::V5 => match (namespace, name) {
                (Some(ns), Some(n)) => Self::new_v5(ns, n.as_str()),
                _ => Self::new_v4(),
            },
            SupportedUUIDVersion::V6 => Self::new_v6(node_id, timestamp),
            SupportedUUIDVersion::V7 => Self::new_v7(timestamp),
            SupportedUUIDVersion::V8 => match data {
                Some(d) => Self::new_v8(*d),
                None => Self::new_v4(),
            },
        }
    }

    /// Generates the bytes of one UUID.
    pub fn generate_bytes(&self) -> (r: [u8; 16])
        ensures
            self.accepts(r@),
    {
        match self {
            UuidGenerator::V1 { node_id, timestamp } => match timestamp {
                Some((seconds, nanos)) => {
                    let r = uuid_v1_at(*seconds, *nanos, node_id);
                    proof {
                        let t = gregorian_ticks(*seconds, *nanos);
                        assert(((((t >> 56) & 0x0F) | 0x10) as u8) >> 4 == 1) by (bit_vector);
                        assert(r@[6] == v1_time_bytes(t)[6]);
                        assert(r@[8] == 0x80u8);
                        assert(0x80u8 & 0xC0 == 0x80) by (bit_vector);
                        assert(r@.subrange(10, 16) =~= node_id@);
                    }
                    r
                },
                None => uuid_v1_now(node_id),
            },
            UuidGenerator::V3 { namespace, name } => uuid_v3(namespace, name.as_str()),
            UuidGenerator::V4 => uuid_v4(),
            UuidGenerator::V5 { namespace, name } => uuid_v5(namespace, name.as_str()),
            UuidGenerator::V6 { node_id, timestamp } => match timestamp {
                Some((seconds, nanos)) => {
                    let r = uuid_v6_at(*seconds, *nanos, node_id);
                    proof {
                        let t = gregorian_ticks(*seconds, *nanos);
                        assert(((((t >> 8) & 0x0F) | 0x60) as u8) >> 4 == 6) by (bit_vector);
                        assert(r@[6] == r@.subrange(0, 8)[6]);
                    }
                    r
                },
                None => uuid_v6_now(node_id),
            },
            UuidGenerator::V7 { timestamp } => match timestamp {
                Some((seconds, nanos)) => uuid_v7_at(*seconds, *nanos),
                None => uuid_v7_now(),
            },
            UuidGenerator::V8 { data } => {
                let r = uuid_v8(*data);
                proof {
                    lemma_custom_uuid_has_version(data@);
                }
                r
            },
        }
    }
}

impl Generate for UuidGenerator {
    open spec fn produces(&self, s: Seq<char>) -> bool {
        exists|b: Seq<u8>| self.accepts(b) && s == hyphenated(b)
    }

    fn generate(&self) -> (r: String) {
        let b = self.generate_bytes();
        let r = uuid_text(b);
        assert(self.accepts(b@) && r@ == hyphenated(b@));
        r
    }
}

/// Every UUID text that a generator returns is in the canonical hyphenated form, with the
/// generator's version digit at index 14 and a variant digit of `8`, `9`, `a` or `b` at
/// index 19.
pub proof fn lemma_uuid_text_is_canonical(g: UuidGenerator, s: Seq<char>)
    requires
        g.produces(s),
    ensures
        is_canonical_uuid(s, g.version()),
{
    let b = choose|b: Seq<u8>| g.accepts(b) && s == hyphenated(b);
    lemma_hyphenated_is_canonical(b, g.version());
}

/// A name-based UUID depends on its namespace and name alone: two generators of the same
/// version given the same namespace and name return the same text.
pub proof fn lemma_name_based_is_deterministic(
    g: UuidGenerator,
    h: UuidGenerator,
    s: Seq<char>,
    t: Seq<char>,
)
    requires
        match (g, h) {
            (
                UuidGenerator::V3 { namespace: a, name: m },
                UuidGenerator::V3 { namespace: b, name: n },
            ) => a@ == b@ && m@ == n@,
            (
                UuidGenerator::V5 { namespace: a, name: m },
                UuidGenerator::V5 { namespace: b, name: n },
            ) => a@ == b@ && m@ == n@,
            _ => false,
        },
        g.produces(s),
        h.produces(t),
    ensures
        s == t,
{
}

} // verus!
