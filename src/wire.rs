use vstd::prelude::*;

verus! {

/// The magic byte that opens a registry-encoded payload.
pub const MAGIC_BYTE: u8 = 0;

/// How a raw key or value is to be treated.
#[derive(Debug)]
pub enum WireFormat {
    /// No bytes at all: a null key or value.
    Absent,
    /// Bytes that do not carry the registry framing, kept verbatim.
    Opaque(Vec<u8>),
    /// A registry-framed payload: the schema id and the Avro bytes after it.
    Encoded { id: u32, payload: Vec<u8> },
}

/// A byte sequence carries the registry framing: the magic byte, four bytes
/// of schema id, and at least one more byte.
pub open spec fn is_encoded(b: Seq<u8>) -> bool {
    b.len() > 4 && b[0] == MAGIC_BYTE
}

/// The unsigned integer that four bytes spell in big-endian order.
pub open spec fn be_u32(b: Seq<u8>) -> int {
    b[0] as int * 0x1000000 + b[1] as int * 0x10000 + b[2] as int * 0x100 + b[3] as int
}

/// The schema id of a framed sequence: bytes 1 to 4, big-endian.
pub open spec fn schema_id_of(b: Seq<u8>) -> int {
    be_u32(b.subrange(1, 5))
}

/// The Avro payload of a framed sequence: everything after the schema id.
pub open spec fn payload_of(b: Seq<u8>) -> Seq<u8> {
    b.subrange(5, b.len() as int)
}

/// Reads the big-endian unsigned integer held by `b[start..start + 4]`.
pub fn read_u32_be(b: &[u8], start: usize) -> (r: u32)
    requires
        start + 4 <= b@.len(),
    ensures
        r as int == be_u32(b@.subrange(start as int, start + 4)),
{
    let r: u32 = (b[start] as u32) * 0x1000000 + (b[start + 1] as u32) * 0x10000
        + (b[start + 2] as u32) * 0x100 + (b[start + 3] as u32);
    r
}

/// Copies `b[start..]` into a new vector.
fn tail_from(b: &[u8], start: usize) -> (r: Vec<u8>)
    requires
        start <= b@.len(),
    ensures
        r@ == b@.subrange(start as int, b@.len() as int),
{
    let mut r: Vec<u8> = Vec::new();
    let mut i: usize = start;
    while i < b.len()
        invariant
            start <= i <= b@.len(),
            r@ == b@.subrange(start as int, i as int),
        decreases b@.len() - i,
    {
        r.push(b[i]);
        i = i + 1;
        assert(r@ =~= b@.subrange(start as int, i as int));
    }
    r
}

/// Copies all of `b` into a new vector.
fn copy_all(b: &[u8]) -> (r: Vec<u8>)
    ensures
        r@ == b@,
{
    let r = tail_from(b, 0);
    assert(b@.subrange(0, b@.len() as int) =~= b@);
    r
}

/// Classifies a raw key or value: absent, registry-framed, or opaque.
pub fn classify(bytes: Option<&[u8]>) -> (r: WireFormat)
    ensures
        bytes is None ==> r is Absent,
        bytes is Some && is_encoded(bytes->Some_0@) ==> (r matches WireFormat::Encoded { id, payload }
            && id as int == schema_id_of(bytes->Some_0@)
            && payload@ == payload_of(bytes->Some_0@)),
        bytes is Some && !is_encoded(bytes->Some_0@) ==> (r matches WireFormat::Opaque(v)
            && v@ == bytes->Some_0@),
{
    match bytes {
        None => WireFormat::Absent,
        Some(p) => {
            if p.len() > 4 && p[0] == MAGIC_BYTE {
                let id = read_u32_be(p, 1);
                let payload = tail_from(p, 5);
                WireFormat::Encoded { id, payload }
            } else {
                WireFormat::Opaque(copy_all(p))
            }
        },
    }
}

} // verus!
