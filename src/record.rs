use vstd::prelude::*;

verus! {

/// Byte length of one encoded placement record.
pub const RECORD_LEN: usize = 16;

/// Placement of one drawable object: screen position (x, y) and a secondary
/// pair (a, b) read by the vertex program. Each field holds the IEEE-754 bit
/// pattern of a 32-bit float.
#[derive(Clone, Copy, Debug, PartialEq, Eq, Structural)]
pub struct PlacementRecord {
    pub x: u32,
    pub y: u32,
    pub a: u32,
    pub b: u32,
}

/// The four little-endian bytes of `v`.
pub open spec fn le_bytes(v: u32) -> Seq<u8> {
    seq![
        (v & 0xff) as u8,
        ((v >> 8u32) & 0xff) as u8,
        ((v >> 16u32) & 0xff) as u8,
        ((v >> 24u32) & 0xff) as u8,
    ]
}

/// The encoded form of a record: its four fields in order, little-endian, unpadded.
pub open spec fn record_bytes(r: PlacementRecord) -> Seq<u8> {
    le_bytes(r.x) + le_bytes(r.y) + le_bytes(r.a) + le_bytes(r.b)
}

/// The record that sixteen bytes encode, if there are exactly sixteen.
pub open spec fn decoded(b: Seq<u8>) -> Option<PlacementRecord> {
    if b.len() == 16 {
        Some(
            PlacementRecord {
                x: le_value(b[0], b[1], b[2], b[3]),
                y: le_value(b[4], b[5], b[6], b[7]),
                a: le_value(b[8], b[9], b[10], b[11]),
                b: le_value(b[12], b[13], b[14], b[15]),
            },
        )
    } else {
        None
    }
}

/// The value of four little-endian bytes.
pub open spec fn le_value(b0: u8, b1: u8, b2: u8, b3: u8) -> u32 {
    (b0 as u32) | ((b1 as u32) << 8u32) | ((b2 as u32) << 16u32) | ((b3 as u32) << 24u32)
}

proof fn lemma_le_value_of_bytes(v: u32)
    ensures
        le_value(le_bytes(v)[0], le_bytes(v)[1], le_bytes(v)[2], le_bytes(v)[3]) == v,
{
    let b0 = (v & 0xff) as u8;
    let b1 = ((v >> 8u32) & 0xff) as u8;
    let b2 = ((v >> 16u32) & 0xff) as u8;
    let b3 = ((v >> 24u32) & 0xff) as u8;
    assert((b0 as u32) | ((b1 as u32) << 8u32) | ((b2 as u32) << 16u32) | ((b3 as u32) << 24u32)
        == v) by (bit_vector)
        requires
            b0 == (v & 0xff) as u8,
            b1 == ((v >> 8u32) & 0xff) as u8,
            b2 == ((v >> 16u32) & 0xff) as u8,
            b3 == ((v >> 24u32) & 0xff) as u8,
    ;
}

/// The error type of bincode's encoders, carried through opaquely.
#[verifier::external_type_specification]
#[verifier::external_body]
pub struct ExEncodeError(bincode::error::EncodeError);

/// Relies on bincode::encode_to_vec: under the standard configuration with fixed
/// integer encoding (little-endian) a tuple of four `u32` is written as each
/// field's four little-endian bytes in order. The writer that collects into a
/// `Vec` and the one that counts its size never fail, so the result is `Ok`.
#[verifier::external_body]
fn bincode_encode_record(r: PlacementRecord) -> (res: Result<Vec<u8>, bincode::error::EncodeError>)
    ensures
        res is Ok,
        res matches Ok(v) ==> v@ == record_bytes(r),
{
    bincode::encode_to_vec(
        (r.x, r.y, r.a, r.b),
        bincode::config::standard().with_fixed_int_encoding(),
    )
}

impl PlacementRecord {
    /// The record's bytes as they are uploaded to its uniform buffer.
    pub fn encode(&self) -> (r: Vec<u8>)
        ensures
            r@ == record_bytes(*self),
            r@.len() == RECORD_LEN,
    {
        match bincode_encode_record(*self) {
            Ok(v) => v,
            Err(_) => Vec::new(),
        }
    }

    /// Reads a record back from its encoded bytes; `None` unless there are
    /// exactly sixteen of them.
    pub fn decode(bytes: &[u8]) -> (r: Option<PlacementRecord>)
        ensures
            r == decoded(bytes@),
            r matches Some(rec) ==> record_bytes(rec) == bytes@,
    {
        if bytes.len() != RECORD_LEN {
            return None;
        }
        let x = read_le(bytes, 0);
        let y = read_le(bytes, 4);
        let a = read_le(bytes, 8);
        let b = read_le(bytes, 12);
        let rec = PlacementRecord { x, y, a, b };
        proof {
            lemma_bytes_of_le_value(bytes@[0], bytes@[1], bytes@[2], bytes@[3]);
            lemma_bytes_of_le_value(bytes@[4], bytes@[5], bytes@[6], bytes@[7]);
            lemma_bytes_of_le_value(bytes@[8], bytes@[9], bytes@[10], bytes@[11]);
            lemma_bytes_of_le_value(bytes@[12], bytes@[13], bytes@[14], bytes@[15]);
            assert(record_bytes(rec) =~= bytes@);
        }
        Some(rec)
    }
}

proof fn lemma_bytes_of_le_value(b0: u8, b1: u8, b2: u8, b3: u8)
    ensures
        le_bytes(le_value(b0, b1, b2, b3)) == seq![b0, b1, b2, b3],
{
    let v = le_value(b0, b1, b2, b3);
    assert(v == (b0 as u32) | ((b1 as u32) << 8u32) | ((b2 as u32) << 16u32) | ((b3 as u32)
        << 24u32));
    assert((v & 0xff) as u8 == b0 && ((v >> 8u32) & 0xff) as u8 == b1 && ((v >> 16u32) & 0xff) as u8
        == b2 && ((v >> 24u32) & 0xff) as u8 == b3) by (bit_vector)
        requires
            v == (b0 as u32) | ((b1 as u32) << 8u32) | ((b2 as u32) << 16u32) | ((b3 as u32)
                << 24u32),
    ;
    assert(le_bytes(v) =~= seq![b0, b1, b2, b3]);
}

fn read_le(bytes: &[u8], at: usize) -> (r: u32)
    requires
        at + 4 <= bytes@.len(),
    ensures
        r == le_value(bytes@[at as int], bytes@[at + 1], bytes@[at + 2], bytes@[at + 3]),
{
    (bytes[at] as u32) | ((bytes[at + 1] as u32) << 8u32) | ((bytes[at + 2] as u32) << 16u32) | ((
    bytes[at + 3] as u32) << 24u32)
}

/// Encoding a record and decoding the bytes gives the record back, bit for bit.
pub proof fn lemma_record_round_trip(r: PlacementRecord)
    ensures
        decoded(record_bytes(r)) == Some(r),
{
    lemma_le_value_of_bytes(r.x);
    lemma_le_value_of_bytes(r.y);
    lemma_le_value_of_bytes(r.a);
    lemma_le_value_of_bytes(r.b);
}

} // verus!
