//! Fixed-width binary codec for index records.
//!
//! One on-disk index record is 16 bytes, big-endian: key (8 bytes,
//! unsigned), offset (4 bytes, unsigned), size (4 bytes, unsigned).  The
//! codec performs no validation of offset or size semantics; the tombstone
//! policy for a zero offset belongs to the replay consumer.

use vstd::prelude::*;
use vstd::slice::slice_index_get;

verus! {

/// The eight big-endian bytes of a key.
pub open spec fn spec_key_bytes(key: u64) -> Seq<u8> {
    seq![
        ((key >> 56) & 0xff) as u8,
        ((key >> 48) & 0xff) as u8,
        ((key >> 40) & 0xff) as u8,
        ((key >> 32) & 0xff) as u8,
        ((key >> 24) & 0xff) as u8,
        ((key >> 16) & 0xff) as u8,
        ((key >> 8) & 0xff) as u8,
        (key & 0xff) as u8,
    ]
}

/// The four big-endian bytes of an offset or size field.
pub open spec fn spec_u32_bytes(x: u32) -> Seq<u8> {
    seq![
        ((x >> 24) & 0xff) as u8,
        ((x >> 16) & 0xff) as u8,
        ((x >> 8) & 0xff) as u8,
        (x & 0xff) as u8,
    ]
}

/// The 16 bytes that encode one (key, offset, size) triple.
pub open spec fn spec_record_bytes(key: u64, offset: u32, size: u32) -> Seq<u8> {
    spec_key_bytes(key) + spec_u32_bytes(offset) + spec_u32_bytes(size)
}

/// The key read big-endian from the first eight bytes of a record.
pub open spec fn spec_key_of(b: Seq<u8>) -> u64
    recommends
        b.len() >= 8,
{
    ((b[0] as u64) << 56) | ((b[1] as u64) << 48) | ((b[2] as u64) << 40) | ((b[3] as u64) << 32)
        | ((b[4] as u64) << 24) | ((b[5] as u64) << 16) | ((b[6] as u64) << 8) | (b[7] as u64)
}

/// The offset read big-endian from bytes 8..12 of a record.
pub open spec fn spec_offset_of(b: Seq<u8>) -> u32
    recommends
        b.len() >= 12,
{
    ((b[8] as u32) << 24) | ((b[9] as u32) << 16) | ((b[10] as u32) << 8) | (b[11] as u32)
}

/// The size read big-endian from bytes 12..16 of a record.
pub open spec fn spec_size_of(b: Seq<u8>) -> u32
    recommends
        b.len() >= 16,
{
    ((b[12] as u32) << 24) | ((b[13] as u32) << 16) | ((b[14] as u32) << 8) | (b[15] as u32)
}

/// The (key, offset, size) triple decoded from the first 16 bytes.
pub open spec fn spec_decoded_entry(b: Seq<u8>) -> (u64, u32, u32)
    recommends
        b.len() >= 16,
{
    (spec_key_of(b), spec_offset_of(b), spec_size_of(b))
}

/// Decodes the first 16 bytes of `buf` as one index record.
pub fn idx_entry(buf: &[u8]) -> (entry: (u64, u32, u32))
    requires
        buf@.len() >= 16,
    ensures
        entry == spec_decoded_entry(buf@),
{
    let key: u64 = ((*slice_index_get(buf, 0) as u64) << 56) | ((*slice_index_get(buf, 1)
        as u64) << 48) | ((*slice_index_get(buf, 2) as u64) << 40) | ((*slice_index_get(buf, 3)
        as u64) << 32) | ((*slice_index_get(buf, 4) as u64) << 24) | ((*slice_index_get(buf, 5)
        as u64) << 16) | ((*slice_index_get(buf, 6) as u64) << 8) | (*slice_index_get(buf, 7)
        as u64);
    let offset: u32 = ((*slice_index_get(buf, 8) as u32) << 24) | ((*slice_index_get(buf, 9)
        as u32) << 16) | ((*slice_index_get(buf, 10) as u32) << 8) | (*slice_index_get(buf, 11)
        as u32);
    let size: u32 = ((*slice_index_get(buf, 12) as u32) << 24) | ((*slice_index_get(buf, 13)
        as u32) << 16) | ((*slice_index_get(buf, 14) as u32) << 8) | (*slice_index_get(buf, 15)
        as u32);
    (key, offset, size)
}

/// Encodes a (key, offset, size) triple as one 16-byte index record.
pub fn encode_idx_entry(key: u64, offset: u32, size: u32) -> (buf: Vec<u8>)
    ensures
        buf@ == spec_record_bytes(key, offset, size),
        buf@.len() == 16,
{
    let mut buf: Vec<u8> = Vec::new();
    buf.push(((key >> 56) & 0xff) as u8);
    buf.push(((key >> 48) & 0xff) as u8);
    buf.push(((key >> 40) & 0xff) as u8);
    buf.push(((key >> 32) & 0xff) as u8);
    buf.push(((key >> 24) & 0xff) as u8);
    buf.push(((key >> 16) & 0xff) as u8);
    buf.push(((key >> 8) & 0xff) as u8);
    buf.push((key & 0xff) as u8);
    buf.push(((offset >> 24) & 0xff) as u8);
    buf.push(((offset >> 16) & 0xff) as u8);
    buf.push(((offset >> 8) & 0xff) as u8);
    buf.push((offset & 0xff) as u8);
    buf.push(((size >> 24) & 0xff) as u8);
    buf.push(((size >> 16) & 0xff) as u8);
    buf.push(((size >> 8) & 0xff) as u8);
    buf.push((size & 0xff) as u8);
    proof {
        assert(buf@ =~= spec_record_bytes(key, offset, size));
    }
    buf
}

/// Round trip: decoding an encoded record yields the original triple, for
/// every key, offset and size.
pub proof fn lemma_idx_entry_round_trip(key: u64, offset: u32, size: u32)
    ensures
        spec_decoded_entry(spec_record_bytes(key, offset, size)) == (key, offset, size),
{
    let b = spec_record_bytes(key, offset, size);
    assert(b.len() == 16);
    assert(spec_key_of(b) == key) by {
        assert(b[0] == ((key >> 56) & 0xff) as u8);
        assert(b[1] == ((key >> 48) & 0xff) as u8);
        assert(b[2] == ((key >> 40) & 0xff) as u8);
        assert(b[3] == ((key >> 32) & 0xff) as u8);
        assert(b[4] == ((key >> 24) & 0xff) as u8);
        assert(b[5] == ((key >> 16) & 0xff) as u8);
        assert(b[6] == ((key >> 8) & 0xff) as u8);
        assert(b[7] == (key & 0xff) as u8);
        assert(((((key >> 56) & 0xff) as u8 as u64) << 56) | ((((key >> 48) & 0xff) as u8
            as u64) << 48) | ((((key >> 40) & 0xff) as u8 as u64) << 40) | ((((key >> 32)
            & 0xff) as u8 as u64) << 32) | ((((key >> 24) & 0xff) as u8 as u64) << 24) | ((((key
            >> 16) & 0xff) as u8 as u64) << 16) | ((((key >> 8) & 0xff) as u8 as u64) << 8) | ((key
            & 0xff) as u8 as u64) == key) by (bit_vector);
    }
    assert(spec_offset_of(b) == offset) by {
        assert(b[8] == ((offset >> 24) & 0xff) as u8);
        assert(b[9] == ((offset >> 16) & 0xff) as u8);
        assert(b[10] == ((offset >> 8) & 0xff) as u8);
        assert(b[11] == (offset & 0xff) as u8);
        assert(((((offset >> 24) & 0xff) as u8 as u32) << 24) | ((((offset >> 16) & 0xff) as u8
            as u32) << 16) | ((((offset >> 8) & 0xff) as u8 as u32) << 8) | ((offset & 0xff) as u8
            as u32) == offset) by (bit_vector);
    }
    assert(spec_size_of(b) == size) by {
        assert(b[12] == ((size >> 24) & 0xff) as u8);
        assert(b[13] == ((size >> 16) & 0xff) as u8);
        assert(b[14] == ((size >> 8) & 0xff) as u8);
        assert(b[15] == (size & 0xff) as u8);
        assert(((((size >> 24) & 0xff) as u8 as u32) << 24) | ((((size >> 16) & 0xff) as u8
            as u32) << 16) | ((((size >> 8) & 0xff) as u8 as u32) << 8) | ((size & 0xff) as u8
            as u32) == size) by (bit_vector);
    }
}

} // verus!
