//! Canonical binary codec primitives.
//!
//! The on-chain serialization format is deterministic: unsigned 64-bit
//! integers are eight little-endian bytes, byte arrays are a 32-bit
//! little-endian length prefix followed by the raw bytes, and addresses are
//! byte arrays of exactly [`crate::address::ADDRESS_LENGTH`] bytes. Composite
//! records concatenate their fields in ascending lexicographic order of the
//! field names, so that every value has exactly one encoding.
//!
//! Each primitive has a specification-level encoder (`spec_enc_*`), a
//! specification-level positional parser (`spec_dec_*`), executable
//! counterparts proved against them, and lemmas showing that parsing an
//! encoding at its own offset recovers the encoded value.

use vstd::bytes::*;
use vstd::prelude::*;

verus! {

/// Why decoding a byte buffer failed. Malformed input is always reported
/// through this type; decoding never panics.
#[derive(Clone, Copy, Debug, PartialEq, Eq, Structural)]
pub enum DecodeError {
    /// The buffer ended before the value did (this includes a declared
    /// byte-array length that exceeds the remaining buffer).
    Truncated,
    /// A parsed value is outside its domain, such as an address field whose
    /// declared length is not the fixed address width.
    Invalid,
    /// The value was parsed but bytes remain after it.
    Trailing,
}

// ---------------------------------------------------------------------------
// Specification-level encoders.
// ---------------------------------------------------------------------------
/// Encoding of a 64-bit integer: eight little-endian bytes.
pub open spec fn spec_enc_u64(v: u64) -> Seq<u8> {
    spec_u64_to_le_bytes(v)
}

/// Encoding of a 32-bit integer: four little-endian bytes.
pub open spec fn spec_enc_u32(v: u32) -> Seq<u8> {
    spec_u32_to_le_bytes(v)
}

/// Encoding of a byte array: 32-bit length prefix, then the raw bytes.
pub open spec fn spec_enc_bytes(b: Seq<u8>) -> Seq<u8>
    recommends
        b.len() <= u32::MAX,
{
    spec_enc_u32(b.len() as u32) + b
}

// ---------------------------------------------------------------------------
// Specification-level positional parsers. Each takes the whole buffer and a
// start offset and yields the parsed value with the offset one past it, or
// `None` when the buffer is too short (or, for addresses, the declared
// length is wrong).
// ---------------------------------------------------------------------------
/// Parse a 64-bit integer at `pos`.
pub open spec fn spec_dec_u64(data: Seq<u8>, pos: int) -> Option<(u64, int)> {
    if 0 <= pos && pos + 8 <= data.len() {
        Some((spec_u64_from_le_bytes(data.subrange(pos, pos + 8)), pos + 8))
    } else {
        None
    }
}

/// Parse a 32-bit integer at `pos`.
pub open spec fn spec_dec_u32(data: Seq<u8>, pos: int) -> Option<(u32, int)> {
    if 0 <= pos && pos + 4 <= data.len() {
        Some((spec_u32_from_le_bytes(data.subrange(pos, pos + 4)), pos + 4))
    } else {
        None
    }
}

/// Parse a length-prefixed byte array at `pos`.
pub open spec fn spec_dec_bytes(data: Seq<u8>, pos: int) -> Option<(Seq<u8>, int)> {
    match spec_dec_u32(data, pos) {
        Some((n, p)) => {
            if p + n <= data.len() {
                Some((data.subrange(p, p + n), p + n))
            } else {
                None
            }
        },
        None => None,
    }
}

// ---------------------------------------------------------------------------
// Executable encoders. Each appends the encoding of one value to `buf`.
// ---------------------------------------------------------------------------
/// Append the eight-byte little-endian encoding of `v`.
pub fn encode_u64(buf: &mut Vec<u8>, v: u64)
    ensures
        final(buf)@ == old(buf)@ + spec_enc_u64(v),
{
    let mut bytes = u64_to_le_bytes(v);
    buf.append(&mut bytes);
}

/// Append the four-byte little-endian encoding of `v`.
pub fn encode_u32(buf: &mut Vec<u8>, v: u32)
    ensures
        final(buf)@ == old(buf)@ + spec_enc_u32(v),
{
    let mut bytes = u32_to_le_bytes(v);
    buf.append(&mut bytes);
}

/// Append the length-prefixed encoding of `b`.
pub fn encode_bytes(buf: &mut Vec<u8>, b: &[u8])
    requires
        b@.len() <= u32::MAX,
    ensures
        final(buf)@ == old(buf)@ + spec_enc_bytes(b@),
{
    encode_u32(buf, b.len() as u32);
    buf.extend_from_slice(b);
    assert(buf@ =~= old(buf)@ + spec_enc_bytes(b@));
}

// ---------------------------------------------------------------------------
// Executable decoders, proved to agree with the positional parsers.
// ---------------------------------------------------------------------------
/// Read a 64-bit integer at `pos`; fails when fewer than eight bytes remain.
pub fn decode_u64_at(data: &[u8], pos: usize) -> (r: Result<(u64, usize), DecodeError>)
    requires
        pos <= data@.len(),
    ensures
        match r {
            Ok((v, next)) => spec_dec_u64(data@, pos as int) == Some((v, next as int)),
            Err(e) => spec_dec_u64(data@, pos as int) is None && e == DecodeError::Truncated,
        },
{
    if data.len() - pos >= 8 {
        let sl = vstd::slice::slice_subrange(data, pos, pos + 8);
        Ok((u64_from_le_bytes(sl), pos + 8))
    } else {
        Err(DecodeError::Truncated)
    }
}

/// Read a 32-bit integer at `pos`; fails when fewer than four bytes remain.
pub fn decode_u32_at(data: &[u8], pos: usize) -> (r: Result<(u32, usize), DecodeError>)
    requires
        pos <= data@.len(),
    ensures
        match r {
            Ok((v, next)) => spec_dec_u32(data@, pos as int) == Some((v, next as int)),
            Err(e) => spec_dec_u32(data@, pos as int) is None && e == DecodeError::Truncated,
        },
{
    if data.len() - pos >= 4 {
        let sl = vstd::slice::slice_subrange(data, pos, pos + 4);
        Ok((u32_from_le_bytes(sl), pos + 4))
    } else {
        Err(DecodeError::Truncated)
    }
}

/// Read a length-prefixed byte array at `pos`; fails when the prefix or the
/// declared number of bytes does not fit in the remaining buffer.
pub fn decode_bytes_at(data: &[u8], pos: usize) -> (r: Result<(Vec<u8>, usize), DecodeError>)
    requires
        pos <= data@.len(),
    ensures
        match r {
            Ok((b, next)) => spec_dec_bytes(data@, pos as int) == Some((b@, next as int)),
            Err(e) => spec_dec_bytes(data@, pos as int) is None && e == DecodeError::Truncated,
        },
{
    let (n, p) = match decode_u32_at(data, pos) {
        Ok(x) => x,
        Err(e) => {
            return Err(e);
        },
    };
    if data.len() - p >= n as usize {
        let sl = vstd::slice::slice_subrange(data, p, p + n as usize);
        Ok((vstd::slice::slice_to_vec(sl), p + n as usize))
    } else {
        Err(DecodeError::Truncated)
    }
}

/// Copy a byte vector.
pub fn clone_bytes(v: &Vec<u8>) -> (r: Vec<u8>)
    ensures
        r@ == v@,
{
    vstd::slice::slice_to_vec(v.as_slice())
}

// ---------------------------------------------------------------------------
// Parse-of-encoding lemmas: parsing a buffer `pre + enc + suf` at offset
// `pre.len()` recovers the encoded value and stops right after it.
// ---------------------------------------------------------------------------
pub proof fn lemma_dec_u64_at(pre: Seq<u8>, v: u64, suf: Seq<u8>)
    ensures
        spec_dec_u64(pre + spec_enc_u64(v) + suf, pre.len() as int) == Some(
            (v, pre.len() as int + 8),
        ),
{
    lemma_auto_spec_u64_to_from_le_bytes();
    let data = pre + spec_enc_u64(v) + suf;
    assert(data.subrange(pre.len() as int, pre.len() as int + 8) =~= spec_enc_u64(v));
}

pub proof fn lemma_dec_u32_at(pre: Seq<u8>, v: u32, suf: Seq<u8>)
    ensures
        spec_dec_u32(pre + spec_enc_u32(v) + suf, pre.len() as int) == Some(
            (v, pre.len() as int + 4),
        ),
{
    lemma_auto_spec_u32_to_from_le_bytes();
    let data = pre + spec_enc_u32(v) + suf;
    assert(data.subrange(pre.len() as int, pre.len() as int + 4) =~= spec_enc_u32(v));
}

pub proof fn lemma_dec_bytes_at(pre: Seq<u8>, b: Seq<u8>, suf: Seq<u8>)
    requires
        b.len() <= u32::MAX,
    ensures
        spec_dec_bytes(pre + spec_enc_bytes(b) + suf, pre.len() as int) == Some(
            (b, pre.len() as int + 4 + b.len()),
        ),
{
    lemma_auto_spec_u32_to_from_le_bytes();
    let data = pre + spec_enc_bytes(b) + suf;
    assert(data =~= pre + spec_enc_u32(b.len() as u32) + (b + suf));
    lemma_dec_u32_at(pre, b.len() as u32, b + suf);
    assert(data.subrange(pre.len() as int + 4, pre.len() as int + 4 + b.len()) =~= b);
}

// ---------------------------------------------------------------------------
// Encoding-of-parse lemmas: the bytes a parser accepts for one value are
// exactly that value's encoding, so each value has a unique encoding.
// ---------------------------------------------------------------------------
pub proof fn lemma_enc_of_dec_u64(data: Seq<u8>, pos: int)
    requires
        spec_dec_u64(data, pos) is Some,
    ensures
        match spec_dec_u64(data, pos) {
            Some((v, p)) => p == pos + 8 && spec_enc_u64(v) == data.subrange(pos, p),
            None => false,
        },
{
    lemma_auto_spec_u64_to_from_le_bytes();
}

pub proof fn lemma_enc_of_dec_u32(data: Seq<u8>, pos: int)
    requires
        spec_dec_u32(data, pos) is Some,
    ensures
        match spec_dec_u32(data, pos) {
            Some((v, p)) => p == pos + 4 && spec_enc_u32(v) == data.subrange(pos, p),
            None => false,
        },
{
    lemma_auto_spec_u32_to_from_le_bytes();
}

pub proof fn lemma_enc_of_dec_bytes(data: Seq<u8>, pos: int)
    requires
        spec_dec_bytes(data, pos) is Some,
    ensures
        match spec_dec_bytes(data, pos) {
            Some((b, p)) => b.len() <= u32::MAX && p == pos + 4 + b.len() && spec_enc_bytes(b)
                == data.subrange(pos, p),
            None => false,
        },
{
    lemma_enc_of_dec_u32(data, pos);
    match spec_dec_u32(data, pos) {
        Some((n, p1)) => {
            let b = data.subrange(p1, p1 + n);
            assert(b.len() == n);
            assert(spec_enc_bytes(b) =~= data.subrange(pos, p1 + n));
        },
        None => {
            assert(false);
        },
    }
}

} // verus!
