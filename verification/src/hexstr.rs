//! Hex text for wire payloads.
//!
//! Protocol messages are exchanged between the parties as hex-encoded text
//! over an out-of-band transport. Encoding to hex and parsing hex back into
//! bytes is done by the `hex` crate; what it computes is pinned down by the
//! specification functions here, and the message-level round trip is proved
//! on top of them.

use crate::channel::{TransferConform, TransferRequest};
use crate::codec::DecodeError;
use crate::wire::{
    spec_dec_conform, spec_dec_request, spec_enc_conform, spec_enc_request,
    lemma_conform_roundtrip, lemma_request_roundtrip,
};
use crate::channel::{TransferConformV, TransferRequestV};
use vstd::prelude::*;

verus! {

/// The lowercase hex digit of a nibble.
pub open spec fn spec_hex_digit(n: u8) -> char
    recommends
        n < 16,
{
    if n == 0 {
        '0'
    } else if n == 1 {
        '1'
    } else if n == 2 {
        '2'
    } else if n == 3 {
        '3'
    } else if n == 4 {
        '4'
    } else if n == 5 {
        '5'
    } else if n == 6 {
        '6'
    } else if n == 7 {
        '7'
    } else if n == 8 {
        '8'
    } else if n == 9 {
        '9'
    } else if n == 10 {
        'a'
    } else if n == 11 {
        'b'
    } else if n == 12 {
        'c'
    } else if n == 13 {
        'd'
    } else if n == 14 {
        'e'
    } else {
        'f'
    }
}

/// Lowercase hex text of a byte sequence: two digits per byte, high nibble
/// first.
pub open spec fn spec_hex_of(b: Seq<u8>) -> Seq<char> {
    Seq::new(
        b.len() * 2,
        |i: int|
            if i % 2 == 0 {
                spec_hex_digit(b[i / 2] >> 4u8)
            } else {
                spec_hex_digit(b[i / 2] & 0xfu8)
            },
    )
}

/// The nibble a hex digit stands for, upper or lower case.
pub open spec fn spec_hex_val(c: char) -> Option<u8> {
    if c == '0' {
        Some(0u8)
    } else if c == '1' {
        Some(1u8)
    } else if c == '2' {
        Some(2u8)
    } else if c == '3' {
        Some(3u8)
    } else if c == '4' {
        Some(4u8)
    } else if c == '5' {
        Some(5u8)
    } else if c == '6' {
        Some(6u8)
    } else if c == '7' {
        Some(7u8)
    } else if c == '8' {
        Some(8u8)
    } else if c == '9' {
        Some(9u8)
    } else if c == 'a' || c == 'A' {
        Some(10u8)
    } else if c == 'b' || c == 'B' {
        Some(11u8)
    } else if c == 'c' || c == 'C' {
        Some(12u8)
    } else if c == 'd' || c == 'D' {
        Some(13u8)
    } else if c == 'e' || c == 'E' {
        Some(14u8)
    } else if c == 'f' || c == 'F' {
        Some(15u8)
    } else {
        None
    }
}

pub open spec fn spec_is_hex_digit(c: char) -> bool {
    spec_hex_val(c) is Some
}

/// Well-formed hex text: even length, hex digits only.
pub open spec fn spec_valid_hex(s: Seq<char>) -> bool {
    s.len() % 2 == 0 && forall|i: int| 0 <= i < s.len() ==> spec_is_hex_digit(#[trigger] s[i])
}

/// The nibble of a hex digit, with 0 for any other character.
pub open spec fn spec_nibble(c: char) -> u8 {
    match spec_hex_val(c) {
        Some(n) => n,
        None => 0u8,
    }
}

/// The bytes well-formed hex text stands for.
pub open spec fn spec_hex_bytes(s: Seq<char>) -> Seq<u8>
    recommends
        spec_valid_hex(s),
{
    Seq::new(
        s.len() / 2,
        |i: int| (spec_nibble(s[2 * i]) << 4u8) | spec_nibble(s[2 * i + 1]),
    )
}

/// Relies on hex::encode: the hex text of a byte string, two lowercase
/// digits per byte, high nibble first.
#[verifier::external_body]
pub(crate) fn hex_encode(b: &[u8]) -> (r: String)
    ensures
        r@ == spec_hex_of(b@),
{
    hex::encode(b)
}

/// Relies on hex::decode: parses hex text, upper- or lowercase, and rejects
/// exactly the strings of odd length or with a non-digit character.
#[verifier::external_body]
pub(crate) fn hex_decode(s: &str) -> (r: Option<Vec<u8>>)
    ensures
        match r {
            Some(b) => spec_valid_hex(s@) && b@ == spec_hex_bytes(s@),
            None => !spec_valid_hex(s@),
        },
{
    match hex::decode(s) {
        Ok(v) => Some(v),
        Err(_) => None,
    }
}

/// A lowercase hex digit stands for the nibble it was made from.
proof fn lemma_hex_digit_val(n: u8)
    requires
        n < 16,
    ensures
        spec_hex_val(spec_hex_digit(n)) == Some(n),
{
}

/// Hex text round trip: the hex of any byte string is well-formed and stands
/// for that byte string.
pub proof fn lemma_hex_roundtrip(b: Seq<u8>)
    ensures
        spec_valid_hex(spec_hex_of(b)),
        spec_hex_bytes(spec_hex_of(b)) == b,
{
    let h = spec_hex_of(b);
    assert(forall|x: u8| (x >> 4u8) < 16 && (x & 0xfu8) < 16) by (bit_vector);
    assert forall|i: int| 0 <= i < h.len() implies spec_is_hex_digit(#[trigger] h[i]) by {
        if i % 2 == 0 {
            lemma_hex_digit_val(b[i / 2] >> 4u8);
        } else {
            lemma_hex_digit_val(b[i / 2] & 0xfu8);
        }
    }
    assert(spec_valid_hex(h));
    assert(forall|x: u8| ((x >> 4u8) << 4u8) | (x & 0xfu8) == x) by (bit_vector);
    assert forall|i: int| 0 <= i < b.len() implies spec_hex_bytes(h)[i] == b[i] by {
        assert(h[2 * i] == spec_hex_digit(b[i] >> 4u8));
        assert(h[2 * i + 1] == spec_hex_digit(b[i] & 0xfu8));
        lemma_hex_digit_val(b[i] >> 4u8);
        lemma_hex_digit_val(b[i] & 0xfu8);
    }
    assert(spec_hex_bytes(h) =~= b);
}

impl TransferRequest {
    /// The request as hex text of its canonical encoding, ready to hand to
    /// the counterparty.
    pub fn to_hex(&self) -> (r: String)
        requires
            self.signature@.len() <= u32::MAX,
        ensures
            r@ == spec_hex_of(spec_enc_request(self@)),
    {
        let bytes = self.serialize();
        hex_encode(bytes.as_slice())
    }

    /// Decode a request from hex text: succeeds exactly when the text is
    /// well-formed hex whose bytes hold exactly one request.
    pub fn from_hex(s: &str) -> (r: Result<TransferRequest, DecodeError>)
        ensures
            match r {
                Ok(req) => spec_valid_hex(s@) && spec_dec_request(spec_hex_bytes(s@)) == Some(
                    req@,
                ),
                Err(_) => !spec_valid_hex(s@) || spec_dec_request(spec_hex_bytes(s@)) is None,
            },
    {
        match hex_decode(s) {
            Some(bytes) => TransferRequest::deserialize(bytes.as_slice()),
            None => Err(DecodeError::Invalid),
        }
    }
}

impl TransferConform {
    /// The conform as hex text of its canonical encoding.
    pub fn to_hex(&self) -> (r: String)
        requires
            self.signature@.len() <= u32::MAX,
            self.request.signature@.len() <= u32::MAX,
        ensures
            r@ == spec_hex_of(spec_enc_conform(self@)),
    {
        let bytes = self.serialize();
        hex_encode(bytes.as_slice())
    }

    /// Decode a conform from hex text: succeeds exactly when the text is
    /// well-formed hex whose bytes hold exactly one conform.
    pub fn from_hex(s: &str) -> (r: Result<TransferConform, DecodeError>)
        ensures
            match r {
                Ok(cf) => spec_valid_hex(s@) && spec_dec_conform(spec_hex_bytes(s@)) == Some(cf@),
                Err(_) => !spec_valid_hex(s@) || spec_dec_conform(spec_hex_bytes(s@)) is None,
            },
    {
        match hex_decode(s) {
            Some(bytes) => TransferConform::deserialize(bytes.as_slice()),
            None => Err(DecodeError::Invalid),
        }
    }
}

/// Wire round trip for requests: the hex text of an encoded request is
/// well-formed and decodes back to the request.
pub proof fn lemma_request_hex_roundtrip(v: TransferRequestV)
    requires
        v.wf(),
    ensures
        spec_valid_hex(spec_hex_of(spec_enc_request(v))),
        spec_dec_request(spec_hex_bytes(spec_hex_of(spec_enc_request(v)))) == Some(v),
{
    lemma_hex_roundtrip(spec_enc_request(v));
    lemma_request_roundtrip(v);
}

/// Wire round trip for conforms: the hex text of an encoded conform is
/// well-formed and decodes back to the conform.
pub proof fn lemma_conform_hex_roundtrip(v: TransferConformV)
    requires
        v.wf(),
    ensures
        spec_valid_hex(spec_hex_of(spec_enc_conform(v))),
        spec_dec_conform(spec_hex_bytes(spec_hex_of(spec_enc_conform(v)))) == Some(v),
{
    lemma_hex_roundtrip(spec_enc_conform(v));
    lemma_conform_roundtrip(v);
}

} // verus!
