//! Wire encoding of the protocol messages.
//!
//! [`TransferRequest`] and [`TransferConform`] travel between the two parties
//! as opaque byte payloads over an out-of-band transport. They are encoded
//! with the same canonical codec as the on-chain resources: fields in
//! ascending lexicographic order of their declared names, nested records
//! encoded in place. Decoding an encoding gives the message back.

use crate::address::{AccountAddress, ADDRESS_LENGTH};
use crate::channel::{TransferConform, TransferConformV, TransferRequest, TransferRequestV};
use crate::codec;
use crate::codec::DecodeError;
use vstd::bytes::{lemma_auto_spec_u32_to_from_le_bytes, lemma_auto_spec_u64_to_from_le_bytes};
use vstd::prelude::*;

verus! {

// ---------------------------------------------------------------------------
// Transfer requests.
// ---------------------------------------------------------------------------
/// Canonical encoding of a request: `amount`, `other_balance`,
/// `self_balance`, `sender`, `signature`, `version` (lexicographic order).
pub open spec fn spec_enc_request(v: TransferRequestV) -> Seq<u8> {
    codec::spec_enc_u64(v.amount) + codec::spec_enc_u64(v.other_balance) + codec::spec_enc_u64(
        v.self_balance,
    ) + crate::address::spec_enc_address(v.sender) + codec::spec_enc_bytes(v.signature)
        + codec::spec_enc_u64(v.version)
}

/// Parse a request at `pos`.
pub open spec fn spec_dec_request_at(data: Seq<u8>, pos: int) -> Option<(TransferRequestV, int)> {
    match codec::spec_dec_u64(data, pos) {
        Some((amount, p1)) => match codec::spec_dec_u64(data, p1) {
            Some((other_balance, p2)) => match codec::spec_dec_u64(data, p2) {
                Some((self_balance, p3)) => match crate::address::spec_dec_address(data, p3) {
                    Some((sender, p4)) => match codec::spec_dec_bytes(data, p4) {
                        Some((signature, p5)) => match codec::spec_dec_u64(data, p5) {
                            Some((version, p6)) => Some(
                                (
                                    TransferRequestV {
                                        sender,
                                        version,
                                        amount,
                                        self_balance,
                                        other_balance,
                                        signature,
                                    },
                                    p6,
                                ),
                            ),
                            None => None,
                        },
                        None => None,
                    },
                    None => None,
                },
                None => None,
            },
            None => None,
        },
        None => None,
    }
}

/// Whole-buffer decoding of a request.
pub open spec fn spec_dec_request(data: Seq<u8>) -> Option<TransferRequestV> {
    match spec_dec_request_at(data, 0) {
        Some((v, p)) => {
            if p == data.len() {
                Some(v)
            } else {
                None
            }
        },
        None => None,
    }
}

/// Parsing an encoded request at its own offset recovers it.
pub proof fn lemma_dec_request_at(pre: Seq<u8>, v: TransferRequestV, suf: Seq<u8>)
    requires
        v.wf(),
    ensures
        spec_enc_request(v).len() == 72 + v.signature.len(),
        spec_dec_request_at(pre + spec_enc_request(v) + suf, pre.len() as int) == Some(
            (v, pre.len() as int + 72 + v.signature.len()),
        ),
{
    lemma_auto_spec_u64_to_from_le_bytes();
    lemma_auto_spec_u32_to_from_le_bytes();
    let e1 = codec::spec_enc_u64(v.amount);
    let e2 = codec::spec_enc_u64(v.other_balance);
    let e3 = codec::spec_enc_u64(v.self_balance);
    let e4 = crate::address::spec_enc_address(v.sender);
    let e5 = codec::spec_enc_bytes(v.signature);
    let e6 = codec::spec_enc_u64(v.version);
    let data = pre + spec_enc_request(v) + suf;
    assert(data =~= pre + e1 + (e2 + e3 + e4 + e5 + e6 + suf));
    codec::lemma_dec_u64_at(pre, v.amount, e2 + e3 + e4 + e5 + e6 + suf);
    assert(data =~= (pre + e1) + e2 + (e3 + e4 + e5 + e6 + suf));
    codec::lemma_dec_u64_at(pre + e1, v.other_balance, e3 + e4 + e5 + e6 + suf);
    assert(data =~= (pre + e1 + e2) + e3 + (e4 + e5 + e6 + suf));
    codec::lemma_dec_u64_at(pre + e1 + e2, v.self_balance, e4 + e5 + e6 + suf);
    assert(data =~= (pre + e1 + e2 + e3) + e4 + (e5 + e6 + suf));
    crate::address::lemma_dec_address_at(pre + e1 + e2 + e3, v.sender, e5 + e6 + suf);
    assert(data =~= (pre + e1 + e2 + e3 + e4) + e5 + (e6 + suf));
    codec::lemma_dec_bytes_at(pre + e1 + e2 + e3 + e4, v.signature, e6 + suf);
    assert(data =~= (pre + e1 + e2 + e3 + e4 + e5) + e6 + suf);
    codec::lemma_dec_u64_at(pre + e1 + e2 + e3 + e4 + e5, v.version, suf);
}

/// Decoding the encoding of a request gives the request back.
pub proof fn lemma_request_roundtrip(v: TransferRequestV)
    requires
        v.wf(),
    ensures
        spec_dec_request(spec_enc_request(v)) == Some(v),
{
    let data = spec_enc_request(v);
    assert(data =~= Seq::<u8>::empty() + spec_enc_request(v) + Seq::<u8>::empty());
    lemma_dec_request_at(Seq::<u8>::empty(), v, Seq::<u8>::empty());
}

/// Read a request at `pos`.
pub fn decode_request_at(data: &[u8], pos: usize) -> (r: Result<
    (TransferRequest, usize),
    DecodeError,
>)
    requires
        pos <= data@.len(),
    ensures
        match r {
            Ok((req, next)) => spec_dec_request_at(data@, pos as int) == Some(
                (req@, next as int),
            ),
            Err(_) => spec_dec_request_at(data@, pos as int) is None,
        },
{
    let (amount, p1) = match codec::decode_u64_at(data, pos) {
        Ok(x) => x,
        Err(e) => {
            return Err(e);
        },
    };
    let (other_balance, p2) = match codec::decode_u64_at(data, p1) {
        Ok(x) => x,
        Err(e) => {
            return Err(e);
        },
    };
    let (self_balance, p3) = match codec::decode_u64_at(data, p2) {
        Ok(x) => x,
        Err(e) => {
            return Err(e);
        },
    };
    let (sender, p4) = match crate::address::decode_address_at(data, p3) {
        Ok(x) => x,
        Err(e) => {
            return Err(e);
        },
    };
    let (signature, p5) = match codec::decode_bytes_at(data, p4) {
        Ok(x) => x,
        Err(e) => {
            return Err(e);
        },
    };
    let (version, p6) = match codec::decode_u64_at(data, p5) {
        Ok(x) => x,
        Err(e) => {
            return Err(e);
        },
    };
    Ok((TransferRequest { sender, version, amount, self_balance, other_balance, signature }, p6))
}

impl TransferRequest {
    /// Append the canonical encoding of this request to `buf`.
    pub fn encode_to(&self, buf: &mut Vec<u8>)
        requires
            self.signature@.len() <= u32::MAX,
        ensures
            final(buf)@ == old(buf)@ + spec_enc_request(self@),
    {
        codec::encode_u64(buf, self.amount);
        codec::encode_u64(buf, self.other_balance);
        codec::encode_u64(buf, self.self_balance);
        self.sender.encode_to(buf);
        codec::encode_bytes(buf, self.signature.as_slice());
        codec::encode_u64(buf, self.version);
        assert(buf@ =~= old(buf)@ + spec_enc_request(self@));
    }

    /// Canonical encoding of this request.
    pub fn serialize(&self) -> (r: Vec<u8>)
        requires
            self.signature@.len() <= u32::MAX,
        ensures
            r@ == spec_enc_request(self@),
    {
        let mut buf: Vec<u8> = Vec::new();
        self.encode_to(&mut buf);
        assert(buf@ =~= spec_enc_request(self@));
        buf
    }

    /// Decode a request from `data`, which must hold exactly one.
    pub fn deserialize(data: &[u8]) -> (r: Result<TransferRequest, DecodeError>)
        ensures
            match r {
                Ok(req) => spec_dec_request(data@) == Some(req@),
                Err(_) => spec_dec_request(data@) is None,
            },
    {
        let (req, p) = match decode_request_at(data, 0) {
            Ok(x) => x,
            Err(e) => {
                return Err(e);
            },
        };
        if p != data.len() {
            return Err(DecodeError::Trailing);
        }
        Ok(req)
    }
}

/// The bytes the request parser accepts for one message are exactly that
/// message's encoding: each request has a unique encoding.
pub proof fn lemma_request_canonical_at(data: Seq<u8>, pos: int)
    requires
        spec_dec_request_at(data, pos) is Some,
    ensures
        match spec_dec_request_at(data, pos) {
            Some((v, p)) => v.wf() && pos + 72 <= p <= data.len() && p == pos + 72
                + v.signature.len() && spec_enc_request(v) == data.subrange(pos, p),
            None => false,
        },
{
    codec::lemma_enc_of_dec_u64(data, pos);
    codec::lemma_enc_of_dec_u64(data, pos + 8);
    codec::lemma_enc_of_dec_u64(data, pos + 16);
    crate::address::lemma_enc_of_dec_address(data, pos + 24);
    match codec::spec_dec_bytes(data, pos + 60) {
        Some((signature, p5)) => {
            codec::lemma_enc_of_dec_bytes(data, pos + 60);
            codec::lemma_enc_of_dec_u64(data, p5);
            match spec_dec_request_at(data, pos) {
                Some((v, p)) => {
                    assert(spec_enc_request(v) =~= data.subrange(pos, p));
                },
                None => {
                    assert(false);
                },
            }
        },
        None => {
            assert(false);
        },
    }
}

/// The encoding is canonical: two requests with the same encoding are the
/// same request.
pub proof fn lemma_enc_request_injective(a: TransferRequestV, b: TransferRequestV)
    requires
        a.wf(),
        b.wf(),
        spec_enc_request(a) == spec_enc_request(b),
    ensures
        a == b,
{
    lemma_request_roundtrip(a);
    lemma_request_roundtrip(b);
}

// ---------------------------------------------------------------------------
// Transfer conforms.
// ---------------------------------------------------------------------------
/// Canonical encoding of a conform: `request`, `sender`, `signature`
/// (lexicographic order), the nested request encoded in place.
pub open spec fn spec_enc_conform(v: TransferConformV) -> Seq<u8> {
    spec_enc_request(v.request) + crate::address::spec_enc_address(v.sender)
        + codec::spec_enc_bytes(v.signature)
}

/// Whole-buffer decoding of a conform.
pub open spec fn spec_dec_conform(data: Seq<u8>) -> Option<TransferConformV> {
    match spec_dec_request_at(data, 0) {
        Some((request, p1)) => match crate::address::spec_dec_address(data, p1) {
            Some((sender, p2)) => match codec::spec_dec_bytes(data, p2) {
                Some((signature, p3)) => {
                    if p3 == data.len() {
                        Some(TransferConformV { sender, signature, request })
                    } else {
                        None
                    }
                },
                None => None,
            },
            None => None,
        },
        None => None,
    }
}

/// Decoding the encoding of a conform gives the conform back.
pub proof fn lemma_conform_roundtrip(v: TransferConformV)
    requires
        v.wf(),
    ensures
        spec_dec_conform(spec_enc_conform(v)) == Some(v),
{
    lemma_auto_spec_u64_to_from_le_bytes();
    lemma_auto_spec_u32_to_from_le_bytes();
    let e1 = spec_enc_request(v.request);
    let e2 = crate::address::spec_enc_address(v.sender);
    let e3 = codec::spec_enc_bytes(v.signature);
    let data = spec_enc_conform(v);
    assert(data =~= Seq::<u8>::empty() + e1 + (e2 + e3));
    lemma_dec_request_at(Seq::<u8>::empty(), v.request, e2 + e3);
    assert(data =~= e1 + e2 + e3);
    crate::address::lemma_dec_address_at(e1, v.sender, e3);
    assert(data =~= (e1 + e2) + e3 + Seq::<u8>::empty());
    codec::lemma_dec_bytes_at(e1 + e2, v.signature, Seq::<u8>::empty());
}

/// The bytes the conform parser accepts for one message are exactly that
/// message's encoding: each conform has a unique encoding.
pub proof fn lemma_conform_canonical(data: Seq<u8>)
    requires
        spec_dec_conform(data) is Some,
    ensures
        match spec_dec_conform(data) {
            Some(v) => v.wf() && spec_enc_conform(v) == data,
            None => false,
        },
{
    lemma_request_canonical_at(data, 0);
    match spec_dec_request_at(data, 0) {
        Some((request, p1)) => {
            crate::address::lemma_enc_of_dec_address(data, p1);
            codec::lemma_enc_of_dec_bytes(data, p1 + 36);
            match spec_dec_conform(data) {
                Some(v) => {
                    assert(spec_enc_conform(v) =~= data);
                },
                None => {
                    assert(false);
                },
            }
        },
        None => {
            assert(false);
        },
    }
}

/// The encoding is canonical: two conforms with the same encoding are the
/// same conform.
pub proof fn lemma_enc_conform_injective(a: TransferConformV, b: TransferConformV)
    requires
        a.wf(),
        b.wf(),
        spec_enc_conform(a) == spec_enc_conform(b),
    ensures
        a == b,
{
    lemma_conform_roundtrip(a);
    lemma_conform_roundtrip(b);
}

impl TransferConform {
    /// Canonical encoding of this conform.
    pub fn serialize(&self) -> (r: Vec<u8>)
        requires
            self.signature@.len() <= u32::MAX,
            self.request.signature@.len() <= u32::MAX,
        ensures
            r@ == spec_enc_conform(self@),
    {
        let mut buf: Vec<u8> = Vec::new();
        self.request.encode_to(&mut buf);
        self.sender.encode_to(&mut buf);
        codec::encode_bytes(&mut buf, self.signature.as_slice());
        assert(buf@ =~= spec_enc_conform(self@));
        buf
    }

    /// Decode a conform from `data`, which must hold exactly one.
    pub fn deserialize(data: &[u8]) -> (r: Result<TransferConform, DecodeError>)
        ensures
            match r {
                Ok(cf) => spec_dec_conform(data@) == Some(cf@),
                Err(_) => spec_dec_conform(data@) is None,
            },
    {
        let (request, p1) = match decode_request_at(data, 0) {
            Ok(x) => x,
            Err(e) => {
                return Err(e);
            },
        };
        let (sender, p2) = match crate::address::decode_address_at(data, p1) {
            Ok(x) => x,
            Err(e) => {
                return Err(e);
            },
        };
        let (signature, p3) = match codec::decode_bytes_at(data, p2) {
            Ok(x) => x,
            Err(e) => {
                return Err(e);
            },
        };
        if p3 != data.len() {
            return Err(DecodeError::Trailing);
        }
        Ok(TransferConform { sender, signature, request })
    }
}

} // verus!
