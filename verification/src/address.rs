//! Account addresses: the fixed-width identifiers of participants.

use crate::codec;
use vstd::prelude::*;

verus! {

/// Width, in bytes, of every account address.
pub const ADDRESS_LENGTH: usize = 32;

/// Canonical encoding of an address: a length-prefixed byte array whose
/// length is always the fixed address width.
pub open spec fn spec_enc_address(a: Seq<u8>) -> Seq<u8>
    recommends
        a.len() == ADDRESS_LENGTH,
{
    codec::spec_enc_bytes(a)
}

/// Parse an address at `pos`: a length-prefixed byte array whose declared
/// length must be the fixed address width.
pub open spec fn spec_dec_address(data: Seq<u8>, pos: int) -> Option<(Seq<u8>, int)> {
    match codec::spec_dec_bytes(data, pos) {
        Some((b, p)) => {
            if b.len() == ADDRESS_LENGTH {
                Some((b, p))
            } else {
                None
            }
        },
        None => None,
    }
}

/// Read an address at `pos`. Fails with `Truncated` when the byte array does
/// not fit the buffer and with `Invalid` when its declared length is not the
/// address width.
pub fn decode_address_at(data: &[u8], pos: usize) -> (r: Result<
    (AccountAddress, usize),
    codec::DecodeError,
>)
    requires
        pos <= data@.len(),
    ensures
        match r {
            Ok((a, next)) => spec_dec_address(data@, pos as int) == Some((a@, next as int)),
            Err(e) => spec_dec_address(data@, pos as int) is None && (e
                == codec::DecodeError::Truncated <==> codec::spec_dec_bytes(
                data@,
                pos as int,
            ) is None) && (e == codec::DecodeError::Invalid <==> codec::spec_dec_bytes(
                data@,
                pos as int,
            ) is Some),
        },
{
    let (b, next) = match codec::decode_bytes_at(data, pos) {
        Ok(x) => x,
        Err(e) => {
            return Err(e);
        },
    };
    match AccountAddress::try_from(b) {
        Some(a) => Ok((a, next)),
        None => Err(codec::DecodeError::Invalid),
    }
}

/// Parsing an encoded address at its own offset recovers it.
pub proof fn lemma_dec_address_at(pre: Seq<u8>, a: Seq<u8>, suf: Seq<u8>)
    requires
        a.len() == ADDRESS_LENGTH,
    ensures
        spec_dec_address(pre + spec_enc_address(a) + suf, pre.len() as int) == Some(
            (a, pre.len() as int + 4 + ADDRESS_LENGTH),
        ),
{
    codec::lemma_dec_bytes_at(pre, a, suf);
}

/// The bytes the address parser accepts for one address are exactly that
/// address's encoding.
pub proof fn lemma_enc_of_dec_address(data: Seq<u8>, pos: int)
    requires
        spec_dec_address(data, pos) is Some,
    ensures
        match spec_dec_address(data, pos) {
            Some((a, p)) => a.len() == ADDRESS_LENGTH && p == pos + 4 + ADDRESS_LENGTH
                && spec_enc_address(a) == data.subrange(pos, p),
            None => false,
        },
{
    codec::lemma_enc_of_dec_bytes(data, pos);
}

/// Fixed-width identifier of an account. Used both as a map key and as an
/// embedded field inside on-chain resources. The wrapped byte vector always
/// holds exactly [`ADDRESS_LENGTH`] bytes.
#[derive(Debug)]
pub struct AccountAddress {
    bytes: Vec<u8>,
}

impl View for AccountAddress {
    type V = Seq<u8>;

    closed spec fn view(&self) -> Seq<u8> {
        self.bytes@
    }
}

impl AccountAddress {
    #[verifier::type_invariant]
    spec fn len_fixed(self) -> bool {
        self.bytes@.len() == ADDRESS_LENGTH
    }

    /// Wrap a byte vector that is already of the fixed address width.
    pub fn new(bytes: Vec<u8>) -> (r: AccountAddress)
        requires
            bytes@.len() == ADDRESS_LENGTH,
        ensures
            r@ == bytes@,
    {
        AccountAddress { bytes }
    }

    /// Wrap a byte vector, rejecting one of the wrong width.
    pub fn try_from(bytes: Vec<u8>) -> (r: Option<AccountAddress>)
        ensures
            match r {
                Some(a) => a@ == bytes@ && bytes@.len() == ADDRESS_LENGTH,
                None => bytes@.len() != ADDRESS_LENGTH,
            },
    {
        if bytes.len() == ADDRESS_LENGTH {
            Some(AccountAddress { bytes })
        } else {
            None
        }
    }

    /// The raw bytes of the address.
    pub fn as_bytes(&self) -> (r: &Vec<u8>)
        ensures
            r@ == self@,
            r@.len() == ADDRESS_LENGTH,
    {
        proof {
            use_type_invariant(&*self);
        }
        &self.bytes
    }

    /// Append the canonical encoding of this address (a length-prefixed byte
    /// array of the fixed width) to `buf`.
    pub fn encode_to(&self, buf: &mut Vec<u8>)
        ensures
            final(buf)@ == old(buf)@ + codec::spec_enc_bytes(self@),
            self@.len() == ADDRESS_LENGTH,
    {
        proof {
            use_type_invariant(&*self);
        }
        codec::encode_bytes(buf, self.bytes.as_slice());
    }
}

impl Clone for AccountAddress {
    fn clone(&self) -> (r: Self)
        ensures
            r@ == self@,
    {
        proof {
            use_type_invariant(&*self);
        }
        AccountAddress { bytes: self.bytes.clone() }
    }
}

impl PartialEq for AccountAddress {
    fn eq(&self, other: &AccountAddress) -> (r: bool) {
        let r = self.bytes == other.bytes;
        proof {
            if r {
                assert(self.bytes@ =~= other.bytes@);
            }
        }
        r
    }
}

impl Eq for AccountAddress {

}

impl vstd::std_specs::cmp::PartialEqSpecImpl for AccountAddress {
    open spec fn obeys_eq_spec() -> bool {
        true
    }

    open spec fn eq_spec(&self, other: &AccountAddress) -> bool {
        self@ == other@
    }
}

} // verus!
