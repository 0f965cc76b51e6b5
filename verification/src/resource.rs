//! Typed on-chain resources and the access-path resolver.
//!
//! Each resource kind lives under a deterministic storage key (its access
//! path) derived from the address of the account that owns the defining
//! module, the module name and the struct name. Resources are encoded with
//! the canonical codec, fields in ascending lexicographic order of their
//! declared names.

use crate::address::{AccountAddress, ADDRESS_LENGTH};
use crate::codec;
use crate::codec::DecodeError;
use crate::snapshot::AccountMap;
use vstd::bytes::{lemma_auto_spec_u32_to_from_le_bytes, lemma_auto_spec_u64_to_from_le_bytes};
use vstd::prelude::*;

verus! {

/// Leading key byte that marks a resource entry in an account snapshot
/// (code entries carry `0`). Diagnostic only: lookups use the whole key.
pub const RESOURCE_TAG: u8 = 1;

/// The view of an optional value, element-wise.
pub open spec fn opt_view<T: View>(o: Option<T>) -> Option<T::V> {
    match o {
        Some(x) => Some(x@),
        None => None,
    }
}

// ---------------------------------------------------------------------------
// Module and struct names.
// ---------------------------------------------------------------------------
pub open spec fn spec_etoken_module_name() -> Seq<u8> {
    seq![69u8, 84u8, 111u8, 107u8, 101u8, 110u8]
}

pub open spec fn spec_channel_module_name() -> Seq<u8> {
    seq![67u8, 104u8, 97u8, 110u8, 110u8, 101u8, 108u8]
}

pub open spec fn spec_default_struct_name() -> Seq<u8> {
    seq![84u8]
}

pub open spec fn spec_closed_struct_name() -> Seq<u8> {
    seq![67u8, 108u8, 111u8, 115u8, 101u8, 100u8, 67u8, 104u8, 97u8, 110u8, 110u8, 101u8, 108u8]
}

pub open spec fn spec_proof_struct_name() -> Seq<u8> {
    seq![80u8, 114u8, 111u8, 111u8, 102u8]
}

/// Name of the module that defines the token resource.
pub fn etoken_module_name() -> (r: Vec<u8>)
    ensures
        r@ == spec_etoken_module_name(),
{
    let mut v: Vec<u8> = Vec::new();
    v.push(69u8);
    v.push(84u8);
    v.push(111u8);
    v.push(107u8);
    v.push(101u8);
    v.push(110u8);
    assert(v@ =~= spec_etoken_module_name());
    v
}

/// Name of the module that defines the channel resources.
pub fn channel_module_name() -> (r: Vec<u8>)
    ensures
        r@ == spec_channel_module_name(),
{
    let mut v: Vec<u8> = Vec::new();
    v.push(67u8);
    v.push(104u8);
    v.push(97u8);
    v.push(110u8);
    v.push(110u8);
    v.push(101u8);
    v.push(108u8);
    assert(v@ =~= spec_channel_module_name());
    v
}

/// Default struct name used by the token and channel-balance resources.
pub fn default_struct_name() -> (r: Vec<u8>)
    ensures
        r@ == spec_default_struct_name(),
{
    let mut v: Vec<u8> = Vec::new();
    v.push(84u8);
    assert(v@ =~= spec_default_struct_name());
    v
}

/// Struct name of the closed-channel record.
pub fn closed_struct_name() -> (r: Vec<u8>)
    ensures
        r@ == spec_closed_struct_name(),
{
    let mut v: Vec<u8> = Vec::new();
    v.push(67u8);
    v.push(108u8);
    v.push(111u8);
    v.push(115u8);
    v.push(101u8);
    v.push(100u8);
    v.push(67u8);
    v.push(104u8);
    v.push(97u8);
    v.push(110u8);
    v.push(110u8);
    v.push(101u8);
    v.push(108u8);
    assert(v@ =~= spec_closed_struct_name());
    v
}

/// Struct name of the settlement-proof resource.
pub fn proof_struct_name() -> (r: Vec<u8>)
    ensures
        r@ == spec_proof_struct_name(),
{
    let mut v: Vec<u8> = Vec::new();
    v.push(80u8);
    v.push(114u8);
    v.push(111u8);
    v.push(111u8);
    v.push(102u8);
    assert(v@ =~= spec_proof_struct_name());
    v
}

// ---------------------------------------------------------------------------
// Access paths.
// ---------------------------------------------------------------------------
/// Storage key of the resource `struct_name` of module `module_name` deployed
/// at `addr`: the resource tag, then the canonical encoding of the triple
/// (with an empty access qualifier). The same triple always yields the same
/// path.
pub open spec fn spec_resource_path(addr: Seq<u8>, module: Seq<u8>, strct: Seq<u8>) -> Seq<u8> {
    seq![RESOURCE_TAG] + crate::address::spec_enc_address(addr) + codec::spec_enc_bytes(module)
        + codec::spec_enc_bytes(strct)
}

/// Compute the access path for a resource of module `module_name`, struct
/// `struct_name`, owned by the module account `module_address`.
pub fn resource_path(module_address: &AccountAddress, module_name: &[u8], struct_name: &[u8]) -> (r:
    Vec<u8>)
    requires
        module_name@.len() <= u32::MAX,
        struct_name@.len() <= u32::MAX,
    ensures
        r@ == spec_resource_path(module_address@, module_name@, struct_name@),
{
    let mut buf: Vec<u8> = Vec::new();
    buf.push(RESOURCE_TAG);
    module_address.encode_to(&mut buf);
    codec::encode_bytes(&mut buf, module_name);
    codec::encode_bytes(&mut buf, struct_name);
    assert(buf@ =~= spec_resource_path(module_address@, module_name@, struct_name@));
    buf
}

/// Parse an access path back into its triple: the resource tag, then the
/// owning address, the module name and the struct name.
pub open spec fn spec_dec_path(data: Seq<u8>) -> Option<(Seq<u8>, Seq<u8>, Seq<u8>)> {
    if data.len() >= 1 && data[0] == RESOURCE_TAG {
        match crate::address::spec_dec_address(data, 1) {
            Some((addr, p1)) => match codec::spec_dec_bytes(data, p1) {
                Some((module, p2)) => match codec::spec_dec_bytes(data, p2) {
                    Some((strct, p3)) => {
                        if p3 == data.len() {
                            Some((addr, module, strct))
                        } else {
                            None
                        }
                    },
                    None => None,
                },
                None => None,
            },
            None => None,
        }
    } else {
        None
    }
}

/// An access path determines the triple it was derived from.
pub proof fn lemma_path_roundtrip(addr: Seq<u8>, module: Seq<u8>, strct: Seq<u8>)
    requires
        addr.len() == ADDRESS_LENGTH,
        module.len() <= u32::MAX,
        strct.len() <= u32::MAX,
    ensures
        spec_dec_path(spec_resource_path(addr, module, strct)) == Some((addr, module, strct)),
{
    lemma_auto_spec_u64_to_from_le_bytes();
    lemma_auto_spec_u32_to_from_le_bytes();
    let tag = seq![RESOURCE_TAG];
    let e1 = crate::address::spec_enc_address(addr);
    let e2 = codec::spec_enc_bytes(module);
    let e3 = codec::spec_enc_bytes(strct);
    let data = spec_resource_path(addr, module, strct);
    assert(data =~= tag + e1 + (e2 + e3));
    crate::address::lemma_dec_address_at(tag, addr, e2 + e3);
    assert(data =~= (tag + e1) + e2 + e3);
    codec::lemma_dec_bytes_at(tag + e1, module, e3);
    assert(data =~= (tag + e1 + e2) + e3 + Seq::<u8>::empty());
    codec::lemma_dec_bytes_at(tag + e1 + e2, strct, Seq::<u8>::empty());
}

/// Collision freedom: two different (address, module name, struct name)
/// triples never share an access path.
pub proof fn lemma_resource_path_injective(
    addr1: Seq<u8>,
    module1: Seq<u8>,
    strct1: Seq<u8>,
    addr2: Seq<u8>,
    module2: Seq<u8>,
    strct2: Seq<u8>,
)
    requires
        addr1.len() == ADDRESS_LENGTH,
        module1.len() <= u32::MAX,
        strct1.len() <= u32::MAX,
        addr2.len() == ADDRESS_LENGTH,
        module2.len() <= u32::MAX,
        strct2.len() <= u32::MAX,
        spec_resource_path(addr1, module1, strct1) == spec_resource_path(addr2, module2, strct2),
    ensures
        addr1 == addr2 && module1 == module2 && strct1 == strct2,
{
    lemma_path_roundtrip(addr1, module1, strct1);
    lemma_path_roundtrip(addr2, module2, strct2);
}

pub open spec fn spec_etoken_path(addr: Seq<u8>) -> Seq<u8> {
    spec_resource_path(addr, spec_etoken_module_name(), spec_default_struct_name())
}

pub open spec fn spec_channel_path(addr: Seq<u8>) -> Seq<u8> {
    spec_resource_path(addr, spec_channel_module_name(), spec_default_struct_name())
}

pub open spec fn spec_closed_channel_path(addr: Seq<u8>) -> Seq<u8> {
    spec_resource_path(addr, spec_channel_module_name(), spec_closed_struct_name())
}

pub open spec fn spec_proof_path(addr: Seq<u8>) -> Seq<u8> {
    spec_resource_path(addr, spec_channel_module_name(), spec_proof_struct_name())
}

/// Access path of the token resource defined by the module at `module_address`.
pub fn etoken_path(module_address: &AccountAddress) -> (r: Vec<u8>)
    ensures
        r@ == spec_etoken_path(module_address@),
{
    let module = etoken_module_name();
    let strct = default_struct_name();
    resource_path(module_address, module.as_slice(), strct.as_slice())
}

/// Access path of the channel-balance resource defined at `module_address`.
pub fn channel_path(module_address: &AccountAddress) -> (r: Vec<u8>)
    ensures
        r@ == spec_channel_path(module_address@),
{
    let module = channel_module_name();
    let strct = default_struct_name();
    resource_path(module_address, module.as_slice(), strct.as_slice())
}

/// Access path of the closed-channel record defined at `module_address`.
pub fn closed_channel_path(module_address: &AccountAddress) -> (r: Vec<u8>)
    ensures
        r@ == spec_closed_channel_path(module_address@),
{
    let module = channel_module_name();
    let strct = closed_struct_name();
    resource_path(module_address, module.as_slice(), strct.as_slice())
}

/// Access path of the settlement-proof resource defined at `module_address`.
pub fn proof_path(module_address: &AccountAddress) -> (r: Vec<u8>)
    ensures
        r@ == spec_proof_path(module_address@),
{
    let module = channel_module_name();
    let strct = proof_struct_name();
    resource_path(module_address, module.as_slice(), strct.as_slice())
}

// ---------------------------------------------------------------------------
// Resource lookup errors.
// ---------------------------------------------------------------------------
/// Outcome of resolving one resource in a snapshot, when it is not a value.
/// Absence is a typed outcome, not a hard error: callers treat `NotFound`
/// as "resource absent".
#[derive(Clone, Copy, Debug, PartialEq, Eq, Structural)]
pub enum ResourceError {
    /// No entry in the snapshot under the resource's access path.
    NotFound,
    /// An entry exists but its bytes do not decode as this resource.
    Decode(DecodeError),
}

// ---------------------------------------------------------------------------
// Token resource.
// ---------------------------------------------------------------------------
/// A fungible-token balance.
#[derive(Clone, Copy, Debug, PartialEq, Eq, Structural)]
pub struct ETokenResource {
    pub value: u64,
}

/// Mathematical model of [`ETokenResource`].
pub ghost struct ETokenResourceV {
    pub value: u64,
}

impl View for ETokenResource {
    type V = ETokenResourceV;

    open spec fn view(&self) -> ETokenResourceV {
        ETokenResourceV { value: self.value }
    }
}

/// Canonical encoding of a token resource (single field `value`).
pub open spec fn spec_enc_etoken(v: ETokenResourceV) -> Seq<u8> {
    codec::spec_enc_u64(v.value)
}

/// Whole-buffer decoding of a token resource.
pub open spec fn spec_dec_etoken(data: Seq<u8>) -> Option<ETokenResourceV> {
    match codec::spec_dec_u64(data, 0) {
        Some((value, p)) => {
            if p == data.len() {
                Some(ETokenResourceV { value })
            } else {
                None
            }
        },
        None => None,
    }
}

/// What decoding the snapshot entry at the token path of `addr` yields.
pub open spec fn spec_lookup_etoken(map: AccountMap, addr: Seq<u8>) -> Option<ETokenResourceV> {
    match map.spec_get(spec_etoken_path(addr)) {
        Some(bytes) => spec_dec_etoken(bytes),
        None => None,
    }
}

/// Decoding the encoding of a token resource gives the resource back.
pub proof fn lemma_etoken_roundtrip(v: ETokenResourceV)
    ensures
        spec_dec_etoken(spec_enc_etoken(v)) == Some(v),
{
    lemma_auto_spec_u64_to_from_le_bytes();
    let data = spec_enc_etoken(v);
    assert(data =~= Seq::<u8>::empty() + codec::spec_enc_u64(v.value) + Seq::<u8>::empty());
    codec::lemma_dec_u64_at(Seq::<u8>::empty(), v.value, Seq::<u8>::empty());
}

/// The bytes the token parser accepts for one value are exactly that value's
/// encoding: each token resource has a unique encoding.
pub proof fn lemma_etoken_canonical(data: Seq<u8>)
    requires
        spec_dec_etoken(data) is Some,
    ensures
        match spec_dec_etoken(data) {
            Some(v) => spec_enc_etoken(v) == data,
            None => false,
        },
{
    codec::lemma_enc_of_dec_u64(data, 0);
    assert(data.subrange(0, data.len() as int) =~= data);
}

impl ETokenResource {
    /// A token balance of `amount`.
    pub fn new(amount: u64) -> (r: ETokenResource)
        ensures
            r.value == amount,
    {
        ETokenResource { value: amount }
    }

    /// Access path of the token resource defined at `module_address`.
    pub fn resource_path(module_address: &AccountAddress) -> (r: Vec<u8>)
        ensures
            r@ == spec_etoken_path(module_address@),
    {
        etoken_path(module_address)
    }

    /// Canonical encoding of this resource.
    pub fn serialize(&self) -> (r: Vec<u8>)
        ensures
            r@ == spec_enc_etoken(self@),
    {
        let mut buf: Vec<u8> = Vec::new();
        codec::encode_u64(&mut buf, self.value);
        assert(buf@ =~= spec_enc_etoken(self@));
        buf
    }

    /// Decode a token resource from `data`, which must hold exactly one.
    pub fn deserialize(data: &[u8]) -> (r: Result<ETokenResource, DecodeError>)
        ensures
            match r {
                Ok(c) => spec_dec_etoken(data@) == Some(c@),
                Err(_) => spec_dec_etoken(data@) is None,
            },
    {
        let (value, p) = match codec::decode_u64_at(data, 0) {
            Ok(x) => x,
            Err(e) => {
                return Err(e);
            },
        };
        if p != data.len() {
            return Err(DecodeError::Trailing);
        }
        Ok(ETokenResource { value })
    }

    /// Resolve the token resource defined at `module_address` in a snapshot.
    pub fn make_from(module_address: &AccountAddress, account_map: &AccountMap) -> (r: Result<
        ETokenResource,
        ResourceError,
    >)
        ensures
            match r {
                Ok(c) => spec_lookup_etoken(*account_map, module_address@) == Some(c@),
                Err(ResourceError::NotFound) => account_map.spec_get(
                    spec_etoken_path(module_address@),
                ) is None,
                Err(ResourceError::Decode(_)) => account_map.spec_get(
                    spec_etoken_path(module_address@),
                ) is Some && spec_lookup_etoken(*account_map, module_address@) is None,
            },
    {
        let path = etoken_path(module_address);
        match account_map.get(&path) {
            Some(bytes) => match ETokenResource::deserialize(bytes.as_slice()) {
                Ok(c) => Ok(c),
                Err(e) => Err(ResourceError::Decode(e)),
            },
            None => Err(ResourceError::NotFound),
        }
    }
}

// ---------------------------------------------------------------------------
// Channel-balance resource.
// ---------------------------------------------------------------------------
/// One side's on-chain channel balance: the escrowed coin amount and the
/// counterparty the channel was opened with.
#[derive(Debug, PartialEq)]
pub struct ChannelResource {
    /// The counterparty of the account holding this resource.
    pub other: AccountAddress,
    /// Coin amount escrowed by the holder.
    pub coin: u64,
}

/// Mathematical model of [`ChannelResource`].
pub ghost struct ChannelResourceV {
    pub other: Seq<u8>,
    pub coin: u64,
}

impl ChannelResourceV {
    pub open spec fn wf(self) -> bool {
        self.other.len() == ADDRESS_LENGTH
    }
}

impl View for ChannelResource {
    type V = ChannelResourceV;

    open spec fn view(&self) -> ChannelResourceV {
        ChannelResourceV { other: self.other@, coin: self.coin }
    }
}

impl Clone for ChannelResource {
    fn clone(&self) -> (r: Self)
        ensures
            r@ == self@,
    {
        ChannelResource { other: self.other.clone(), coin: self.coin }
    }
}

/// Canonical encoding: fields in lexicographic name order, `coin` then `other`.
pub open spec fn spec_enc_channel(v: ChannelResourceV) -> Seq<u8> {
    codec::spec_enc_u64(v.coin) + crate::address::spec_enc_address(v.other)
}

/// Whole-buffer decoding of a channel-balance resource.
pub open spec fn spec_dec_channel(data: Seq<u8>) -> Option<ChannelResourceV> {
    match codec::spec_dec_u64(data, 0) {
        Some((coin, p1)) => match crate::address::spec_dec_address(data, p1) {
            Some((other, p2)) => {
                if p2 == data.len() {
                    Some(ChannelResourceV { other, coin })
                } else {
                    None
                }
            },
            None => None,
        },
        None => None,
    }
}

/// What decoding the snapshot entry at the channel path of `addr` yields.
pub open spec fn spec_lookup_channel(map: AccountMap, addr: Seq<u8>) -> Option<ChannelResourceV> {
    match map.spec_get(spec_channel_path(addr)) {
        Some(bytes) => spec_dec_channel(bytes),
        None => None,
    }
}

/// Decoding the encoding of a channel-balance resource gives it back.
pub proof fn lemma_channel_roundtrip(v: ChannelResourceV)
    requires
        v.wf(),
    ensures
        spec_dec_channel(spec_enc_channel(v)) == Some(v),
{
    lemma_auto_spec_u64_to_from_le_bytes();
    lemma_auto_spec_u32_to_from_le_bytes();
    let e1 = codec::spec_enc_u64(v.coin);
    let e2 = crate::address::spec_enc_address(v.other);
    let data = spec_enc_channel(v);
    assert(data =~= Seq::<u8>::empty() + e1 + e2);
    codec::lemma_dec_u64_at(Seq::<u8>::empty(), v.coin, e2);
    assert(data =~= e1 + e2 + Seq::<u8>::empty());
    crate::address::lemma_dec_address_at(e1, v.other, Seq::<u8>::empty());
}

/// The bytes the channel parser accepts for one value are exactly that
/// value's encoding: each channel-balance resource has a unique encoding.
pub proof fn lemma_channel_canonical(data: Seq<u8>)
    requires
        spec_dec_channel(data) is Some,
    ensures
        match spec_dec_channel(data) {
            Some(v) => v.wf() && spec_enc_channel(v) == data,
            None => false,
        },
{
    codec::lemma_enc_of_dec_u64(data, 0);
    crate::address::lemma_enc_of_dec_address(data, 8);
    match spec_dec_channel(data) {
        Some(v) => {
            assert(spec_enc_channel(v) =~= data);
        },
        None => {
            assert(false);
        },
    }
}

impl ChannelResource {
    /// Canonical encoding of this resource.
    pub fn serialize(&self) -> (r: Vec<u8>)
        ensures
            r@ == spec_enc_channel(self@),
    {
        let mut buf: Vec<u8> = Vec::new();
        codec::encode_u64(&mut buf, self.coin);
        self.other.encode_to(&mut buf);
        assert(buf@ =~= spec_enc_channel(self@));
        buf
    }

    /// Decode a channel-balance resource from `data`.
    pub fn deserialize(data: &[u8]) -> (r: Result<ChannelResource, DecodeError>)
        ensures
            match r {
                Ok(c) => spec_dec_channel(data@) == Some(c@),
                Err(_) => spec_dec_channel(data@) is None,
            },
    {
        let (coin, p1) = match codec::decode_u64_at(data, 0) {
            Ok(x) => x,
            Err(e) => {
                return Err(e);
            },
        };
        let (other, p2) = match crate::address::decode_address_at(data, p1) {
            Ok(x) => x,
            Err(e) => {
                return Err(e);
            },
        };
        if p2 != data.len() {
            return Err(DecodeError::Trailing);
        }
        Ok(ChannelResource { other, coin })
    }

    /// Resolve the channel-balance resource defined at `module_address`.
    pub fn make_from(module_address: &AccountAddress, account_map: &AccountMap) -> (r: Result<
        ChannelResource,
        ResourceError,
    >)
        ensures
            match r {
                Ok(c) => spec_lookup_channel(*account_map, module_address@) == Some(c@),
                Err(ResourceError::NotFound) => account_map.spec_get(
                    spec_channel_path(module_address@),
                ) is None,
                Err(ResourceError::Decode(_)) => account_map.spec_get(
                    spec_channel_path(module_address@),
                ) is Some && spec_lookup_channel(*account_map, module_address@) is None,
            },
    {
        let path = channel_path(module_address);
        match account_map.get(&path) {
            Some(bytes) => match ChannelResource::deserialize(bytes.as_slice()) {
                Ok(c) => Ok(c),
                Err(e) => Err(ResourceError::Decode(e)),
            },
            None => Err(ResourceError::NotFound),
        }
    }
}

// ---------------------------------------------------------------------------
// Closed-channel record.
// ---------------------------------------------------------------------------
/// The on-chain record left when one side closes a channel: the closing
/// balance, the counterparty, and the block height of the close.
#[derive(Debug, PartialEq)]
pub struct ClosedChannelResource {
    /// The counterparty of the account holding this record.
    pub other: AccountAddress,
    /// Coin amount recorded at the close.
    pub coin: u64,
    /// Block height at which the channel was closed.
    pub height: u64,
}

/// Mathematical model of [`ClosedChannelResource`].
pub ghost struct ClosedChannelResourceV {
    pub other: Seq<u8>,
    pub coin: u64,
    pub height: u64,
}

impl ClosedChannelResourceV {
    pub open spec fn wf(self) -> bool {
        self.other.len() == ADDRESS_LENGTH
    }
}

impl View for ClosedChannelResource {
    type V = ClosedChannelResourceV;

    open spec fn view(&self) -> ClosedChannelResourceV {
        ClosedChannelResourceV { other: self.other@, coin: self.coin, height: self.height }
    }
}

impl Clone for ClosedChannelResource {
    fn clone(&self) -> (r: Self)
        ensures
            r@ == self@,
    {
        ClosedChannelResource { other: self.other.clone(), coin: self.coin, height: self.height }
    }
}

/// Canonical encoding: `coin`, `height`, `other` (lexicographic name order).
pub open spec fn spec_enc_closed_channel(v: ClosedChannelResourceV) -> Seq<u8> {
    codec::spec_enc_u64(v.coin) + codec::spec_enc_u64(v.height) + crate::address::spec_enc_address(
        v.other,
    )
}

/// Whole-buffer decoding of a closed-channel record.
pub open spec fn spec_dec_closed_channel(data: Seq<u8>) -> Option<ClosedChannelResourceV> {
    match codec::spec_dec_u64(data, 0) {
        Some((coin, p1)) => match codec::spec_dec_u64(data, p1) {
            Some((height, p2)) => match crate::address::spec_dec_address(data, p2) {
                Some((other, p3)) => {
                    if p3 == data.len() {
                        Some(ClosedChannelResourceV { other, coin, height })
                    } else {
                        None
                    }
                },
                None => None,
            },
            None => None,
        },
        None => None,
    }
}

/// What decoding the entry at the closed-channel path of `addr` yields.
pub open spec fn spec_lookup_closed_channel(map: AccountMap, addr: Seq<u8>) -> Option<
    ClosedChannelResourceV,
> {
    match map.spec_get(spec_closed_channel_path(addr)) {
        Some(bytes) => spec_dec_closed_channel(bytes),
        None => None,
    }
}

/// Decoding the encoding of a closed-channel record gives it back.
pub proof fn lemma_closed_channel_roundtrip(v: ClosedChannelResourceV)
    requires
        v.wf(),
    ensures
        spec_dec_closed_channel(spec_enc_closed_channel(v)) == Some(v),
{
    lemma_auto_spec_u64_to_from_le_bytes();
    lemma_auto_spec_u32_to_from_le_bytes();
    let e1 = codec::spec_enc_u64(v.coin);
    let e2 = codec::spec_enc_u64(v.height);
    let e3 = crate::address::spec_enc_address(v.other);
    let data = spec_enc_closed_channel(v);
    assert(data =~= Seq::<u8>::empty() + e1 + (e2 + e3));
    codec::lemma_dec_u64_at(Seq::<u8>::empty(), v.coin, e2 + e3);
    assert(data =~= e1 + e2 + e3);
    codec::lemma_dec_u64_at(e1, v.height, e3);
    assert(data =~= (e1 + e2) + e3 + Seq::<u8>::empty());
    crate::address::lemma_dec_address_at(e1 + e2, v.other, Seq::<u8>::empty());
}

/// The bytes the closed-channel parser accepts for one value are exactly
/// that value's encoding: each closed-channel record has a unique encoding.
pub proof fn lemma_closed_channel_canonical(data: Seq<u8>)
    requires
        spec_dec_closed_channel(data) is Some,
    ensures
        match spec_dec_closed_channel(data) {
            Some(v) => v.wf() && spec_enc_closed_channel(v) == data,
            None => false,
        },
{
    codec::lemma_enc_of_dec_u64(data, 0);
    codec::lemma_enc_of_dec_u64(data, 8);
    crate::address::lemma_enc_of_dec_address(data, 16);
    match spec_dec_closed_channel(data) {
        Some(v) => {
            assert(spec_enc_closed_channel(v) =~= data);
        },
        None => {
            assert(false);
        },
    }
}

impl ClosedChannelResource {
    /// Canonical encoding of this record.
    pub fn serialize(&self) -> (r: Vec<u8>)
        ensures
            r@ == spec_enc_closed_channel(self@),
    {
        let mut buf: Vec<u8> = Vec::new();
        codec::encode_u64(&mut buf, self.coin);
        codec::encode_u64(&mut buf, self.height);
        self.other.encode_to(&mut buf);
        assert(buf@ =~= spec_enc_closed_channel(self@));
        buf
    }

    /// Decode a closed-channel record from `data`.
    pub fn deserialize(data: &[u8]) -> (r: Result<ClosedChannelResource, DecodeError>)
        ensures
            match r {
                Ok(c) => spec_dec_closed_channel(data@) == Some(c@),
                Err(_) => spec_dec_closed_channel(data@) is None,
            },
    {
        let (coin, p1) = match codec::decode_u64_at(data, 0) {
            Ok(x) => x,
            Err(e) => {
                return Err(e);
            },
        };
        let (height, p2) = match codec::decode_u64_at(data, p1) {
            Ok(x) => x,
            Err(e) => {
                return Err(e);
            },
        };
        let (other, p3) = match crate::address::decode_address_at(data, p2) {
            Ok(x) => x,
            Err(e) => {
                return Err(e);
            },
        };
        if p3 != data.len() {
            return Err(DecodeError::Trailing);
        }
        Ok(ClosedChannelResource { other, coin, height })
    }

    /// Resolve the closed-channel record defined at `module_address`.
    pub fn make_from(module_address: &AccountAddress, account_map: &AccountMap) -> (r: Result<
        ClosedChannelResource,
        ResourceError,
    >)
        ensures
            match r {
                Ok(c) => spec_lookup_closed_channel(*account_map, module_address@) == Some(c@),
                Err(ResourceError::NotFound) => account_map.spec_get(
                    spec_closed_channel_path(module_address@),
                ) is None,
                Err(ResourceError::Decode(_)) => account_map.spec_get(
                    spec_closed_channel_path(module_address@),
                ) is Some && spec_lookup_closed_channel(*account_map, module_address@) is None,
            },
    {
        let path = closed_channel_path(module_address);
        match account_map.get(&path) {
            Some(bytes) => match ClosedChannelResource::deserialize(bytes.as_slice()) {
                Ok(c) => Ok(c),
                Err(e) => Err(ResourceError::Decode(e)),
            },
            None => Err(ResourceError::NotFound),
        }
    }
}

// ---------------------------------------------------------------------------
// Settlement-proof resource.
// ---------------------------------------------------------------------------
/// An off-chain agreed state published on chain when settling: the agreed
/// version, both balances, and both parties' signatures (opaque bytes).
#[derive(Debug, PartialEq)]
pub struct ProofResource {
    pub version: u64,
    pub self_balance: u64,
    pub other_balance: u64,
    pub self_signature: Vec<u8>,
    pub other_signature: Vec<u8>,
}

/// Mathematical model of [`ProofResource`].
pub ghost struct ProofResourceV {
    pub version: u64,
    pub self_balance: u64,
    pub other_balance: u64,
    pub self_signature: Seq<u8>,
    pub other_signature: Seq<u8>,
}

impl ProofResourceV {
    /// The signatures fit the length prefix of the byte-array encoding.
    pub open spec fn wf(self) -> bool {
        self.self_signature.len() <= u32::MAX && self.other_signature.len() <= u32::MAX
    }
}

impl View for ProofResource {
    type V = ProofResourceV;

    open spec fn view(&self) -> ProofResourceV {
        ProofResourceV {
            version: self.version,
            self_balance: self.self_balance,
            other_balance: self.other_balance,
            self_signature: self.self_signature@,
            other_signature: self.other_signature@,
        }
    }
}

impl Clone for ProofResource {
    fn clone(&self) -> (r: Self)
        ensures
            r@ == self@,
    {
        ProofResource {
            version: self.version,
            self_balance: self.self_balance,
            other_balance: self.other_balance,
            self_signature: codec::clone_bytes(&self.self_signature),
            other_signature: codec::clone_bytes(&self.other_signature),
        }
    }
}

/// Canonical encoding: `other_balance`, `other_signature`, `self_balance`,
/// `self_signature`, `version` (lexicographic name order).
pub open spec fn spec_enc_proof(v: ProofResourceV) -> Seq<u8> {
    codec::spec_enc_u64(v.other_balance) + codec::spec_enc_bytes(v.other_signature)
        + codec::spec_enc_u64(v.self_balance) + codec::spec_enc_bytes(v.self_signature)
        + codec::spec_enc_u64(v.version)
}

/// Whole-buffer decoding of a settlement proof.
pub open spec fn spec_dec_proof(data: Seq<u8>) -> Option<ProofResourceV> {
    match codec::spec_dec_u64(data, 0) {
        Some((other_balance, p1)) => match codec::spec_dec_bytes(data, p1) {
            Some((other_signature, p2)) => match codec::spec_dec_u64(data, p2) {
                Some((self_balance, p3)) => match codec::spec_dec_bytes(data, p3) {
                    Some((self_signature, p4)) => match codec::spec_dec_u64(data, p4) {
                        Some((version, p5)) => {
                            if p5 == data.len() {
                                Some(
                                    ProofResourceV {
                                        version,
                                        self_balance,
                                        other_balance,
                                        self_signature,
                                        other_signature,
                                    },
                                )
                            } else {
                                None
                            }
                        },
                        None => None,
                    },
                    None => None,
                },
                None => None,
            },
            None => None,
        },
        None => None,
    }
}

/// What decoding the entry at the proof path of `addr` yields.
pub open spec fn spec_lookup_proof(map: AccountMap, addr: Seq<u8>) -> Option<ProofResourceV> {
    match map.spec_get(spec_proof_path(addr)) {
        Some(bytes) => spec_dec_proof(bytes),
        None => None,
    }
}

/// Decoding the encoding of a settlement proof gives it back.
pub proof fn lemma_proof_roundtrip(v: ProofResourceV)
    requires
        v.wf(),
    ensures
        spec_dec_proof(spec_enc_proof(v)) == Some(v),
{
    lemma_auto_spec_u64_to_from_le_bytes();
    lemma_auto_spec_u32_to_from_le_bytes();
    let e1 = codec::spec_enc_u64(v.other_balance);
    let e2 = codec::spec_enc_bytes(v.other_signature);
    let e3 = codec::spec_enc_u64(v.self_balance);
    let e4 = codec::spec_enc_bytes(v.self_signature);
    let e5 = codec::spec_enc_u64(v.version);
    let data = spec_enc_proof(v);
    assert(data =~= Seq::<u8>::empty() + e1 + (e2 + e3 + e4 + e5));
    codec::lemma_dec_u64_at(Seq::<u8>::empty(), v.other_balance, e2 + e3 + e4 + e5);
    assert(data =~= e1 + e2 + (e3 + e4 + e5));
    codec::lemma_dec_bytes_at(e1, v.other_signature, e3 + e4 + e5);
    assert(data =~= (e1 + e2) + e3 + (e4 + e5));
    codec::lemma_dec_u64_at(e1 + e2, v.self_balance, e4 + e5);
    assert(data =~= (e1 + e2 + e3) + e4 + e5);
    codec::lemma_dec_bytes_at(e1 + e2 + e3, v.self_signature, e5);
    assert(data =~= (e1 + e2 + e3 + e4) + e5 + Seq::<u8>::empty());
    codec::lemma_dec_u64_at(e1 + e2 + e3 + e4, v.version, Seq::<u8>::empty());
}

/// The bytes the proof parser accepts for one value are exactly that value's
/// encoding: each settlement proof has a unique encoding.
pub proof fn lemma_proof_canonical(data: Seq<u8>)
    requires
        spec_dec_proof(data) is Some,
    ensures
        match spec_dec_proof(data) {
            Some(v) => v.wf() && spec_enc_proof(v) == data,
            None => false,
        },
{
    codec::lemma_enc_of_dec_u64(data, 0);
    match codec::spec_dec_bytes(data, 8) {
        Some((other_signature, p2)) => {
            codec::lemma_enc_of_dec_bytes(data, 8);
            codec::lemma_enc_of_dec_u64(data, p2);
            match codec::spec_dec_bytes(data, p2 + 8) {
                Some((self_signature, p4)) => {
                    codec::lemma_enc_of_dec_bytes(data, p2 + 8);
                    codec::lemma_enc_of_dec_u64(data, p4);
                    match spec_dec_proof(data) {
                        Some(v) => {
                            assert(spec_enc_proof(v) =~= data);
                        },
                        None => {
                            assert(false);
                        },
                    }
                },
                None => {
                    assert(false);
                },
            }
        },
        None => {
            assert(false);
        },
    }
}

impl ProofResource {
    /// Canonical encoding of this resource.
    pub fn serialize(&self) -> (r: Vec<u8>)
        requires
            self@.wf(),
        ensures
            r@ == spec_enc_proof(self@),
    {
        let mut buf: Vec<u8> = Vec::new();
        codec::encode_u64(&mut buf, self.other_balance);
        codec::encode_bytes(&mut buf, self.other_signature.as_slice());
        codec::encode_u64(&mut buf, self.self_balance);
        codec::encode_bytes(&mut buf, self.self_signature.as_slice());
        codec::encode_u64(&mut buf, self.version);
        assert(buf@ =~= spec_enc_proof(self@));
        buf
    }

    /// Decode a settlement proof from `data`.
    pub fn deserialize(data: &[u8]) -> (r: Result<ProofResource, DecodeError>)
        ensures
            match r {
                Ok(c) => spec_dec_proof(data@) == Some(c@),
                Err(_) => spec_dec_proof(data@) is None,
            },
    {
        let (other_balance, p1) = match codec::decode_u64_at(data, 0) {
            Ok(x) => x,
            Err(e) => {
                return Err(e);
            },
        };
        let (other_signature, p2) = match codec::decode_bytes_at(data, p1) {
            Ok(x) => x,
            Err(e) => {
                return Err(e);
            },
        };
        let (self_balance, p3) = match codec::decode_u64_at(data, p2) {
            Ok(x) => x,
            Err(e) => {
                return Err(e);
            },
        };
        let (self_signature, p4) = match codec::decode_bytes_at(data, p3) {
            Ok(x) => x,
            Err(e) => {
                return Err(e);
            },
        };
        let (version, p5) = match codec::decode_u64_at(data, p4) {
            Ok(x) => x,
            Err(e) => {
                return Err(e);
            },
        };
        if p5 != data.len() {
            return Err(DecodeError::Trailing);
        }
        Ok(ProofResource { version, self_balance, other_balance, self_signature, other_signature })
    }

    /// Resolve the settlement proof defined at `module_address`.
    pub fn make_from(module_address: &AccountAddress, account_map: &AccountMap) -> (r: Result<
        ProofResource,
        ResourceError,
    >)
        ensures
            match r {
                Ok(c) => spec_lookup_proof(*account_map, module_address@) == Some(c@),
                Err(ResourceError::NotFound) => account_map.spec_get(
                    spec_proof_path(module_address@),
                ) is None,
                Err(ResourceError::Decode(_)) => account_map.spec_get(
                    spec_proof_path(module_address@),
                ) is Some && spec_lookup_proof(*account_map, module_address@) is None,
            },
    {
        let path = proof_path(module_address);
        match account_map.get(&path) {
            Some(bytes) => match ProofResource::deserialize(bytes.as_slice()) {
                Ok(c) => Ok(c),
                Err(e) => Err(ResourceError::Decode(e)),
            },
            None => Err(ResourceError::NotFound),
        }
    }
}

/// The resource encodings are canonical: equal encodings mean equal values.
pub proof fn lemma_enc_channel_injective(a: ChannelResourceV, b: ChannelResourceV)
    requires
        a.wf(),
        b.wf(),
        spec_enc_channel(a) == spec_enc_channel(b),
    ensures
        a == b,
{
    lemma_channel_roundtrip(a);
    lemma_channel_roundtrip(b);
}

// ---------------------------------------------------------------------------
// The polymorphic resource set.
// ---------------------------------------------------------------------------
/// A typed value decoded from on-chain storage: one variant per resource
/// kind, with `None` standing for "absent in this snapshot".
#[derive(Debug, PartialEq)]
pub enum Resource {
    EToken(Option<ETokenResource>),
    Channel(Option<ChannelResource>),
    ClosedChannel(Option<ClosedChannelResource>),
    Proof(Option<ProofResource>),
}

/// Mathematical model of [`Resource`].
pub ghost enum ResourceV {
    EToken(Option<ETokenResourceV>),
    Channel(Option<ChannelResourceV>),
    ClosedChannel(Option<ClosedChannelResourceV>),
    Proof(Option<ProofResourceV>),
}

impl View for Resource {
    type V = ResourceV;

    open spec fn view(&self) -> ResourceV {
        match self {
            Resource::EToken(o) => ResourceV::EToken(opt_view(*o)),
            Resource::Channel(o) => ResourceV::Channel(opt_view(*o)),
            Resource::ClosedChannel(o) => ResourceV::ClosedChannel(opt_view(*o)),
            Resource::Proof(o) => ResourceV::Proof(opt_view(*o)),
        }
    }
}

impl Clone for Resource {
    fn clone(&self) -> (r: Self)
        ensures
            r@ == self@,
    {
        match self {
            Resource::EToken(o) => Resource::EToken(
                match o {
                    Some(x) => Some(*x),
                    None => None,
                },
            ),
            Resource::Channel(o) => Resource::Channel(
                match o {
                    Some(x) => Some(x.clone()),
                    None => None,
                },
            ),
            Resource::ClosedChannel(o) => Resource::ClosedChannel(
                match o {
                    Some(x) => Some(x.clone()),
                    None => None,
                },
            ),
            Resource::Proof(o) => Resource::Proof(
                match o {
                    Some(x) => Some(x.clone()),
                    None => None,
                },
            ),
        }
    }
}

} // verus!
