//! The off-chain channel state machine.
//!
//! A channel tracks, for one local account and one counterparty, the last
//! known on-chain fact for each side (`ChannelStatus`) and the off-chain
//! agreed state (`ChannelLocalData`). The protocol is propose
//! ([`OffchainChannel::transfer`]), acknowledge ([`OffchainChannel::conform`])
//! and finalize ([`OffchainChannel::process_transfer_conform`]); every
//! validation failure is returned as a typed error, and local state is
//! mutated only after all checks pass.

use crate::address::{AccountAddress, ADDRESS_LENGTH};
use crate::codec;
use crate::resource::{
    opt_view, ChannelResource, ChannelResourceV, ClosedChannelResource, ClosedChannelResourceV,
    ProofResource, ProofResourceV, Resource, ResourceV,
};
use vstd::prelude::*;

verus! {

/// Why a protocol step was refused.
#[derive(Clone, Copy, Debug, PartialEq, Eq, Structural)]
pub enum ChannelError {
    /// One of the channel's sides is not `Open`.
    NotReady,
    /// A balance does not cover the transferred amount.
    InsufficientBalance,
    /// The request's version is not exactly the next version.
    VersionMismatch,
    /// A conservation or coverage check on the claimed balances failed.
    BalanceMismatch,
}

// ---------------------------------------------------------------------------
// Protocol messages.
// ---------------------------------------------------------------------------
/// A proposed balance update: the proposer's claimed resulting state.
#[derive(Debug, PartialEq)]
pub struct TransferRequest {
    /// The proposer.
    pub sender: AccountAddress,
    /// Version the channel would move to.
    pub version: u64,
    /// Amount transferred away from the proposer.
    pub amount: u64,
    /// The proposer's claimed balance on its own side.
    pub self_balance: u64,
    /// The proposer's claimed balance for the counterparty.
    pub other_balance: u64,
    /// The proposer's signature (opaque bytes; signing is out of scope).
    pub signature: Vec<u8>,
}

/// Mathematical model of [`TransferRequest`].
pub ghost struct TransferRequestV {
    pub sender: Seq<u8>,
    pub version: u64,
    pub amount: u64,
    pub self_balance: u64,
    pub other_balance: u64,
    pub signature: Seq<u8>,
}

impl TransferRequestV {
    pub open spec fn wf(self) -> bool {
        self.sender.len() == ADDRESS_LENGTH && self.signature.len() <= u32::MAX
    }
}

impl View for TransferRequest {
    type V = TransferRequestV;

    open spec fn view(&self) -> TransferRequestV {
        TransferRequestV {
            sender: self.sender@,
            version: self.version,
            amount: self.amount,
            self_balance: self.self_balance,
            other_balance: self.other_balance,
            signature: self.signature@,
        }
    }
}

impl Clone for TransferRequest {
    fn clone(&self) -> (r: Self)
        ensures
            r@ == self@,
    {
        TransferRequest {
            sender: self.sender.clone(),
            version: self.version,
            amount: self.amount,
            self_balance: self.self_balance,
            other_balance: self.other_balance,
            signature: codec::clone_bytes(&self.signature),
        }
    }
}

impl TransferRequest {
    /// The sum of both claimed balances.
    pub fn total_balance(&self) -> (r: u64)
        requires
            self.self_balance + self.other_balance <= u64::MAX,
        ensures
            r == self.self_balance + self.other_balance,
    {
        self.self_balance + self.other_balance
    }
}

/// The counterparty's acceptance of a request: its own signature over the
/// request, which is echoed back to the proposer.
#[derive(Debug, PartialEq)]
pub struct TransferConform {
    /// The accepting party (the original request's recipient).
    pub sender: AccountAddress,
    /// The accepting party's signature (opaque bytes).
    pub signature: Vec<u8>,
    /// Echo of the accepted request.
    pub request: TransferRequest,
}

/// Mathematical model of [`TransferConform`].
pub ghost struct TransferConformV {
    pub sender: Seq<u8>,
    pub signature: Seq<u8>,
    pub request: TransferRequestV,
}

impl TransferConformV {
    pub open spec fn wf(self) -> bool {
        self.sender.len() == ADDRESS_LENGTH && self.signature.len() <= u32::MAX
            && self.request.wf()
    }
}

impl View for TransferConform {
    type V = TransferConformV;

    open spec fn view(&self) -> TransferConformV {
        TransferConformV {
            sender: self.sender@,
            signature: self.signature@,
            request: self.request@,
        }
    }
}

impl Clone for TransferConform {
    fn clone(&self) -> (r: Self)
        ensures
            r@ == self@,
    {
        TransferConform {
            sender: self.sender.clone(),
            signature: codec::clone_bytes(&self.signature),
            request: self.request.clone(),
        }
    }
}

// ---------------------------------------------------------------------------
// Off-chain agreed state.
// ---------------------------------------------------------------------------
/// The off-chain agreed state of one channel, from the local side's
/// perspective. `version` is strictly increasing, starting at 1 with the
/// first transfer.
#[derive(Debug, PartialEq)]
pub struct ChannelLocalData {
    pub version: u64,
    pub self_balance: u64,
    pub other_balance: u64,
    pub self_signature: Vec<u8>,
    pub other_signature: Vec<u8>,
}

/// Mathematical model of [`ChannelLocalData`].
pub ghost struct ChannelLocalDataV {
    pub version: u64,
    pub self_balance: u64,
    pub other_balance: u64,
    pub self_signature: Seq<u8>,
    pub other_signature: Seq<u8>,
}

impl View for ChannelLocalData {
    type V = ChannelLocalDataV;

    open spec fn view(&self) -> ChannelLocalDataV {
        ChannelLocalDataV {
            version: self.version,
            self_balance: self.self_balance,
            other_balance: self.other_balance,
            self_signature: self.self_signature@,
            other_signature: self.other_signature@,
        }
    }
}

impl Clone for ChannelLocalData {
    fn clone(&self) -> (r: Self)
        ensures
            r@ == self@,
    {
        ChannelLocalData {
            version: self.version,
            self_balance: self.self_balance,
            other_balance: self.other_balance,
            self_signature: codec::clone_bytes(&self.self_signature),
            other_signature: codec::clone_bytes(&self.other_signature),
        }
    }
}

impl ChannelLocalData {
    /// The sum of both agreed balances.
    pub fn total_balance(&self) -> (r: u64)
        requires
            self.self_balance + self.other_balance <= u64::MAX,
        ensures
            r == self.self_balance + self.other_balance,
    {
        self.self_balance + self.other_balance
    }
}

// ---------------------------------------------------------------------------
// Channel status.
// ---------------------------------------------------------------------------
/// The last known on-chain fact for one side of a channel. A side is closed
/// exactly when a closed-channel record (rather than a live channel balance)
/// was observed for it.
#[derive(Debug, PartialEq)]
pub enum ChannelStatus {
    /// No on-chain resource observed for this side yet.
    Unestablished,
    /// A live channel balance was observed.
    Open(ChannelResource),
    /// A closed-channel record was observed, possibly with a settlement proof.
    Closed(ClosedChannelResource, Option<ProofResource>),
}

/// Mathematical model of [`ChannelStatus`].
pub ghost enum ChannelStatusV {
    Unestablished,
    Open(ChannelResourceV),
    Closed(ClosedChannelResourceV, Option<ProofResourceV>),
}

impl View for ChannelStatus {
    type V = ChannelStatusV;

    open spec fn view(&self) -> ChannelStatusV {
        match self {
            ChannelStatus::Unestablished => ChannelStatusV::Unestablished,
            ChannelStatus::Open(c) => ChannelStatusV::Open(c@),
            ChannelStatus::Closed(c, p) => ChannelStatusV::Closed(c@, opt_view(*p)),
        }
    }
}

impl Clone for ChannelStatus {
    fn clone(&self) -> (r: Self)
        ensures
            r@ == self@,
    {
        match self {
            ChannelStatus::Unestablished => ChannelStatus::Unestablished,
            ChannelStatus::Open(c) => ChannelStatus::Open(c.clone()),
            ChannelStatus::Closed(c, p) => ChannelStatus::Closed(
                c.clone(),
                match p {
                    Some(x) => Some(x.clone()),
                    None => None,
                },
            ),
        }
    }
}

impl ChannelStatusV {
    pub open spec fn is_open(self) -> bool {
        self is Open
    }
}

impl ChannelStatus {
    /// Whether this side's last known on-chain state is a live channel.
    pub fn is_open(&self) -> (r: bool)
        ensures
            r == self@.is_open(),
    {
        match self {
            ChannelStatus::Open(_) => true,
            _ => false,
        }
    }
}

// ---------------------------------------------------------------------------
// The channel itself.
// ---------------------------------------------------------------------------
/// A pairwise off-chain channel owned by the local account `self_address`.
#[derive(Debug, PartialEq)]
pub struct OffchainChannel {
    /// The local account.
    pub self_address: AccountAddress,
    /// The counterparty account.
    pub other_address: AccountAddress,
    /// Last known on-chain state of the local side.
    pub self_status: ChannelStatus,
    /// Last known on-chain state of the counterparty's side.
    pub other_status: ChannelStatus,
    /// The off-chain agreed state; populated lazily by the first successful
    /// protocol step.
    pub data: Option<ChannelLocalData>,
}

/// Mathematical model of [`OffchainChannel`].
pub ghost struct OffchainChannelV {
    pub self_address: Seq<u8>,
    pub other_address: Seq<u8>,
    pub self_status: ChannelStatusV,
    pub other_status: ChannelStatusV,
    pub data: Option<ChannelLocalDataV>,
}

impl View for OffchainChannel {
    type V = OffchainChannelV;

    open spec fn view(&self) -> OffchainChannelV {
        OffchainChannelV {
            self_address: self.self_address@,
            other_address: self.other_address@,
            self_status: self.self_status@,
            other_status: self.other_status@,
            data: match self.data {
                Some(ref d) => Some(d@),
                None => None,
            },
        }
    }
}

impl Clone for OffchainChannel {
    fn clone(&self) -> (r: Self)
        ensures
            r@ == self@,
    {
        OffchainChannel {
            self_address: self.self_address.clone(),
            other_address: self.other_address.clone(),
            self_status: self.self_status.clone(),
            other_status: self.other_status.clone(),
            data: match &self.data {
                Some(d) => Some(d.clone()),
                None => None,
            },
        }
    }
}

impl OffchainChannelV {
    /// A channel is usable only when both sides are `Open`.
    pub open spec fn is_ready(self) -> bool {
        self.self_status.is_open() && self.other_status.is_open()
    }

    /// The local side's on-chain coin amount (meaningful when ready).
    pub open spec fn self_coin(self) -> u64 {
        match self.self_status {
            ChannelStatusV::Open(c) => c.coin,
            _ => 0,
        }
    }

    /// The counterparty side's on-chain coin amount (meaningful when ready).
    pub open spec fn other_coin(self) -> u64 {
        match self.other_status {
            ChannelStatusV::Open(c) => c.coin,
            _ => 0,
        }
    }

    /// The same channel with its agreed state replaced.
    pub open spec fn with_data(self, d: ChannelLocalDataV) -> OffchainChannelV {
        OffchainChannelV {
            self_address: self.self_address,
            other_address: self.other_address,
            self_status: self.self_status,
            other_status: self.other_status,
            data: Some(d),
        }
    }
}

/// The local state seeded from an on-chain settlement proof.
pub open spec fn spec_data_of_proof(p: ProofResourceV) -> ChannelLocalDataV {
    ChannelLocalDataV {
        version: p.version,
        self_balance: p.self_balance,
        other_balance: p.other_balance,
        self_signature: p.self_signature,
        other_signature: p.other_signature,
    }
}

/// Whether `request` carries exactly the next version: one past the agreed
/// version, or 1 when no state has been agreed yet.
pub open spec fn spec_version_ok(c: OffchainChannelV, req: TransferRequestV) -> bool {
    match c.data {
        Some(d) => req.version == d.version + 1,
        None => req.version == 1,
    }
}

/// The balance checks `conform` applies to an accepted request: the claimed
/// counterparty balance must equal the responder's current balance plus the
/// transferred amount, and the total balance must be conserved.
pub open spec fn spec_balances_ok(c: OffchainChannelV, req: TransferRequestV) -> bool {
    match c.data {
        Some(d) => d.self_balance + req.amount == req.other_balance && d.self_balance
            + d.other_balance == req.self_balance + req.other_balance,
        None => c.self_coin() + c.other_coin() == req.self_balance + req.other_balance
            && req.other_balance == c.self_coin() + req.amount,
    }
}

/// The local state recorded when `conform` accepts `req`: perspectives swap,
/// the proposer's signature is kept, and the responder's own signature is
/// currently left empty (signing is out of scope).
pub open spec fn spec_conform_new_data(req: TransferRequestV) -> ChannelLocalDataV {
    ChannelLocalDataV {
        version: req.version,
        self_balance: req.other_balance,
        other_balance: req.self_balance,
        self_signature: Seq::<u8>::empty(),
        other_signature: req.signature,
    }
}

/// The local state recorded by the proposer when processing a conform.
pub open spec fn spec_process_new_data(cf: TransferConformV) -> ChannelLocalDataV {
    ChannelLocalDataV {
        version: cf.request.version,
        self_balance: cf.request.self_balance,
        other_balance: cf.request.other_balance,
        self_signature: cf.request.signature,
        other_signature: cf.signature,
    }
}

/// How a channel is re-synced from a freshly decoded on-chain resource: the
/// resource is classified as belonging to the local or the counterparty side
/// by its embedded counterparty field, and that side's status becomes `Open`
/// for a live channel balance or `Closed` for a closed-channel record. Any
/// other resource, or one naming neither participant, changes nothing.
pub open spec fn spec_update(
    c: OffchainChannelV,
    r: ResourceV,
    proof: Option<ProofResourceV>,
) -> OffchainChannelV {
    match r {
        ResourceV::Channel(Some(ch)) => {
            if ch.other == c.other_address {
                OffchainChannelV { self_status: ChannelStatusV::Open(ch), ..c }
            } else if ch.other == c.self_address {
                OffchainChannelV { other_status: ChannelStatusV::Open(ch), ..c }
            } else {
                c
            }
        },
        ResourceV::ClosedChannel(Some(cc)) => {
            if cc.other == c.other_address {
                OffchainChannelV { self_status: ChannelStatusV::Closed(cc, proof), ..c }
            } else if cc.other == c.self_address {
                OffchainChannelV { other_status: ChannelStatusV::Closed(cc, proof), ..c }
            } else {
                c
            }
        },
        _ => c,
    }
}

impl OffchainChannel {
    /// A channel first observed on chain: the local side's live channel
    /// balance, the counterparty's if already present, and the local state
    /// seeded from a published settlement proof if one exists.
    pub fn new(
        self_address: AccountAddress,
        other_address: AccountAddress,
        self_channel: ChannelResource,
        other_channel: Option<ChannelResource>,
        self_proof: Option<ProofResource>,
    ) -> (r: OffchainChannel)
        ensures
            r@.self_address == self_address@,
            r@.other_address == other_address@,
            r@.self_status == ChannelStatusV::Open(self_channel@),
            r@.other_status == (match other_channel {
                Some(oc) => ChannelStatusV::Open(oc@),
                None => ChannelStatusV::Unestablished,
            }),
            r@.data == (match self_proof {
                Some(p) => Some(spec_data_of_proof(p@)),
                None => None::<ChannelLocalDataV>,
            }),
    {
        let data = match self_proof {
            Some(proof) => Some(
                ChannelLocalData {
                    version: proof.version,
                    self_balance: proof.self_balance,
                    other_balance: proof.other_balance,
                    self_signature: proof.self_signature,
                    other_signature: proof.other_signature,
                },
            ),
            None => None,
        };
        OffchainChannel {
            self_address,
            other_address,
            self_status: ChannelStatus::Open(self_channel),
            other_status: match other_channel {
                Some(other_channel) => ChannelStatus::Open(other_channel),
                None => ChannelStatus::Unestablished,
            },
            data,
        }
    }

    /// Whether both sides are `Open`.
    pub fn is_ready(&self) -> (r: bool)
        ensures
            r == self@.is_ready(),
    {
        self.self_status.is_open() && self.other_status.is_open()
    }

    /// Propose transferring `amount` to the counterparty.
    ///
    /// Fails with `NotReady` unless both sides are `Open`, and with
    /// `InsufficientBalance` when a balance does not cover `amount`. With
    /// agreed state present the produced request decreases *both* recorded
    /// balances by `amount`, which does not conserve their sum; the
    /// first-transfer branch decreases the local balance and increases the
    /// counterparty's. The asymmetry is deliberate, kept as the protocol's
    /// recorded behaviour pending an explicit product decision.
    pub fn transfer(&self, amount: u64) -> (r: Result<TransferRequest, ChannelError>)
        requires
            self@.data matches Some(d) ==> d.version < u64::MAX,
            (self@.is_ready() && self@.data is None) ==> self@.other_coin() + amount <= u64::MAX,
        ensures
            ({
                let c = self@;
                match r {
                    Ok(req) => c.is_ready() && req@.sender == c.self_address && req@.amount
                        == amount && req@.signature == Seq::<u8>::empty() && (match c.data {
                        Some(d) => d.self_balance >= amount && d.other_balance >= amount
                            && req@.version == d.version + 1 && req@.self_balance == d.self_balance
                            - amount && req@.other_balance == d.other_balance - amount,
                        None => c.self_coin() >= amount && req@.version == 1 && req@.self_balance
                            == c.self_coin() - amount && req@.other_balance == c.other_coin()
                            + amount,
                    }),
                    Err(ChannelError::NotReady) => !c.is_ready(),
                    Err(ChannelError::InsufficientBalance) => c.is_ready() && (match c.data {
                        Some(d) => d.self_balance < amount || d.other_balance < amount,
                        None => c.self_coin() < amount,
                    }),
                    Err(_) => false,
                }
            }),
    {
        if !self.is_ready() {
            return Err(ChannelError::NotReady);
        }
        match &self.data {
            Some(data) => {
                if data.self_balance < amount || data.other_balance < amount {
                    return Err(ChannelError::InsufficientBalance);
                }
                Ok(
                    TransferRequest {
                        sender: self.self_address.clone(),
                        amount,
                        version: data.version + 1,
                        self_balance: data.self_balance - amount,
                        other_balance: data.other_balance - amount,
                        signature: Vec::new(),
                    },
                )
            },
            None => {
                match (&self.self_status, &self.other_status) {
                    (ChannelStatus::Open(resource), ChannelStatus::Open(other_resource)) => {
                        if resource.coin < amount {
                            return Err(ChannelError::InsufficientBalance);
                        }
                        Ok(
                            TransferRequest {
                                sender: self.self_address.clone(),
                                amount,
                                version: 1,
                                self_balance: resource.coin - amount,
                                other_balance: other_resource.coin + amount,
                                signature: Vec::new(),
                            },
                        )
                    },
                    _ => unreached(),
                }
            },
        }
    }

    /// Accept a counterparty's transfer request.
    ///
    /// Requires the channel ready, the request's version to be exactly the
    /// next one, the claimed counterparty balance to equal the responder's
    /// current balance plus the amount, and the total balance to be
    /// conserved. On a channel without agreed state, the coverage and
    /// conservation checks run against the two sides' on-chain coin amounts
    /// and the initial state is created from the request. On success the
    /// agreed state swaps perspective with the request and the returned
    /// conform echoes the request under the responder's own address. On
    /// failure the channel is unchanged.
    pub fn conform(&mut self, request: TransferRequest) -> (r: Result<
        TransferConform,
        ChannelError,
    >)
        ensures
            ({
                let c = old(self)@;
                let req = request@;
                match r {
                    Ok(cf) => c.is_ready() && spec_version_ok(c, req) && spec_balances_ok(c, req)
                        && (c.data is None ==> c.other_coin() >= req.amount) && final(self)@
                        == c.with_data(spec_conform_new_data(req)) && cf@.sender == c.self_address
                        && cf@.signature == Seq::<u8>::empty() && cf@.request == req,
                    Err(ChannelError::NotReady) => !c.is_ready() && *final(self) == *old(self),
                    Err(ChannelError::VersionMismatch) => c.is_ready() && !spec_version_ok(c, req)
                        && *final(self) == *old(self),
                    Err(ChannelError::InsufficientBalance) => c.is_ready() && spec_version_ok(
                        c,
                        req,
                    ) && c.data is None && c.other_coin() < req.amount && *final(self) == *old(
                        self,
                    ),
                    Err(ChannelError::BalanceMismatch) => c.is_ready() && spec_version_ok(c, req)
                        && (c.data is None ==> c.other_coin() >= req.amount) && !spec_balances_ok(
                        c,
                        req,
                    ) && *final(self) == *old(self),
                }
            }),
    {
        if !self.is_ready() {
            return Err(ChannelError::NotReady);
        }
        match &self.data {
            Some(data) => {
                if !(request.version >= 1 && data.version == request.version - 1) {
                    return Err(ChannelError::VersionMismatch);
                }
                if data.self_balance as u128 + request.amount as u128 != request.other_balance
                    as u128 {
                    return Err(ChannelError::BalanceMismatch);
                }
                if data.self_balance as u128 + data.other_balance as u128 != request.self_balance
                    as u128 + request.other_balance as u128 {
                    return Err(ChannelError::BalanceMismatch);
                }
            },
            None => {
                if request.version != 1 {
                    return Err(ChannelError::VersionMismatch);
                }
                match (&self.self_status, &self.other_status) {
                    (ChannelStatus::Open(resource), ChannelStatus::Open(other_resource)) => {
                        if other_resource.coin < request.amount {
                            return Err(ChannelError::InsufficientBalance);
                        }
                        if resource.coin as u128 + other_resource.coin as u128 != request
                            .self_balance as u128 + request.other_balance as u128 {
                            return Err(ChannelError::BalanceMismatch);
                        }
                        if request.other_balance as u128 != resource.coin as u128 + request.amount
                            as u128 {
                            return Err(ChannelError::BalanceMismatch);
                        }
                    },
                    _ => {
                        unreached()
                    },
                }
            },
        }
        self.data = Some(
            ChannelLocalData {
                version: request.version,
                self_balance: request.other_balance,
                other_balance: request.self_balance,
                self_signature: Vec::new(),
                other_signature: codec::clone_bytes(&request.signature),
            },
        );
        Ok(TransferConform { sender: self.self_address.clone(), signature: Vec::new(), request })
    }

    /// Record the counterparty's conform as the new agreed state. Applied by
    /// the original proposer; requires only that the channel is ready. The
    /// echoed request is not validated against the request originally sent —
    /// a known weakness of the protocol, kept as its recorded behaviour.
    pub fn process_transfer_conform(&mut self, conform: TransferConform) -> (r: Result<
        (),
        ChannelError,
    >)
        ensures
            ({
                let c = old(self)@;
                match r {
                    Ok(_) => c.is_ready() && final(self)@ == c.with_data(
                        spec_process_new_data(conform@),
                    ),
                    Err(ChannelError::NotReady) => !c.is_ready() && *final(self) == *old(self),
                    Err(_) => false,
                }
            }),
    {
        if !self.is_ready() {
            return Err(ChannelError::NotReady);
        }
        self.data = Some(
            ChannelLocalData {
                version: conform.request.version,
                self_balance: conform.request.self_balance,
                other_balance: conform.request.other_balance,
                self_signature: conform.request.signature,
                other_signature: conform.signature,
            },
        );
        Ok(())
    }

    /// Re-sync one side's status from a freshly decoded on-chain resource;
    /// see [`spec_update`]. Side effect only; never fails.
    pub fn update_with_resource(&mut self, resource: Resource, proof_resource: Option<
        ProofResource,
    >)
        ensures
            final(self)@ == spec_update(old(self)@, resource@, opt_view(proof_resource)),
    {
        match resource {
            Resource::Channel(Some(ch)) => {
                if ch.other == self.other_address {
                    self.self_status = ChannelStatus::Open(ch);
                } else if ch.other == self.self_address {
                    self.other_status = ChannelStatus::Open(ch);
                }
            },
            Resource::ClosedChannel(Some(cc)) => {
                if cc.other == self.other_address {
                    self.self_status = ChannelStatus::Closed(cc, proof_resource);
                } else if cc.other == self.self_address {
                    self.other_status = ChannelStatus::Closed(cc, proof_resource);
                }
            },
            _ => {},
        }
    }
}

// ---------------------------------------------------------------------------
// Protocol laws.
// ---------------------------------------------------------------------------
/// Conservation on the conform path: for any channel with agreed local state
/// and any request that `conform` accepts, the sum of the two agreed balances
/// is unchanged by the step.
pub proof fn lemma_conform_conserves(c: OffchainChannelV, req: TransferRequestV)
    requires
        c.data is Some,
        spec_balances_ok(c, req),
    ensures
        match c.data {
            Some(d) => d.self_balance + d.other_balance == spec_conform_new_data(req).self_balance
                + spec_conform_new_data(req).other_balance,
            None => false,
        },
{
}

/// Version monotonicity: an accepted request moves the agreed version to
/// exactly its successor (or to 1 on a channel without agreed state), so the
/// version is strictly increasing across accepted steps.
pub proof fn lemma_conform_version_monotonic(c: OffchainChannelV, req: TransferRequestV)
    requires
        spec_version_ok(c, req),
    ensures
        match c.data {
            Some(d) => spec_conform_new_data(req).version == d.version + 1,
            None => spec_conform_new_data(req).version == 1,
        },
        spec_conform_new_data(req).version >= 1,
{
}

} // verus!
