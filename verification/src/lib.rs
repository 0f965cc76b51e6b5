//! Client-side core of an off-chain payment-channel wallet.
//!
//! The crate has two tightly coupled halves. One is a deterministic binary
//! codec together with an access-path resolver, used to read typed resources
//! (token balances, channel balances, closed-channel records, settlement
//! proofs) out of a raw key/value account-state snapshot. The other is the
//! off-chain channel protocol itself: propose, acknowledge and finalize
//! balance updates between two account-holders, with monotonic versioning
//! and balance-conservation checks.

pub mod account;
pub mod account_state;
pub mod address;
pub mod channel;
pub mod codec;
pub mod hexstr;
pub mod natives;
pub mod resource;
pub mod snapshot;
pub mod wire;

pub use account::{AccountData, AccountStatus, KeyPair};
pub use address::AccountAddress;
pub use channel::{
    ChannelError, ChannelLocalData, ChannelStatus, OffchainChannel, TransferConform,
    TransferRequest,
};
pub use codec::DecodeError;
pub use resource::{
    ChannelResource, ClosedChannelResource, ETokenResource, ProofResource, Resource, ResourceError,
};
pub use snapshot::AccountMap;
