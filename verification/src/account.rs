//! The account ledger: per-account bookkeeping of channels and protocol
//! message history.
//!
//! A ledger entry owns one channel per counterparty address; a channel is
//! addressable only through its owning entry. Lookup is specified by a
//! first-match scan, and the well-formedness invariant keeps counterparty
//! addresses pairwise distinct, so there is at most one channel per
//! counterparty.

use crate::address::AccountAddress;
use crate::channel::{OffchainChannel, TransferConform, TransferRequest};
use crate::hexstr::{hex_encode, spec_hex_of};
use vstd::prelude::*;

verus! {

/// A signing key pair, held as opaque bytes: signing itself is out of scope.
#[derive(Debug, PartialEq)]
pub struct KeyPair {
    pub private_key: Vec<u8>,
    pub public_key: Vec<u8>,
}

impl Clone for KeyPair {
    fn clone(&self) -> (r: Self)
        ensures
            r.private_key@ == self.private_key@,
            r.public_key@ == self.public_key@,
    {
        KeyPair {
            private_key: crate::codec::clone_bytes(&self.private_key),
            public_key: crate::codec::clone_bytes(&self.public_key),
        }
    }
}

/// Whether the account is known to exist on chain.
#[derive(Clone, Copy, Debug, PartialEq, Eq, Structural)]
pub enum AccountStatus {
    /// Account exists only in the local cache; not persisted on chain.
    Local,
    /// Account is persisted on chain.
    Persisted,
    /// Status could not be checked.
    Unknown,
}

/// First-match lookup of the channel with counterparty `other` in `s`.
pub open spec fn spec_channels_get_rec(s: Seq<OffchainChannel>, other: Seq<u8>) -> Option<
    OffchainChannel,
>
    decreases s.len(),
{
    if s.len() == 0 {
        None
    } else if s[0].other_address@ == other {
        Some(s[0])
    } else {
        spec_channels_get_rec(s.subrange(1, s.len() as int), other)
    }
}

/// Skipping channels whose counterparties all differ from `other` does not
/// change the lookup.
proof fn lemma_channels_skip(s: Seq<OffchainChannel>, other: Seq<u8>, i: int)
    requires
        0 <= i <= s.len(),
        forall|j: int| 0 <= j < i ==> s[j].other_address@ != other,
    ensures
        spec_channels_get_rec(s, other) == spec_channels_get_rec(
            s.subrange(i, s.len() as int),
            other,
        ),
    decreases i,
{
    if i > 0 {
        let rest = s.subrange(1, s.len() as int);
        lemma_channels_skip(rest, other, i - 1);
        assert(rest.subrange(i - 1, rest.len() as int) =~= s.subrange(i, s.len() as int));
    } else {
        assert(s.subrange(0, s.len() as int) =~= s);
    }
}

/// Removing a channel with a different counterparty does not change the
/// lookup.
proof fn lemma_channels_remove_other(s: Seq<OffchainChannel>, idx: int, other: Seq<u8>)
    requires
        0 <= idx < s.len(),
        s[idx].other_address@ != other,
    ensures
        spec_channels_get_rec(s.remove(idx), other) == spec_channels_get_rec(s, other),
    decreases idx,
{
    let rest = s.subrange(1, s.len() as int);
    if idx == 0 {
        assert(s.remove(0) =~= rest);
    } else {
        assert(s.remove(idx)[0] == s[0]);
        assert(s.remove(idx).len() == s.len() - 1);
        assert(s.remove(idx).subrange(1, s.len() - 1) =~= rest.remove(idx - 1));
        lemma_channels_remove_other(rest, idx - 1, other);
    }
}

/// A failed lookup means no stored channel has that counterparty.
proof fn lemma_channels_none_absent(s: Seq<OffchainChannel>, other: Seq<u8>)
    requires
        spec_channels_get_rec(s, other) is None,
    ensures
        forall|j: int| 0 <= j < s.len() ==> s[j].other_address@ != other,
    decreases s.len(),
{
    if s.len() > 0 {
        let rest = s.subrange(1, s.len() as int);
        lemma_channels_none_absent(rest, other);
        assert(forall|j: int| 0 <= j < s.len() ==> s[j].other_address@ != other) by {
            assert(forall|j: int| 1 <= j < s.len() ==> s[j] == rest[j - 1]);
        }
    }
}

/// Data stored for one local account: identity, sequence number, the channel
/// per counterparty, and the history of issued protocol messages.
#[derive(Debug)]
pub struct AccountData {
    /// Address of the account.
    pub address: AccountAddress,
    /// Signing key pair, when the account is not managed by a wallet.
    pub key_pair: Option<KeyPair>,
    /// Latest sequence number maintained locally; the chain may be ahead.
    pub sequence_number: u64,
    /// Whether the account is known on chain.
    pub status: AccountStatus,
    /// Off-chain channels, at most one per counterparty.
    pub channels: Vec<OffchainChannel>,
    /// Transfer requests issued or received.
    pub transfer_requests: Vec<TransferRequest>,
    /// Transfer conforms issued or received.
    pub transfer_conforms: Vec<TransferConform>,
}

impl AccountData {
    /// Counterparty addresses are pairwise distinct: at most one channel per
    /// counterparty.
    pub open spec fn wf(&self) -> bool {
        forall|i: int, j: int|
            0 <= i < j < self.channels@.len() ==> self.channels@[i].other_address@
                != self.channels@[j].other_address@
    }

    /// The channel with counterparty `other`, if one is stored.
    pub open spec fn spec_get_channel(&self, other: Seq<u8>) -> Option<OffchainChannel> {
        spec_channels_get_rec(self.channels@, other)
    }

    /// A fresh ledger entry with no channels and no history.
    pub fn new(
        address: AccountAddress,
        key_pair: Option<KeyPair>,
        sequence_number: u64,
        status: AccountStatus,
    ) -> (r: AccountData)
        ensures
            r.address == address,
            r.key_pair == key_pair,
            r.sequence_number == sequence_number,
            r.status == status,
            r.channels@ == Seq::<OffchainChannel>::empty(),
            r.transfer_requests@ == Seq::<TransferRequest>::empty(),
            r.transfer_conforms@ == Seq::<TransferConform>::empty(),
            r.wf(),
            forall|k: Seq<u8>| r.spec_get_channel(k) is None,
    {
        let r = AccountData {
            address,
            key_pair,
            sequence_number,
            status,
            channels: Vec::new(),
            transfer_requests: Vec::new(),
            transfer_conforms: Vec::new(),
        };
        assert(r.channels@ =~= Seq::<OffchainChannel>::empty());
        assert(r.transfer_requests@ =~= Seq::<TransferRequest>::empty());
        assert(r.transfer_conforms@ =~= Seq::<TransferConform>::empty());
        r
    }

    /// The key pair as hex text, if the account holds one.
    pub fn keypair_as_string(&self) -> (r: Option<(String, String)>)
        ensures
            match r {
                Some(p) => match self.key_pair {
                    Some(kp) => p.0@ == spec_hex_of(kp.private_key@) && p.1@ == spec_hex_of(
                        kp.public_key@,
                    ),
                    None => false,
                },
                None => self.key_pair is None,
            },
    {
        match &self.key_pair {
            Some(key_pair) => Some(
                (
                    hex_encode(key_pair.private_key.as_slice()),
                    hex_encode(key_pair.public_key.as_slice()),
                ),
            ),
            None => None,
        }
    }

    /// Remove the channel with counterparty `other`, if one is stored.
    /// Channels with other counterparties, and everything else in the entry,
    /// are unchanged.
    pub fn delete_channel(&mut self, other: &AccountAddress)
        requires
            old(self).wf(),
        ensures
            final(self).wf(),
            final(self).spec_get_channel(other@) is None,
            forall|k: Seq<u8>|
                k != other@ ==> final(self).spec_get_channel(k) == old(self).spec_get_channel(k),
            final(self).address == old(self).address,
            final(self).key_pair == old(self).key_pair,
            final(self).sequence_number == old(self).sequence_number,
            final(self).status == old(self).status,
            final(self).transfer_requests == old(self).transfer_requests,
            final(self).transfer_conforms == old(self).transfer_conforms,
    {
        let ghost s = self.channels@;
        let n = self.channels.len();
        let mut i: usize = 0;
        while i < n
            invariant
                n == self.channels@.len(),
                0 <= i <= n,
                s == self.channels@,
                forall|j: int| 0 <= j < i ==> s[j].other_address@ != other@,
                old(self).wf(),
                self.address == old(self).address,
                self.key_pair == old(self).key_pair,
                self.sequence_number == old(self).sequence_number,
                self.status == old(self).status,
                self.transfer_requests == old(self).transfer_requests,
                self.transfer_conforms == old(self).transfer_conforms,
                self.channels == old(self).channels,
            decreases n - i,
        {
            if &self.channels[i].other_address == other {
                proof {
                    assert(s[i as int].other_address@ == other@);
                }
                self.channels.remove(i);
                proof {
                    let s2 = self.channels@;
                    assert(s2 =~= s.remove(i as int));
                    s.remove_ensures(i as int);
                    // Channels with other counterparties keep their lookup.
                    assert forall|k: Seq<u8>| k != other@ implies spec_channels_get_rec(s2, k)
                        == spec_channels_get_rec(s, k) by {
                        lemma_channels_remove_other(s, i as int, k);
                    }
                    // No other entry matches `other`, by well-formedness.
                    assert forall|j: int| 0 <= j < s2.len() implies s2[j].other_address@
                        != other@ by {
                        if j < i as int {
                            assert(s2[j] == s[j]);
                        } else {
                            assert(s2[j] == s[j + 1]);
                        }
                    }
                    lemma_channels_skip(s2, other@, s2.len() as int);
                    assert(s2.subrange(s2.len() as int, s2.len() as int) =~= Seq::<
                        OffchainChannel,
                    >::empty());
                    // Distinctness is preserved by removal.
                    assert forall|a: int, b: int|
                        0 <= a < b < s2.len() implies s2[a].other_address@
                        != s2[b].other_address@ by {
                        if a < i as int {
                            assert(s2[a] == s[a]);
                        } else {
                            assert(s2[a] == s[a + 1]);
                        }
                        if b < i as int {
                            assert(s2[b] == s[b]);
                        } else {
                            assert(s2[b] == s[b + 1]);
                        }
                    }
                }
                return ;
            }
            proof {
                if self.channels@[i as int].other_address@ == other@ {
                    assert(self.channels@[i as int].other_address@ =~= other@);
                    assert(false);
                }
            }
            i = i + 1;
        }
        proof {
            lemma_channels_skip(s, other@, n as int);
            assert(s.subrange(n as int, n as int) =~= Seq::<OffchainChannel>::empty());
        }
    }

    /// Store `channel` under its counterparty address, replacing any channel
    /// already stored for that counterparty.
    pub fn append_channel(&mut self, channel: OffchainChannel)
        requires
            old(self).wf(),
        ensures
            final(self).wf(),
            final(self).spec_get_channel(channel.other_address@) == Some(channel),
            forall|k: Seq<u8>|
                k != channel.other_address@ ==> final(self).spec_get_channel(k) == old(
                    self,
                ).spec_get_channel(k),
            final(self).address == old(self).address,
            final(self).key_pair == old(self).key_pair,
            final(self).sequence_number == old(self).sequence_number,
            final(self).status == old(self).status,
            final(self).transfer_requests == old(self).transfer_requests,
            final(self).transfer_conforms == old(self).transfer_conforms,
    {
        self.delete_channel(&channel.other_address);
        let ghost s = self.channels@;
        let ghost key = channel.other_address@;
        proof {
            lemma_channels_none_absent(s, key);
        }
        self.channels.insert(0, channel);
        proof {
            let s2 = self.channels@;
            assert(s2.subrange(1, s2.len() as int) =~= s);
            assert(s2[0].other_address@ == key);
            assert forall|a: int, b: int|
                0 <= a < b < s2.len() implies s2[a].other_address@ != s2[b].other_address@ by {
                assert(b >= 1 && s2[b] == s[b - 1]);
                if a >= 1 {
                    assert(s2[a] == s[a - 1]);
                }
            }
        }
    }

    /// The stored channel with counterparty `other`, if any.
    pub fn get_channel(&self, other: &AccountAddress) -> (r: Option<&OffchainChannel>)
        ensures
            match r {
                Some(c) => self.spec_get_channel(other@) == Some(*c),
                None => self.spec_get_channel(other@) is None,
            },
    {
        let n = self.channels.len();
        let mut i: usize = 0;
        while i < n
            invariant
                n == self.channels@.len(),
                0 <= i <= n,
                forall|j: int| 0 <= j < i ==> self.channels@[j].other_address@ != other@,
            decreases n - i,
        {
            if &self.channels[i].other_address == other {
                proof {
                    lemma_channels_skip(self.channels@, other@, i as int);
                    assert(self.channels@.subrange(i as int, n as int)[0] == self.channels@[
                        i as int
                    ]);
                    assert(self.channels@[i as int].other_address@ =~= other@);
                }
                return Some(&self.channels[i]);
            }
            proof {
                if self.channels@[i as int].other_address@ == other@ {
                    assert(self.channels@[i as int].other_address@ =~= other@);
                    assert(false);
                }
            }
            i = i + 1;
        }
        proof {
            lemma_channels_skip(self.channels@, other@, n as int);
            assert(self.channels@.subrange(n as int, n as int) =~= Seq::<
                OffchainChannel,
            >::empty());
        }
        None
    }

    /// Record an issued or received transfer request.
    pub fn append_transfer_request(&mut self, request: TransferRequest)
        ensures
            final(self).transfer_requests@ == old(self).transfer_requests@.push(request),
            final(self).address == old(self).address,
            final(self).key_pair == old(self).key_pair,
            final(self).sequence_number == old(self).sequence_number,
            final(self).status == old(self).status,
            final(self).channels == old(self).channels,
            final(self).transfer_conforms == old(self).transfer_conforms,
    {
        self.transfer_requests.push(request);
    }

    /// Record an issued or received transfer conform.
    pub fn append_transfer_conform(&mut self, conform: TransferConform)
        ensures
            final(self).transfer_conforms@ == old(self).transfer_conforms@.push(conform),
            final(self).address == old(self).address,
            final(self).key_pair == old(self).key_pair,
            final(self).sequence_number == old(self).sequence_number,
            final(self).status == old(self).status,
            final(self).channels == old(self).channels,
            final(self).transfer_requests == old(self).transfer_requests,
    {
        self.transfer_conforms.push(conform);
    }
}

} // verus!
