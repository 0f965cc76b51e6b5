//! The account-state decoder: resolving the typed resources present in a raw
//! account snapshot, for every module of a registry.
//!
//! Each module lookup is independent: a resource's absence, or an entry that
//! does not decode, yields the `None` payload for its kind and never aborts
//! the decoding of the other resources.

use crate::address::AccountAddress;
use crate::resource::{
    spec_lookup_channel, spec_lookup_closed_channel, spec_lookup_etoken, spec_lookup_proof,
    ChannelResource, ClosedChannelResource, ETokenResource, ProofResource, Resource, ResourceV,
};
use crate::snapshot::AccountMap;
use vstd::prelude::*;

verus! {

/// One entry of the module registry: a symbolic contract name and the
/// address of the account that deployed the module.
#[derive(Debug)]
pub struct ModuleRegistryEntry {
    /// Symbolic name of the contract module.
    pub name: String,
    /// The account that deployed the module.
    pub account: AccountAddress,
}

impl Clone for ModuleRegistryEntry {
    fn clone(&self) -> (r: Self)
        ensures
            r.name@ == self.name@,
            r.account@ == self.account@,
    {
        ModuleRegistryEntry { name: self.name.clone(), account: self.account.clone() }
    }
}

/// `rs` holds exactly the four resource kinds resolved at `addr` in `map`,
/// in the fixed order token, channel balance, closed channel, proof, each
/// with the `None` payload when absent or undecodable.
pub open spec fn spec_resources_match(rs: Seq<Resource>, map: AccountMap, addr: Seq<u8>) -> bool {
    &&& rs.len() == 4
    &&& rs[0]@ == ResourceV::EToken(spec_lookup_etoken(map, addr))
    &&& rs[1]@ == ResourceV::Channel(spec_lookup_channel(map, addr))
    &&& rs[2]@ == ResourceV::ClosedChannel(spec_lookup_closed_channel(map, addr))
    &&& rs[3]@ == ResourceV::Proof(spec_lookup_proof(map, addr))
}

impl ModuleRegistryEntry {
    /// Resolve all four resource kinds at this module's account. A missing
    /// or undecodable entry yields the `None` payload for its kind; each
    /// lookup is independent of the others.
    pub fn get_resource(&self, account_map: &AccountMap) -> (r: Vec<Resource>)
        ensures
            spec_resources_match(r@, *account_map, self.account@),
    {
        let etoken = match ETokenResource::make_from(&self.account, account_map) {
            Ok(c) => Some(c),
            Err(_) => None,
        };
        let channel = match ChannelResource::make_from(&self.account, account_map) {
            Ok(c) => Some(c),
            Err(_) => None,
        };
        let closed = match ClosedChannelResource::make_from(&self.account, account_map) {
            Ok(c) => Some(c),
            Err(_) => None,
        };
        let proof = match ProofResource::make_from(&self.account, account_map) {
            Ok(c) => Some(c),
            Err(_) => None,
        };
        let mut r: Vec<Resource> = Vec::new();
        r.push(Resource::EToken(etoken));
        r.push(Resource::Channel(channel));
        r.push(Resource::ClosedChannel(closed));
        r.push(Resource::Proof(proof));
        r
    }
}

/// The typed resources present in one account's snapshot: for every
/// registered module, in registry order, the module's symbolic name and the
/// resources resolved at its account.
#[derive(Debug)]
pub struct AccountState {
    pub resources: Vec<(String, Vec<Resource>)>,
}

impl AccountState {
    /// Decode an account snapshot against a module registry. Every module
    /// gets an entry; one resource's absence never blocks another.
    pub fn from_blob(map: &AccountMap, module_registry: &Vec<ModuleRegistryEntry>) -> (r:
        AccountState)
        ensures
            r.resources@.len() == module_registry@.len(),
            forall|i: int|
                #![auto]
                0 <= i < module_registry@.len() ==> r.resources@[i].0@ == module_registry@[i].name@
                    && spec_resources_match(
                    r.resources@[i].1@,
                    *map,
                    module_registry@[i].account@,
                ),
    {
        let mut resources: Vec<(String, Vec<Resource>)> = Vec::new();
        let n = module_registry.len();
        let mut i: usize = 0;
        while i < n
            invariant
                n == module_registry@.len(),
                0 <= i <= n,
                resources@.len() == i,
                forall|k: int|
                    #![auto]
                    0 <= k < i ==> resources@[k].0@ == module_registry@[k].name@
                        && spec_resources_match(
                        resources@[k].1@,
                        *map,
                        module_registry@[k].account@,
                    ),
            decreases n - i,
        {
            let entry = &module_registry[i];
            let rs = entry.get_resource(map);
            resources.push((entry.name.clone(), rs));
            i = i + 1;
        }
        AccountState { resources }
    }

    /// The first decoded resource satisfying a caller-supplied predicate,
    /// scanning modules in registry order and kinds in their fixed order.
    pub fn find_resource<F: Fn(&Resource) -> bool>(&self, filter: F) -> (r: Option<Resource>)
        requires
            forall|x: &Resource| #[trigger] filter.requires((x,)),
        ensures
            match r {
                Some(res) => exists|i: int, j: int|
                    #![auto]
                    0 <= i < self.resources@.len() && 0 <= j < self.resources@[i].1@.len() && res@
                        == self.resources@[i].1@[j]@ && filter.ensures(
                        (&self.resources@[i].1@[j],),
                        true,
                    ),
                None => forall|i: int, j: int|
                    #![auto]
                    0 <= i < self.resources@.len() && 0 <= j < self.resources@[i].1@.len()
                        ==> filter.ensures((&self.resources@[i].1@[j],), false),
            },
    {
        let n = self.resources.len();
        let mut i: usize = 0;
        while i < n
            invariant
                n == self.resources@.len(),
                0 <= i <= n,
                forall|x: &Resource| #[trigger] filter.requires((x,)),
                forall|a: int, b: int|
                    #![auto]
                    0 <= a < i && 0 <= b < self.resources@[a].1@.len() ==> filter.ensures(
                        (&self.resources@[a].1@[b],),
                        false,
                    ),
            decreases n - i,
        {
            let row = &self.resources[i].1;
            let m = row.len();
            let mut j: usize = 0;
            while j < m
                invariant
                    n == self.resources@.len(),
                    0 <= i < n,
                    m == self.resources@[i as int].1@.len(),
                    row == &self.resources@[i as int].1,
                    0 <= j <= m,
                    forall|x: &Resource| #[trigger] filter.requires((x,)),
                    forall|a: int, b: int|
                        #![auto]
                        0 <= a < i && 0 <= b < self.resources@[a].1@.len() ==> filter.ensures(
                            (&self.resources@[a].1@[b],),
                            false,
                        ),
                    forall|b: int|
                        #![auto]
                        0 <= b < j ==> filter.ensures(
                            (&self.resources@[i as int].1@[b],),
                            false,
                        ),
                decreases m - j,
            {
                if filter(&row[j]) {
                    return Some(row[j].clone());
                }
                j = j + 1;
            }
            i = i + 1;
        }
        None
    }
}

/// Decode an account snapshot against a module registry: for every
/// registered module, the resources (when present) addressed at that
/// module's account.
pub fn decode_account_resources(map: &AccountMap, module_registry: &Vec<ModuleRegistryEntry>) -> (r:
    AccountState)
    ensures
        r.resources@.len() == module_registry@.len(),
        forall|i: int|
            #![auto]
            0 <= i < module_registry@.len() ==> r.resources@[i].0@ == module_registry@[i].name@
                && spec_resources_match(r.resources@[i].1@, *map, module_registry@[i].account@),
{
    AccountState::from_blob(map, module_registry)
}

} // verus!
