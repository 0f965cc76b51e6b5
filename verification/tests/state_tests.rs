use offchain_channel::account::{AccountData, AccountStatus, KeyPair};
use offchain_channel::account_state::{decode_account_resources, AccountState, ModuleRegistryEntry};
use offchain_channel::channel::{OffchainChannel, TransferConform, TransferRequest};
use offchain_channel::natives::{native_echo, NativeError, NativeReturnType, StackAccessor};
use offchain_channel::resource::{
    channel_path, closed_channel_path, etoken_path, proof_path, ChannelResource, ETokenResource,
    ProofResource, Resource, ResourceError,
};
use offchain_channel::snapshot::AccountMap;
use offchain_channel::{AccountAddress, DecodeError};

fn addr(b: u8) -> AccountAddress {
    AccountAddress::try_from(vec![b; 32]).unwrap()
}

#[test]
fn address_width_is_checked() {
    assert!(AccountAddress::try_from(vec![0u8; 31]).is_none());
    assert!(AccountAddress::try_from(vec![0u8; 33]).is_none());
    let a = AccountAddress::try_from(vec![5u8; 32]).unwrap();
    assert_eq!(a.as_bytes(), &vec![5u8; 32]);
    assert_eq!(a, addr(5));
    assert!(a != addr(6));
}

#[test]
fn paths_are_deterministic_and_distinct() {
    let a = addr(3);
    // Same triple, same path.
    assert_eq!(etoken_path(&a), etoken_path(&a));
    // Different kinds and different owners give different paths.
    let paths = [etoken_path(&a), channel_path(&a), closed_channel_path(&a), proof_path(&a)];
    for i in 0..paths.len() {
        for j in 0..paths.len() {
            if i != j {
                assert!(paths[i] != paths[j]);
            }
        }
    }
    assert!(etoken_path(&a) != etoken_path(&addr(4)));
    assert_eq!(ETokenResource::resource_path(&a), etoken_path(&a));
}

#[test]
fn account_map_lookup() {
    let mut map = AccountMap::new();
    assert!(map.get(&vec![1, 2, 3]).is_none());
    map.insert(vec![1, 2, 3], vec![9]);
    map.insert(vec![4], vec![8]);
    assert_eq!(map.get(&vec![1, 2, 3]), Some(&vec![9]));
    assert_eq!(map.get(&vec![4]), Some(&vec![8]));
    assert!(map.get(&vec![1, 2]).is_none());
    // A later insert for the same key shadows the earlier value.
    map.insert(vec![4], vec![7]);
    assert_eq!(map.get(&vec![4]), Some(&vec![7]));
}

#[test]
fn make_from_resolves_or_reports_absence() {
    let module = addr(3);
    let mut map = AccountMap::new();
    map.insert(etoken_path(&module), ETokenResource::new(55).serialize());
    assert_eq!(ETokenResource::make_from(&module, &map), Ok(ETokenResource::new(55)));
    // Absent entry: a typed "not found", not a decoding failure.
    assert_eq!(ChannelResource::make_from(&module, &map), Err(ResourceError::NotFound));
    // Present but malformed entry: a decoding failure.
    map.insert(channel_path(&module), vec![1, 2, 3]);
    assert_eq!(
        ChannelResource::make_from(&module, &map),
        Err(ResourceError::Decode(DecodeError::Truncated))
    );
}

#[test]
fn missing_token_does_not_block_other_resources() {
    // A snapshot holding a channel resource but no token resource for the
    // registered module: the token is reported absent, the channel decoded.
    let module = addr(3);
    let mut map = AccountMap::new();
    let channel = ChannelResource { other: addr(2), coin: 500 };
    map.insert(channel_path(&module), channel.serialize());
    let registry = vec![ModuleRegistryEntry { name: String::from("channel"), account: module }];
    let state = AccountState::from_blob(&map, &registry);
    assert_eq!(state.resources.len(), 1);
    assert_eq!(state.resources[0].0, "channel");
    let row = &state.resources[0].1;
    assert_eq!(row.len(), 4);
    assert_eq!(row[0], Resource::EToken(None));
    assert_eq!(row[1], Resource::Channel(Some(channel)));
    assert_eq!(row[2], Resource::ClosedChannel(None));
    assert_eq!(row[3], Resource::Proof(None));
}

#[test]
fn decode_account_resources_covers_every_module() {
    let m1 = addr(3);
    let m2 = addr(4);
    let mut map = AccountMap::new();
    map.insert(etoken_path(&m1), ETokenResource::new(7).serialize());
    let registry = vec![
        ModuleRegistryEntry { name: String::from("etoken"), account: m1 },
        ModuleRegistryEntry { name: String::from("channel"), account: m2 },
    ];
    let state = decode_account_resources(&map, &registry);
    assert_eq!(state.resources.len(), 2);
    assert_eq!(state.resources[0].0, "etoken");
    assert_eq!(state.resources[0].1[0], Resource::EToken(Some(ETokenResource::new(7))));
    assert_eq!(state.resources[1].0, "channel");
    assert_eq!(state.resources[1].1[0], Resource::EToken(None));
}

#[test]
fn find_resource_scans_all_modules() {
    let m1 = addr(3);
    let m2 = addr(4);
    let mut map = AccountMap::new();
    let channel = ChannelResource { other: addr(2), coin: 500 };
    map.insert(channel_path(&m2), channel.serialize());
    let registry = vec![
        ModuleRegistryEntry { name: String::from("etoken"), account: m1 },
        ModuleRegistryEntry { name: String::from("channel"), account: m2 },
    ];
    let state = AccountState::from_blob(&map, &registry);
    let found = state.find_resource(|r: &Resource| matches!(r, Resource::Channel(Some(_))));
    assert_eq!(found, Some(Resource::Channel(Some(channel))));
    let none = state.find_resource(|r: &Resource| matches!(r, Resource::Proof(Some(_))));
    assert_eq!(none, None);
}

#[test]
fn ledger_owns_one_channel_per_counterparty() {
    let mut account = AccountData::new(addr(1), None, 0, AccountStatus::Local);
    assert!(account.get_channel(&addr(2)).is_none());

    let ch = OffchainChannel::new(
        addr(1),
        addr(2),
        ChannelResource { other: addr(2), coin: 100 },
        None,
        None,
    );
    account.append_channel(ch.clone());
    assert_eq!(account.get_channel(&addr(2)), Some(&ch));

    // Re-appending for the same counterparty replaces the stored channel.
    let ch2 = OffchainChannel::new(
        addr(1),
        addr(2),
        ChannelResource { other: addr(2), coin: 60 },
        Some(ChannelResource { other: addr(1), coin: 40 }),
        None,
    );
    account.append_channel(ch2.clone());
    assert_eq!(account.channels.len(), 1);
    assert_eq!(account.get_channel(&addr(2)), Some(&ch2));

    // A second counterparty gets its own channel.
    let ch3 = OffchainChannel::new(
        addr(1),
        addr(3),
        ChannelResource { other: addr(3), coin: 5 },
        None,
        None,
    );
    account.append_channel(ch3.clone());
    assert_eq!(account.channels.len(), 2);
    assert_eq!(account.get_channel(&addr(3)), Some(&ch3));

    account.delete_channel(&addr(2));
    assert!(account.get_channel(&addr(2)).is_none());
    assert_eq!(account.get_channel(&addr(3)), Some(&ch3));
}

#[test]
fn ledger_keeps_message_history() {
    let mut account = AccountData::new(addr(1), None, 9, AccountStatus::Persisted);
    assert_eq!(account.sequence_number, 9);
    assert_eq!(account.status, AccountStatus::Persisted);
    let req = TransferRequest {
        sender: addr(1),
        version: 1,
        amount: 2,
        self_balance: 3,
        other_balance: 4,
        signature: vec![],
    };
    account.append_transfer_request(req.clone());
    let cf = TransferConform { sender: addr(2), signature: vec![], request: req.clone() };
    account.append_transfer_conform(cf.clone());
    assert_eq!(account.transfer_requests, vec![req]);
    assert_eq!(account.transfer_conforms, vec![cf]);
}

#[test]
fn keypair_as_string_is_hex() {
    let account = AccountData::new(
        addr(1),
        Some(KeyPair { private_key: vec![0xab, 0xcd], public_key: vec![0x01, 0xef] }),
        0,
        AccountStatus::Local,
    );
    let (private_hex, public_hex) = account.keypair_as_string().unwrap();
    assert_eq!(private_hex, "abcd");
    assert_eq!(public_hex, "01ef");

    let bare = AccountData::new(addr(1), None, 0, AccountStatus::Local);
    assert!(bare.keypair_as_string().is_none());
}

#[test]
fn request_hex_roundtrip() {
    let req = TransferRequest {
        sender: addr(1),
        version: 1,
        amount: 30,
        self_balance: 70,
        other_balance: 80,
        signature: vec![0x5a],
    };
    let hex_text = req.to_hex();
    assert_eq!(hex_text, hex::encode(req.serialize()));
    let back = TransferRequest::from_hex(&hex_text).unwrap();
    assert_eq!(back, req);
    // Uppercase text decodes to the same message.
    let upper = hex_text.to_uppercase();
    assert_eq!(TransferRequest::from_hex(&upper).unwrap(), req);
}

#[test]
fn conform_hex_roundtrip() {
    let req = TransferRequest {
        sender: addr(1),
        version: 1,
        amount: 30,
        self_balance: 70,
        other_balance: 80,
        signature: vec![],
    };
    let cf = TransferConform { sender: addr(2), signature: vec![7, 7], request: req };
    let back = TransferConform::from_hex(&cf.to_hex()).unwrap();
    assert_eq!(back, cf);
}

#[test]
fn malformed_hex_is_an_error() {
    assert!(TransferRequest::from_hex("zz").is_err());
    assert!(TransferRequest::from_hex("abc").is_err());
    assert!(TransferRequest::from_hex("").is_err());
    assert!(TransferConform::from_hex("0102").is_err());
}

struct OneArgStack {
    arg: Option<Vec<u8>>,
}

impl StackAccessor for OneArgStack {
    fn get_byte_array(&mut self) -> Result<Vec<u8>, NativeError> {
        self.arg.take().ok_or(NativeError::BadArgument)
    }
}

#[test]
fn native_echo_returns_argument_and_charges_length() {
    let stack = OneArgStack { arg: Some(vec![1, 2, 3, 4, 5]) };
    let result = native_echo(stack).unwrap();
    assert_eq!(result.native_cost, 5);
    assert_eq!(result.native_return, NativeReturnType::ByteArray(vec![1, 2, 3, 4, 5]));

    let empty = OneArgStack { arg: None };
    assert_eq!(native_echo(empty).unwrap_err(), NativeError::BadArgument);
}

#[test]
fn proof_resource_resolves_from_snapshot() {
    let module = addr(3);
    let proof = ProofResource {
        version: 2,
        self_balance: 10,
        other_balance: 20,
        self_signature: vec![1],
        other_signature: vec![2],
    };
    let mut map = AccountMap::new();
    map.insert(proof_path(&module), proof.serialize());
    assert_eq!(ProofResource::make_from(&module, &map), Ok(proof));
}
