use hex::FromHex;
use offchain_channel::channel::{TransferConform, TransferRequest};
use offchain_channel::codec::DecodeError;
use offchain_channel::resource::{
    ChannelResource, ClosedChannelResource, ETokenResource, ProofResource,
};
use offchain_channel::AccountAddress;

fn addr(b: u8) -> AccountAddress {
    AccountAddress::try_from(vec![b; 32]).unwrap()
}

#[test]
fn test_channel_deserialize() {
    let bytes: Vec<u8> = Vec::from_hex(
        "0065cd1d000000002000000099ed3e6632ada884225d19d9ba6c5427b1d40638455658dc00923d809a21b7dd",
    )
    .unwrap();
    let channel: ChannelResource = ChannelResource::deserialize(bytes.as_slice()).unwrap();
    println!("channel:{:?}", channel);
    assert_eq!(channel.coin, 500_000_000);
}

#[test]
fn etoken_exact_bytes() {
    // u64 fields are eight little-endian bytes.
    let r = ETokenResource::new(1);
    assert_eq!(r.serialize(), vec![1u8, 0, 0, 0, 0, 0, 0, 0]);
    let r = ETokenResource::new(0x0102030405060708);
    assert_eq!(r.serialize(), vec![8u8, 7, 6, 5, 4, 3, 2, 1]);
}

#[test]
fn etoken_roundtrip() {
    for v in [0u64, 1, 42, u64::MAX] {
        let r = ETokenResource::new(v);
        let bytes = r.serialize();
        assert_eq!(ETokenResource::deserialize(&bytes).unwrap(), r);
    }
}

#[test]
fn channel_resource_roundtrip() {
    let c = ChannelResource { other: addr(7), coin: 12345 };
    let bytes = c.serialize();
    // coin (8) + length prefix (4) + address (32)
    assert_eq!(bytes.len(), 44);
    let back = ChannelResource::deserialize(&bytes).unwrap();
    assert_eq!(back, c);
}

#[test]
fn closed_channel_roundtrip() {
    let c = ClosedChannelResource { other: addr(9), coin: 77, height: 123456789 };
    let bytes = c.serialize();
    assert_eq!(bytes.len(), 52);
    assert_eq!(ClosedChannelResource::deserialize(&bytes).unwrap(), c);
}

#[test]
fn proof_roundtrip() {
    let p = ProofResource {
        version: 3,
        self_balance: 70,
        other_balance: 80,
        self_signature: vec![1, 2, 3],
        other_signature: vec![],
    };
    let bytes = p.serialize();
    assert_eq!(ProofResource::deserialize(&bytes).unwrap(), p);
}

#[test]
fn request_roundtrip() {
    let req = TransferRequest {
        sender: addr(1),
        version: 5,
        amount: 30,
        self_balance: 70,
        other_balance: 80,
        signature: vec![0xde, 0xad],
    };
    let bytes = req.serialize();
    assert_eq!(TransferRequest::deserialize(&bytes).unwrap(), req);
}

#[test]
fn conform_roundtrip() {
    let req = TransferRequest {
        sender: addr(1),
        version: 1,
        amount: 30,
        self_balance: 70,
        other_balance: 80,
        signature: vec![],
    };
    let cf = TransferConform { sender: addr(2), signature: vec![9, 9], request: req };
    let bytes = cf.serialize();
    assert_eq!(TransferConform::deserialize(&bytes).unwrap(), cf);
}

#[test]
fn encoding_is_deterministic() {
    // Two encodings of the same value are byte-identical.
    let c = ChannelResource { other: addr(7), coin: 500 };
    assert_eq!(c.serialize(), c.serialize());
    let req = TransferRequest {
        sender: addr(1),
        version: 1,
        amount: 2,
        self_balance: 3,
        other_balance: 4,
        signature: vec![5],
    };
    assert_eq!(req.serialize(), req.serialize());
}

#[test]
fn request_exact_bytes() {
    // Fields in lexicographic name order: amount, other_balance,
    // self_balance, sender, signature, version.
    let req = TransferRequest {
        sender: AccountAddress::try_from(vec![0u8; 32]).unwrap(),
        version: 1,
        amount: 2,
        self_balance: 3,
        other_balance: 4,
        signature: vec![],
    };
    let mut expected: Vec<u8> = Vec::new();
    expected.extend_from_slice(&[2, 0, 0, 0, 0, 0, 0, 0]); // amount
    expected.extend_from_slice(&[4, 0, 0, 0, 0, 0, 0, 0]); // other_balance
    expected.extend_from_slice(&[3, 0, 0, 0, 0, 0, 0, 0]); // self_balance
    expected.extend_from_slice(&[32, 0, 0, 0]); // sender length prefix
    expected.extend_from_slice(&[0u8; 32]); // sender bytes
    expected.extend_from_slice(&[0, 0, 0, 0]); // signature length prefix
    expected.extend_from_slice(&[1, 0, 0, 0, 0, 0, 0, 0]); // version
    assert_eq!(req.serialize(), expected);
}

#[test]
fn truncated_input_is_an_error() {
    assert_eq!(ETokenResource::deserialize(&[1, 2, 3]), Err(DecodeError::Truncated));
    // A channel resource cut short inside the address.
    let c = ChannelResource { other: addr(7), coin: 12345 };
    let bytes = c.serialize();
    assert_eq!(
        ChannelResource::deserialize(&bytes[..20]),
        Err(DecodeError::Truncated)
    );
}

#[test]
fn declared_length_beyond_buffer_is_an_error() {
    // A byte-array value whose length prefix exceeds the remaining buffer.
    let mut bytes: Vec<u8> = Vec::new();
    bytes.extend_from_slice(&[80, 0, 0, 0, 0, 0, 0, 0]); // other_balance
    bytes.extend_from_slice(&[255, 0, 0, 0]); // other_signature claims 255 bytes
    bytes.extend_from_slice(&[1, 2, 3]); // ...but only three remain
    assert_eq!(ProofResource::deserialize(&bytes), Err(DecodeError::Truncated));
}

#[test]
fn trailing_bytes_are_an_error() {
    let mut bytes = ETokenResource::new(7).serialize();
    bytes.push(0);
    assert_eq!(ETokenResource::deserialize(&bytes), Err(DecodeError::Trailing));
}

#[test]
fn wrong_address_width_is_an_error() {
    // A channel resource whose embedded address declares 31 bytes.
    let mut bytes: Vec<u8> = Vec::new();
    bytes.extend_from_slice(&[0, 101, 205, 29, 0, 0, 0, 0]); // coin
    bytes.extend_from_slice(&[31, 0, 0, 0]); // declared address length 31
    bytes.extend_from_slice(&[7u8; 31]);
    assert_eq!(ChannelResource::deserialize(&bytes), Err(DecodeError::Invalid));
}
