use offchain_channel::channel::{
    ChannelError, ChannelStatus, OffchainChannel, TransferConform, TransferRequest,
};
use offchain_channel::resource::{
    ChannelResource, ClosedChannelResource, ProofResource, Resource,
};
use offchain_channel::AccountAddress;

fn addr(b: u8) -> AccountAddress {
    AccountAddress::try_from(vec![b; 32]).unwrap()
}

/// A channel between `1` (self) and `2`, both sides open with the given coin
/// amounts and no agreed state yet.
fn ready_channel(self_coin: u64, other_coin: u64) -> OffchainChannel {
    OffchainChannel::new(
        addr(1),
        addr(2),
        ChannelResource { other: addr(2), coin: self_coin },
        Some(ChannelResource { other: addr(1), coin: other_coin }),
        None,
    )
}

#[test]
fn first_transfer_scenario() {
    // Channel ready, self coin 100, other coin 50, no local data:
    // transfer(30) proposes version 1 with balances 70 / 80.
    let ch = ready_channel(100, 50);
    assert!(ch.is_ready());
    let req = ch.transfer(30).unwrap();
    assert_eq!(req.version, 1);
    assert_eq!(req.amount, 30);
    assert_eq!(req.self_balance, 70);
    assert_eq!(req.other_balance, 80);
    assert!(req.signature.is_empty());

    // The counterparty (coin 50 on its own side) accepts and records the
    // perspective-swapped state.
    let mut other_side = OffchainChannel::new(
        addr(2),
        addr(1),
        ChannelResource { other: addr(1), coin: 50 },
        Some(ChannelResource { other: addr(2), coin: 100 }),
        None,
    );
    let conform = other_side.conform(req.clone()).unwrap();
    let data = other_side.data.as_ref().unwrap();
    assert_eq!(data.version, 1);
    assert_eq!(data.self_balance, 80);
    assert_eq!(data.other_balance, 70);
    assert_eq!(conform.request, req);
    assert_eq!(conform.sender, addr(2));

    // The proposer processes the conform and records the request's view.
    let mut proposer = ready_channel(100, 50);
    proposer.process_transfer_conform(conform).unwrap();
    let data = proposer.data.as_ref().unwrap();
    assert_eq!(data.version, 1);
    assert_eq!(data.self_balance, 70);
    assert_eq!(data.other_balance, 80);
}

#[test]
fn readiness_gate() {
    // A channel whose counterparty side was never observed on chain refuses
    // every protocol step with NotReady.
    let mut ch = OffchainChannel::new(
        addr(1),
        addr(2),
        ChannelResource { other: addr(2), coin: 100 },
        None,
        None,
    );
    assert!(!ch.is_ready());
    assert_eq!(ch.transfer(1), Err(ChannelError::NotReady));
    let req = TransferRequest {
        sender: addr(2),
        version: 1,
        amount: 1,
        self_balance: 0,
        other_balance: 0,
        signature: vec![],
    };
    assert_eq!(ch.conform(req.clone()), Err(ChannelError::NotReady));
    let cf = TransferConform { sender: addr(2), signature: vec![], request: req };
    assert_eq!(ch.process_transfer_conform(cf), Err(ChannelError::NotReady));

    // The same holds once a side is closed.
    let mut ch = ready_channel(100, 50);
    ch.update_with_resource(
        Resource::ClosedChannel(
            Some(ClosedChannelResource { other: addr(2), coin: 40, height: 9 }),
        ),
        None,
    );
    assert!(!ch.is_ready());
    assert_eq!(ch.transfer(1), Err(ChannelError::NotReady));
}

#[test]
fn version_must_be_the_next_one() {
    // With no agreed state only version 1 is accepted.
    let mut ch = ready_channel(100, 50);
    let mut req = TransferRequest {
        sender: addr(2),
        version: 2,
        amount: 30,
        self_balance: 20,
        other_balance: 130,
        signature: vec![],
    };
    assert_eq!(ch.conform(req.clone()), Err(ChannelError::VersionMismatch));
    req.version = 0;
    assert_eq!(ch.conform(req.clone()), Err(ChannelError::VersionMismatch));
    req.version = 1;
    assert!(ch.conform(req).is_ok());

    // With agreed state at version 1 only version 2 is accepted.
    let data = ch.data.as_ref().unwrap();
    assert_eq!(data.version, 1);
    let req2 = TransferRequest {
        sender: addr(2),
        version: 3,
        amount: 10,
        self_balance: ch.data.as_ref().unwrap().other_balance - 10,
        other_balance: ch.data.as_ref().unwrap().self_balance + 10,
        signature: vec![],
    };
    assert_eq!(ch.conform(req2), Err(ChannelError::VersionMismatch));
}

#[test]
fn conform_conserves_total_balance() {
    let mut ch = ready_channel(100, 50);
    let req = TransferRequest {
        sender: addr(2),
        version: 1,
        amount: 30,
        self_balance: 20,
        other_balance: 130,
        signature: vec![],
    };
    ch.conform(req).unwrap();
    let before = ch.data.as_ref().unwrap().total_balance();
    assert_eq!(before, 150);

    // The other party proposes moving 5 more: our recorded balance (130)
    // plus the amount must be its claimed balance for us.
    let req2 = TransferRequest {
        sender: addr(2),
        version: 2,
        amount: 5,
        self_balance: 15,
        other_balance: 135,
        signature: vec![],
    };
    ch.conform(req2).unwrap();
    let after = ch.data.as_ref().unwrap().total_balance();
    assert_eq!(before, after);
}

#[test]
fn conform_balance_checks() {
    // Claimed counterparty balance must be the responder's balance plus the
    // amount, and the total must be conserved.
    let mut ch = ready_channel(100, 50);
    let bad_total = TransferRequest {
        sender: addr(2),
        version: 1,
        amount: 30,
        self_balance: 20,
        other_balance: 131,
        signature: vec![],
    };
    assert_eq!(ch.conform(bad_total), Err(ChannelError::BalanceMismatch));
    let bad_other = TransferRequest {
        sender: addr(2),
        version: 1,
        amount: 30,
        self_balance: 21,
        other_balance: 129,
        signature: vec![],
    };
    assert_eq!(ch.conform(bad_other), Err(ChannelError::BalanceMismatch));
    // A failed step leaves no agreed state behind.
    assert!(ch.data.is_none());
}

#[test]
fn conform_requires_coverage() {
    // The counterparty's on-chain coin must cover the amount.
    let mut ch = ready_channel(100, 50);
    let req = TransferRequest {
        sender: addr(2),
        version: 1,
        amount: 60,
        self_balance: 110,
        other_balance: 160 - 110,
        signature: vec![],
    };
    assert_eq!(ch.conform(req), Err(ChannelError::InsufficientBalance));
}

#[test]
fn transfer_insufficient_balance() {
    let ch = ready_channel(10, 50);
    assert_eq!(ch.transfer(11), Err(ChannelError::InsufficientBalance));
    assert!(ch.transfer(10).is_ok());
}

#[test]
fn transfer_with_agreed_state_decreases_both_balances() {
    // The recorded behaviour of the data-present branch: both balances fall
    // by the amount (unlike the first-transfer branch).
    let mut ch = ready_channel(100, 50);
    let req = TransferRequest {
        sender: addr(2),
        version: 1,
        amount: 30,
        self_balance: 20,
        other_balance: 130,
        signature: vec![],
    };
    ch.conform(req).unwrap();
    // Agreed state now: version 1, self 130, other 20.
    let req2 = ch.transfer(10).unwrap();
    assert_eq!(req2.version, 2);
    assert_eq!(req2.self_balance, 120);
    assert_eq!(req2.other_balance, 10);

    // And the amount must be covered by both recorded balances.
    assert_eq!(ch.transfer(21), Err(ChannelError::InsufficientBalance));
}

#[test]
fn update_with_resource_classifies_sides() {
    let mut ch = ready_channel(100, 50);

    // A live channel balance naming our counterparty is our own side.
    ch.update_with_resource(
        Resource::Channel(Some(ChannelResource { other: addr(2), coin: 70 })),
        None,
    );
    assert_eq!(ch.self_status, ChannelStatus::Open(ChannelResource { other: addr(2), coin: 70 }));

    // One naming us belongs to the counterparty's side.
    ch.update_with_resource(
        Resource::Channel(Some(ChannelResource { other: addr(1), coin: 80 })),
        None,
    );
    assert_eq!(ch.other_status, ChannelStatus::Open(ChannelResource { other: addr(1), coin: 80 }));

    // A closed-channel record closes that side.
    let closed = ClosedChannelResource { other: addr(2), coin: 70, height: 11 };
    ch.update_with_resource(Resource::ClosedChannel(Some(closed.clone())), None);
    assert_eq!(ch.self_status, ChannelStatus::Closed(closed, None));

    // A resource naming neither participant changes nothing.
    let before = ch.clone();
    ch.update_with_resource(
        Resource::Channel(Some(ChannelResource { other: addr(9), coin: 1 })),
        None,
    );
    assert_eq!(ch, before);

    // An absent resource changes nothing either.
    ch.update_with_resource(Resource::Channel(None), None);
    assert_eq!(ch, before);
}

#[test]
fn new_seeds_data_from_proof() {
    let proof = ProofResource {
        version: 4,
        self_balance: 60,
        other_balance: 90,
        self_signature: vec![1],
        other_signature: vec![2],
    };
    let ch = OffchainChannel::new(
        addr(1),
        addr(2),
        ChannelResource { other: addr(2), coin: 100 },
        Some(ChannelResource { other: addr(1), coin: 50 }),
        Some(proof),
    );
    let data = ch.data.as_ref().unwrap();
    assert_eq!(data.version, 4);
    assert_eq!(data.self_balance, 60);
    assert_eq!(data.other_balance, 90);
    assert_eq!(data.self_signature, vec![1]);
    assert_eq!(data.other_signature, vec![2]);
}
