use zaps::chain::{Address, Fault, Ledger};
use zaps::escrow::{EscrowContract, EscrowEffect, EscrowError, EscrowEvent, EscrowState};

struct Setup {
    client: EscrowContract,
    buyer: Address,
    seller: Address,
    token: Address,
    ledger: Ledger,
}

const CONTRACT: Address = Address(1);
const RANDOM: Address = Address(99);
const RESOLVER: Address = Address(77);

fn setup() -> Setup {
    Setup {
        client: EscrowContract::new(CONTRACT),
        buyer: Address(10),
        seller: Address(20),
        token: Address(30),
        ledger: Ledger { sequence: 100, timestamp: 1_700_000_000 },
    }
}

/// Every party has signed, as with mocked authorizations.
fn everyone() -> Vec<Address> {
    vec![Address(10), Address(20), Address(30), RANDOM, RESOLVER]
}

fn make_id(seed: u8) -> [u8; 32] {
    [seed; 32]
}

fn zero_memo() -> [u8; 32] {
    [0u8; 32]
}

impl Setup {
    fn lock(&mut self, id: [u8; 32], amount: i128) -> Result<Vec<EscrowEffect>, Fault<EscrowError>> {
        let ledger = self.ledger;
        self.client.lock_funds(&everyone(), &ledger, id, self.buyer, self.seller, self.token, amount, 1_000_000, zero_memo())
    }
}

#[test]
fn test_lock_funds_success() {
    let mut s = setup();
    let escrow_id = make_id(1);
    let amount: i128 = 1_000_000;
    s.lock(escrow_id, amount).unwrap();

    let stored = s.client.get_escrow(escrow_id).unwrap();
    assert_eq!(stored.buyer, s.buyer);
    assert_eq!(stored.seller, s.seller);
    assert_eq!(stored.token, s.token);
    assert_eq!(stored.amount, amount);
    assert_eq!(stored.state, EscrowState::Locked);
    assert!(s.client.is_locked(escrow_id));
}

#[test]
fn test_lock_funds_duplicate_id_fails() {
    let mut s = setup();
    let escrow_id = make_id(2);
    s.lock(escrow_id, 500_000).unwrap();
    let result = s.lock(escrow_id, 500_000);
    assert!(result.is_err());
}

#[test]
fn test_lock_funds_zero_amount_fails() {
    let mut s = setup();
    let result = s.lock(make_id(3), 0);
    assert!(result.is_err());
}

#[test]
fn test_release_funds_by_seller_success() {
    let mut s = setup();
    let escrow_id = make_id(4);
    s.lock(escrow_id, 750_000).unwrap();
    s.client.release_funds(&everyone(), escrow_id, s.seller).unwrap();

    let stored = s.client.get_escrow(escrow_id).unwrap();
    assert_eq!(stored.state, EscrowState::Released);
    assert!(!s.client.is_locked(escrow_id));
}

#[test]
fn test_release_funds_unauthorized_fails() {
    let mut s = setup();
    let escrow_id = make_id(5);
    s.lock(escrow_id, 300_000).unwrap();
    let result = s.client.release_funds(&everyone(), escrow_id, RANDOM);
    assert!(result.is_err());
}

#[test]
fn test_release_already_released_fails() {
    let mut s = setup();
    let escrow_id = make_id(14);
    s.lock(escrow_id, 100_000).unwrap();
    s.client.release_funds(&everyone(), escrow_id, s.seller).unwrap();
    let result = s.client.release_funds(&everyone(), escrow_id, s.seller);
    assert!(result.is_err());
}

#[test]
fn test_refund_funds_by_buyer_after_timeout_success() {
    let mut s = setup();
    let escrow_id = make_id(6);
    s.lock(escrow_id, 1_200_000).unwrap();

    let later = Ledger { sequence: s.ledger.sequence, timestamp: s.ledger.timestamp + 8 * 24 * 60 * 60 };
    s.client.refund_funds(&everyone(), &later, escrow_id, s.buyer).unwrap();

    let stored = s.client.get_escrow(escrow_id).unwrap();
    assert_eq!(stored.state, EscrowState::Refunded);
    assert!(!s.client.is_locked(escrow_id));
}

#[test]
fn test_refund_before_timeout_only_by_buyer_or_arbitrator() {
    let mut s = setup();
    let escrow_id = make_id(7);
    s.lock(escrow_id, 900_000).unwrap();
    let ledger = s.ledger;

    let result = s.client.refund_funds(&everyone(), &ledger, escrow_id, RANDOM);
    assert!(result.is_err());

    s.client.refund_funds(&everyone(), &ledger, escrow_id, s.buyer).unwrap();
    assert_eq!(s.client.get_escrow(escrow_id).unwrap().state, EscrowState::Refunded);
}

#[test]
fn test_refund_already_refunded_fails() {
    let mut s = setup();
    let escrow_id = make_id(15);
    s.lock(escrow_id, 100_000).unwrap();
    let ledger = s.ledger;
    s.client.refund_funds(&everyone(), &ledger, escrow_id, s.buyer).unwrap();
    let result = s.client.refund_funds(&everyone(), &ledger, escrow_id, s.buyer);
    assert!(result.is_err());
}

#[test]
fn test_initiate_dispute_by_buyer() {
    let mut s = setup();
    let escrow_id = make_id(8);
    s.lock(escrow_id, 500_000).unwrap();
    s.client.initiate_dispute(&everyone(), escrow_id, s.buyer, RESOLVER).unwrap();
    assert_eq!(s.client.get_state(escrow_id).unwrap(), EscrowState::Disputed);
}

#[test]
fn test_initiate_dispute_by_seller() {
    let mut s = setup();
    let escrow_id = make_id(9);
    s.lock(escrow_id, 500_000).unwrap();
    s.client.initiate_dispute(&everyone(), escrow_id, s.seller, RESOLVER).unwrap();
    assert_eq!(s.client.get_state(escrow_id).unwrap(), EscrowState::Disputed);
}

#[test]
fn test_initiate_dispute_unauthorized_fails() {
    let mut s = setup();
    let escrow_id = make_id(10);
    s.lock(escrow_id, 500_000).unwrap();
    let result = s.client.initiate_dispute(&everyone(), escrow_id, RANDOM, RESOLVER);
    assert!(result.is_err());
}

#[test]
fn test_vote_resolution_agreement_releases_to_seller() {
    let mut s = setup();
    let escrow_id = make_id(11);
    s.lock(escrow_id, 400_000).unwrap();
    s.client.initiate_dispute(&everyone(), escrow_id, s.buyer, RESOLVER).unwrap();
    s.client.vote_resolution(&everyone(), escrow_id, s.buyer, true).unwrap();
    s.client.vote_resolution(&everyone(), escrow_id, s.seller, true).unwrap();
    assert_eq!(s.client.get_state(escrow_id).unwrap(), EscrowState::Released);
}

#[test]
fn test_vote_resolution_agreement_refunds_buyer() {
    let mut s = setup();
    let escrow_id = make_id(12);
    s.lock(escrow_id, 400_000).unwrap();
    s.client.initiate_dispute(&everyone(), escrow_id, s.buyer, RESOLVER).unwrap();
    s.client.vote_resolution(&everyone(), escrow_id, s.buyer, false).unwrap();
    s.client.vote_resolution(&everyone(), escrow_id, s.seller, false).unwrap();
    assert_eq!(s.client.get_state(escrow_id).unwrap(), EscrowState::Refunded);
}

#[test]
fn test_vote_resolution_disagreement_stays_disputed() {
    let mut s = setup();
    let escrow_id = make_id(13);
    s.lock(escrow_id, 400_000).unwrap();
    s.client.initiate_dispute(&everyone(), escrow_id, s.buyer, RESOLVER).unwrap();
    s.client.vote_resolution(&everyone(), escrow_id, s.buyer, true).unwrap();
    s.client.vote_resolution(&everyone(), escrow_id, s.seller, false).unwrap();
    assert_eq!(s.client.get_state(escrow_id).unwrap(), EscrowState::Disputed);
}

#[test]
fn test_vote_resolution_duplicate_vote_fails() {
    let mut s = setup();
    let escrow_id = make_id(16);
    s.lock(escrow_id, 400_000).unwrap();
    s.client.initiate_dispute(&everyone(), escrow_id, s.buyer, RESOLVER).unwrap();
    s.client.vote_resolution(&everyone(), escrow_id, s.buyer, true).unwrap();
    let result = s.client.vote_resolution(&everyone(), escrow_id, s.buyer, false);
    assert!(result.is_err());
}

#[test]
fn test_reentrancy_lock_released_after_successful_lock_funds() {
    let mut s = setup();
    let id1 = make_id(20);
    let id2 = make_id(21);
    s.lock(id1, 100_000).unwrap();
    s.lock(id2, 100_000).unwrap();
    assert_eq!(s.client.get_state(id1).unwrap(), EscrowState::Locked);
    assert_eq!(s.client.get_state(id2).unwrap(), EscrowState::Locked);
}

#[test]
fn test_reentrancy_lock_released_after_successful_release_funds() {
    let mut s = setup();
    let id1 = make_id(22);
    let id2 = make_id(23);
    s.lock(id1, 100_000).unwrap();
    s.lock(id2, 100_000).unwrap();
    s.client.release_funds(&everyone(), id1, s.seller).unwrap();
    s.client.release_funds(&everyone(), id2, s.seller).unwrap();
    assert_eq!(s.client.get_state(id1).unwrap(), EscrowState::Released);
    assert_eq!(s.client.get_state(id2).unwrap(), EscrowState::Released);
}

#[test]
fn test_reentrancy_lock_released_after_successful_refund_funds() {
    let mut s = setup();
    let id1 = make_id(24);
    let id2 = make_id(25);
    s.lock(id1, 100_000).unwrap();
    s.lock(id2, 100_000).unwrap();
    let ledger = s.ledger;
    s.client.refund_funds(&everyone(), &ledger, id1, s.buyer).unwrap();
    s.client.refund_funds(&everyone(), &ledger, id2, s.buyer).unwrap();
    assert_eq!(s.client.get_state(id1).unwrap(), EscrowState::Refunded);
    assert_eq!(s.client.get_state(id2).unwrap(), EscrowState::Refunded);
}

#[test]
fn test_reentrancy_lock_released_after_successful_initiate_dispute() {
    let mut s = setup();
    let id1 = make_id(26);
    let id2 = make_id(27);
    s.lock(id1, 100_000).unwrap();
    s.lock(id2, 100_000).unwrap();
    s.client.initiate_dispute(&everyone(), id1, s.buyer, RESOLVER).unwrap();
    s.client.initiate_dispute(&everyone(), id2, s.buyer, RESOLVER).unwrap();
    assert_eq!(s.client.get_state(id1).unwrap(), EscrowState::Disputed);
    assert_eq!(s.client.get_state(id2).unwrap(), EscrowState::Disputed);
}

#[test]
fn test_reentrancy_lock_released_after_vote_resolution() {
    let mut s = setup();
    let id1 = make_id(28);
    let id2 = make_id(29);
    s.lock(id1, 100_000).unwrap();
    s.lock(id2, 100_000).unwrap();
    s.client.initiate_dispute(&everyone(), id1, s.buyer, RESOLVER).unwrap();
    s.client.initiate_dispute(&everyone(), id2, s.buyer, RESOLVER).unwrap();
    s.client.vote_resolution(&everyone(), id1, s.buyer, true).unwrap();
    s.client.vote_resolution(&everyone(), id2, s.buyer, true).unwrap();
    assert_eq!(s.client.get_state(id1).unwrap(), EscrowState::Disputed);
    assert_eq!(s.client.get_state(id2).unwrap(), EscrowState::Disputed);
}

#[test]
fn test_reentrancy_error_code_is_eleven() {
    assert_eq!(EscrowError::Reentrant.code(), 11);
}

#[test]
fn lock_moves_the_amount_into_the_contract() {
    let mut s = setup();
    let effects = s.lock(make_id(40), 1234).unwrap();
    assert_eq!(effects.len(), 2);
    match effects[0] {
        EscrowEffect::Transfer { token, from, to, amount } => {
            assert_eq!((token, from, to, amount), (s.token, s.buyer, CONTRACT, 1234));
        }
        _ => panic!("expected a transfer"),
    }
    assert!(matches!(effects[1], EscrowEffect::Event(EscrowEvent::Locked { amount: 1234, .. })));
}

#[test]
fn agreeing_votes_pay_out_exactly_once() {
    let mut s = setup();
    let id = make_id(41);
    s.lock(id, 5_000).unwrap();
    s.client.initiate_dispute(&everyone(), id, s.seller, RESOLVER).unwrap();
    let first = s.client.vote_resolution(&everyone(), id, s.seller, false).unwrap();
    assert_eq!(first.len(), 1);
    let second = s.client.vote_resolution(&everyone(), id, s.buyer, false).unwrap();
    match second[0] {
        EscrowEffect::Transfer { to, amount, .. } => assert_eq!((to, amount), (s.buyer, 5_000)),
        _ => panic!("expected the refund transfer"),
    }
    // Settled: no further release, refund or vote.
    assert!(s.client.release_funds(&everyone(), id, s.seller).is_err());
    let ledger = s.ledger;
    assert!(s.client.refund_funds(&everyone(), &ledger, id, s.buyer).is_err());
    assert!(s.client.vote_resolution(&everyone(), id, s.seller, true).is_err());
}

#[test]
fn missing_signature_is_reported_first() {
    let mut s = setup();
    let ledger = s.ledger;
    let r = s.client.lock_funds(&vec![], &ledger, make_id(42), s.buyer, s.seller, s.token, 10, 1, zero_memo());
    assert_eq!(r.unwrap_err(), Fault::MissingAuth(s.buyer));
    assert_eq!(s.client.get_state(make_id(42)).unwrap_err(), EscrowError::NotLocked);
}

#[test]
fn anyone_may_refund_after_the_timeout() {
    let mut s = setup();
    let id = make_id(43);
    s.lock(id, 77).unwrap();
    let just_before = Ledger { sequence: 1, timestamp: s.ledger.timestamp + 604_799 };
    assert_eq!(
        s.client.refund_funds(&everyone(), &just_before, id, RANDOM).unwrap_err(),
        Fault::Contract(EscrowError::NotAuthorized)
    );
    let at_timeout = Ledger { sequence: 1, timestamp: s.ledger.timestamp + 604_800 };
    s.client.refund_funds(&everyone(), &at_timeout, id, RANDOM).unwrap();
    assert_eq!(s.client.get_state(id).unwrap(), EscrowState::Refunded);
}
