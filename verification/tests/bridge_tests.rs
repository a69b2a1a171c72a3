use zaps::bridge::{BridgeEffect, BridgeError, CrossChainBridge, OutboundStatus};
use zaps::chain::{Address, Fault, Ledger};

const CONTRACT: Address = Address(1);
const ADMIN: Address = Address(2);
const TOKEN: Address = Address(3);
const RELAYER: Address = Address(4);
const USER: Address = Address(5);

fn everyone() -> Vec<Address> {
    vec![ADMIN, RELAYER, USER]
}

fn ledger(sequence: u32) -> Ledger {
    Ledger { sequence, timestamp: 1_700_000_000 }
}

fn setup() -> CrossChainBridge {
    let mut b = CrossChainBridge::new(CONTRACT);
    b.initialize(&everyone(), ADMIN, TOKEN, 100, 1_000_000, 50).unwrap();
    b.add_relayer(&everyone(), RELAYER).unwrap();
    b
}

fn transfers(effects: &[BridgeEffect]) -> Vec<(Address, Address, i128)> {
    effects
        .iter()
        .filter_map(|e| match e {
            BridgeEffect::Transfer { from, to, amount, .. } => Some((*from, *to, *amount)),
            _ => None,
        })
        .collect()
}

#[test]
fn initialization_checks_limits_and_happens_once() {
    let mut b = CrossChainBridge::new(CONTRACT);
    let bad = b.initialize(&everyone(), ADMIN, TOKEN, 0, 10, 50);
    assert_eq!(bad.err(), Some(Fault::Contract(BridgeError::InvalidAmountLimits)));
    b.initialize(&everyone(), ADMIN, TOKEN, 100, 1_000, 50).unwrap();
    let again = b.initialize(&everyone(), ADMIN, TOKEN, 100, 1_000, 50);
    assert_eq!(again.err(), Some(Fault::Contract(BridgeError::AlreadyInitialized)));
    assert_eq!(b.get_limits(), (100, 1_000));
    assert_eq!(b.get_admin(), Ok(ADMIN));
    assert_eq!(b.get_token(), Ok(TOKEN));
    assert!(!b.is_paused());
}

#[test]
fn inbound_claims_pay_out_once_per_nonce() {
    let mut b = setup();
    let effects = b
        .claim_inbound(&everyone(), RELAYER, vec![1, 2, 3], "ethereum".to_string(), vec![9; 32], USER, 500)
        .unwrap();
    assert_eq!(transfers(&effects), vec![(CONTRACT, USER, 500)]);
    assert!(b.is_nonce_used(&vec![1, 2, 3]));
    assert_eq!(b.get_total_inbound(), 500);

    let replay = b.claim_inbound(&everyone(), RELAYER, vec![1, 2, 3], "ethereum".to_string(), vec![9; 32], USER, 500);
    assert_eq!(replay.err(), Some(Fault::Contract(BridgeError::NonceAlreadyUsed)));
    let stranger = b.claim_inbound(&everyone(), USER, vec![4], "polygon".to_string(), vec![], USER, 500);
    assert_eq!(stranger.err(), Some(Fault::Contract(BridgeError::Unauthorized)));
    let chain = b.claim_inbound(&everyone(), RELAYER, vec![5], "solana".to_string(), vec![], USER, 500);
    assert_eq!(chain.err(), Some(Fault::Contract(BridgeError::UnsupportedChain)));
    let low = b.claim_inbound(&everyone(), RELAYER, vec![6], "polygon".to_string(), vec![], USER, 99);
    assert_eq!(low.err(), Some(Fault::Contract(BridgeError::AmountTooLow)));
    let high = b.claim_inbound(&everyone(), RELAYER, vec![7], "polygon".to_string(), vec![], USER, 1_000_001);
    assert_eq!(high.err(), Some(Fault::Contract(BridgeError::AmountTooHigh)));
    assert_eq!(b.get_total_inbound(), 500);
}

#[test]
fn outbound_lock_confirm_and_refund() {
    let mut b = setup();
    let (first, effects) = b.lock_outbound(&everyone(), &ledger(10), USER, "polygon".to_string(), vec![7; 20], 1_000).unwrap();
    assert_eq!(transfers(&effects), vec![(USER, CONTRACT, 1_000)]);
    let t = b.get_outbound(first).unwrap();
    assert_eq!((t.sender, t.amount, t.created_ledger, t.timeout_ledger, t.status), (USER, 1_000, 10, 60, OutboundStatus::Pending));
    assert_eq!(t.dest_address, [7u8; 20]);

    let (second, _) = b.lock_outbound(&everyone(), &ledger(11), USER, "ethereum".to_string(), vec![8; 20], 2_000).unwrap();
    assert_eq!(second, first + 1);
    assert_eq!(b.get_total_outbound(), 3_000);

    let short = b.lock_outbound(&everyone(), &ledger(12), USER, "ethereum".to_string(), vec![8; 19], 2_000);
    assert_eq!(short.err(), Some(Fault::Contract(BridgeError::InvalidDestAddress)));

    b.confirm_outbound(&everyone(), &ledger(60), RELAYER, first, vec![1; 32]).unwrap();
    assert_eq!(b.get_outbound(first).unwrap().status, OutboundStatus::Confirmed);
    let twice = b.confirm_outbound(&everyone(), &ledger(60), RELAYER, first, vec![1; 32]);
    assert_eq!(twice.err(), Some(Fault::Contract(BridgeError::TransferNotPending)));

    let early = b.refund_outbound(&ledger(61), second);
    assert_eq!(early.err(), Some(Fault::Contract(BridgeError::TimeoutNotReached)));
    let late_confirm = b.confirm_outbound(&everyone(), &ledger(62), RELAYER, second, vec![1; 32]);
    assert_eq!(late_confirm.err(), Some(Fault::Contract(BridgeError::TimeoutAlreadyExpired)));
    let refund = b.refund_outbound(&ledger(62), second).unwrap();
    assert_eq!(transfers(&refund), vec![(CONTRACT, USER, 2_000)]);
    assert_eq!(b.get_outbound(second).unwrap().status, OutboundStatus::Refunded);
    assert_eq!(b.get_outbound(999).err(), Some(BridgeError::TransferNotFound));
}

#[test]
fn pausing_relayers_limits_and_admin() {
    let mut b = setup();
    b.pause(&everyone()).unwrap();
    assert!(b.is_paused());
    let paused = b.lock_outbound(&everyone(), &ledger(10), USER, "polygon".to_string(), vec![7; 20], 1_000);
    assert_eq!(paused.err(), Some(Fault::Contract(BridgeError::ContractPaused)));
    b.unpause(&everyone()).unwrap();
    assert!(!b.is_paused());

    assert!(b.is_relayer(RELAYER));
    assert_eq!(b.add_relayer(&everyone(), RELAYER).err(), Some(Fault::Contract(BridgeError::RelayerAlreadyAdded)));
    b.remove_relayer(&everyone(), RELAYER).unwrap();
    assert!(!b.is_relayer(RELAYER));
    assert_eq!(b.remove_relayer(&everyone(), RELAYER).err(), Some(Fault::Contract(BridgeError::RelayerNotFound)));

    assert_eq!(b.set_limits(&everyone(), 10, 5).err(), Some(Fault::Contract(BridgeError::InvalidAmountLimits)));
    b.set_limits(&everyone(), 10, 50).unwrap();
    assert_eq!(b.get_limits(), (10, 50));

    assert_eq!(b.pause(&vec![USER]).err(), Some(Fault::MissingAuth(ADMIN)));
    b.transfer_admin(&everyone(), USER).unwrap();
    assert_eq!(b.get_admin(), Ok(USER));
}

#[test]
fn the_reentrancy_guard_is_free_between_invocations() {
    let mut b = setup();
    b.guard_is_free();
    b.lock_outbound(&everyone(), &ledger(10), USER, "polygon".to_string(), vec![7; 20], 1_000).unwrap();
    b.guard_is_free();
    let mut escrow = zaps::escrow::EscrowContract::new(CONTRACT);
    escrow.guard_is_free();
    let router = zaps::router::PaymentRouter::new(CONTRACT);
    router.guard_is_free();
}
