use zaps::chain::{Address, Fault};
use zaps::router::{
    split_fee, AdminAction, FxAnswers, MerchantMetadata, PaymentError, PaymentRouter, RouterEffect,
    StubFxRouter, StubRegistry, StubVault,
};

const ROUTER: Address = Address(1);
const ADMIN: Address = Address(2);
const PAYER: Address = Address(3);
const USDC: Address = Address(4);
const VAULT: Address = Address(5);
const REGISTRY: Address = Address(6);
const FEE_DEST: Address = Address(7);
const XLM: Address = Address(8);
const FX: Address = Address(9);

fn everyone() -> Vec<Address> {
    vec![ADMIN, PAYER, FEE_DEST, Address(10)]
}

fn no_fx() -> FxAnswers {
    FxAnswers { quoted: 0, balance_before: 0, balance_after: 0 }
}

struct Setup {
    client: PaymentRouter,
    registry: StubRegistry,
    merchant_id: Vec<u8>,
}

impl Setup {
    fn with(fee_bps: u32, fee_dest: Option<Address>, meta: MerchantMetadata, merchant_id: &[u8]) -> Self {
        let mut registry = StubRegistry::new();
        registry.set_merchant(merchant_id.to_vec(), meta);
        let mut client = PaymentRouter::new(ROUTER);
        client.initialize(&everyone(), ADMIN, REGISTRY, fee_bps, fee_dest).unwrap();
        Setup { client, registry, merchant_id: merchant_id.to_vec() }
    }

    fn new() -> Self {
        Setup::with(
            0,
            None,
            MerchantMetadata { settlement_asset: USDC, vault: VAULT, active: true, fx_router: None },
            b"merch_pause",
        )
    }

    fn pay(&mut self, asset: Address, amount: i128, min_receive: i128, fx: FxAnswers) -> Result<i128, Fault<PaymentError>> {
        let meta = self.registry.get_merchant(&self.merchant_id).unwrap();
        self.client
            .pay(&everyone(), PAYER, self.merchant_id.clone(), asset, amount, min_receive, &meta, &fx)
            .map(|(net, _)| net)
    }
}

fn has_admin_event(effects: &[RouterEffect], action: AdminAction) -> bool {
    effects.iter().any(|e| matches!(e, RouterEffect::Admin(a) if *a == action))
}

#[test]
fn test_initial_state_is_unpaused() {
    let s = Setup::new();
    assert!(!s.client.is_paused());
}

#[test]
fn test_admin_can_pause() {
    let mut s = Setup::new();
    s.client.pause(&everyone()).unwrap();
    assert!(s.client.is_paused());
}

#[test]
fn test_pause_is_idempotent() {
    let mut s = Setup::new();
    s.client.pause(&everyone()).unwrap();
    s.client.pause(&everyone()).unwrap();
    assert!(s.client.is_paused());
}

#[test]
fn test_non_admin_cannot_pause() {
    let mut client = PaymentRouter::new(ROUTER);
    client.initialize(&everyone(), ADMIN, REGISTRY, 0, None).unwrap();
    assert!(!client.is_paused());
    assert_eq!(client.pause(&vec![PAYER]).unwrap_err(), Fault::MissingAuth(ADMIN));
    assert!(!client.is_paused());
}

#[test]
fn test_admin_can_unpause() {
    let mut s = Setup::new();
    s.client.pause(&everyone()).unwrap();
    assert!(s.client.is_paused());
    s.client.unpause(&everyone()).unwrap();
    assert!(!s.client.is_paused());
}

#[test]
fn test_unpause_is_idempotent() {
    let mut s = Setup::new();
    s.client.unpause(&everyone()).unwrap();
    assert!(!s.client.is_paused());
}

#[test]
fn test_non_admin_cannot_unpause() {
    let mut client = PaymentRouter::new(ROUTER);
    client.initialize(&everyone(), ADMIN, REGISTRY, 0, None).unwrap();
    client.pause(&everyone()).unwrap();
    assert!(client.is_paused());

    let result = client.unpause(&vec![]);
    assert!(result.is_err(), "unpause without auth must fail");
    assert!(client.is_paused(), "contract must remain paused");
}

#[test]
fn test_pay_blocked_when_paused() {
    let mut s = Setup::new();
    s.client.pause(&everyone()).unwrap();
    assert_eq!(s.pay(USDC, 1000, 1000, no_fx()), Err(Fault::Contract(PaymentError::ContractPaused)));
}

#[test]
fn test_pay_succeeds_after_unpause() {
    let mut s = Setup::new();
    s.client.pause(&everyone()).unwrap();
    s.client.unpause(&everyone()).unwrap();
    assert_eq!(s.pay(USDC, 1000, 1000, no_fx()), Ok(1000));
}

#[test]
fn test_pay_succeeds_when_never_paused() {
    let mut s = Setup::new();
    assert_eq!(s.pay(USDC, 500, 500, no_fx()), Ok(500));
}

#[test]
fn test_pay_blocked_after_mid_session_pause() {
    let mut s = Setup::new();
    assert_eq!(s.pay(USDC, 100, 100, no_fx()), Ok(100));
    s.client.pause(&everyone()).unwrap();
    assert_eq!(s.pay(USDC, 100, 100, no_fx()), Err(Fault::Contract(PaymentError::ContractPaused)));
}

#[test]
fn test_multiple_pause_unpause_cycles() {
    let mut s = Setup::new();
    for _ in 0..3 {
        s.client.pause(&everyone()).unwrap();
        assert!(s.client.is_paused());
        assert_eq!(s.pay(USDC, 10, 10, no_fx()), Err(Fault::Contract(PaymentError::ContractPaused)));
        s.client.unpause(&everyone()).unwrap();
        assert!(!s.client.is_paused());
        assert_eq!(s.pay(USDC, 10, 10, no_fx()), Ok(10));
    }
}

#[test]
fn test_pause_emits_event() {
    let mut s = Setup::new();
    let effects = s.client.pause(&everyone()).unwrap();
    assert!(has_admin_event(&effects, AdminAction::Paused), "expected (admin, paused) event after pause()");
}

#[test]
fn test_unpause_emits_event() {
    let mut s = Setup::new();
    s.client.pause(&everyone()).unwrap();
    let effects = s.client.unpause(&everyone()).unwrap();
    assert!(has_admin_event(&effects, AdminAction::Unpaused), "expected (admin, unpaused) event after unpause()");
}

#[test]
fn test_pause_unpause_event_count() {
    let mut s = Setup::new();
    let mut all: Vec<RouterEffect> = Vec::new();
    all.extend(s.client.pause(&everyone()).unwrap());
    all.extend(s.client.unpause(&everyone()).unwrap());
    all.extend(s.client.pause(&everyone()).unwrap());
    all.extend(s.client.unpause(&everyone()).unwrap());
    let paused = all.iter().filter(|e| matches!(e, RouterEffect::Admin(AdminAction::Paused))).count();
    let unpaused = all.iter().filter(|e| matches!(e, RouterEffect::Admin(AdminAction::Unpaused))).count();
    assert_eq!(paused, 2, "expected 2 pause events");
    assert_eq!(unpaused, 2, "expected 2 unpause events");
}

#[test]
fn test_direct_payment_no_fee() {
    let mut s = Setup::new();
    assert_eq!(s.pay(USDC, 5000, 5000, no_fx()), Ok(5000));
}

#[test]
fn test_direct_payment_with_fee() {
    let mut s = Setup::with(
        100,
        Some(FEE_DEST),
        MerchantMetadata { settlement_asset: USDC, vault: VAULT, active: true, fx_router: None },
        b"merch_fee",
    );
    // fee = 10000 * 100 / 10000 = 100, net = 9900
    assert_eq!(s.pay(USDC, 10_000, 9_900, no_fx()), Ok(9_900));
}

#[test]
fn test_fx_payment() {
    let mut s = Setup::with(
        0,
        None,
        MerchantMetadata { settlement_asset: USDC, vault: VAULT, active: true, fx_router: Some(FX) },
        b"merch_fx",
    );
    let fx = StubFxRouter.swap(ROUTER, XLM, 1000, USDC, 1000, 0);
    assert_eq!(s.pay(XLM, 1000, 1000, fx), Ok(1000));
}

#[test]
fn test_fx_missing_router_rejected() {
    let mut s = Setup::new();
    let other_asset = Address(11);
    assert_eq!(s.pay(other_asset, 1000, 1000, no_fx()), Err(Fault::Contract(PaymentError::FxRouterMissing)));
}

#[test]
fn test_inactive_merchant_rejected() {
    let mut s = Setup::with(
        0,
        None,
        MerchantMetadata { settlement_asset: USDC, vault: VAULT, active: false, fx_router: None },
        b"merch_dead",
    );
    assert_eq!(s.pay(USDC, 1000, 1000, no_fx()), Err(Fault::Contract(PaymentError::MerchantInactive)));
}

#[test]
fn test_pay_invalid_amounts() {
    let mut s = Setup::new();
    assert_eq!(s.pay(USDC, 0, 1000, no_fx()), Err(Fault::Contract(PaymentError::InvalidSendAmount)));
    assert_eq!(s.pay(USDC, -1, 1000, no_fx()), Err(Fault::Contract(PaymentError::InvalidSendAmount)));
    assert_eq!(s.pay(USDC, 1000, 0, no_fx()), Err(Fault::Contract(PaymentError::InvalidMinReceive)));
    assert_eq!(s.pay(USDC, 1000, -5, no_fx()), Err(Fault::Contract(PaymentError::InvalidMinReceive)));
}

#[test]
fn test_set_fee_and_get_fee_dest() {
    let mut client = PaymentRouter::new(ROUTER);
    client.initialize(&everyone(), ADMIN, REGISTRY, 0, None).unwrap();
    assert_eq!(client.get_fee_bps(), 0);
    assert_eq!(client.get_fee_dest(), None);
    client.set_fee(&everyone(), 200, Some(FEE_DEST)).unwrap();
    assert_eq!(client.get_fee_bps(), 200);
    assert_eq!(client.get_fee_dest(), Some(FEE_DEST));
}

#[test]
fn test_initialize_once() {
    let mut client = PaymentRouter::new(ROUTER);
    client.initialize(&everyone(), ADMIN, REGISTRY, 0, None).unwrap();
    let result = client.initialize(&everyone(), ADMIN, REGISTRY, 0, None);
    assert_eq!(result.unwrap_err(), Fault::Contract(PaymentError::AlreadyInitialized));
}

#[test]
fn test_initialize_invalid_fee() {
    let mut client = PaymentRouter::new(ROUTER);
    let result = client.initialize(&everyone(), ADMIN, REGISTRY, 1500, None);
    assert_eq!(result.unwrap_err(), Fault::Contract(PaymentError::InvalidFeeBps));
}

#[test]
fn test_transfer_admin() {
    let mut client = PaymentRouter::new(ROUTER);
    let new_admin = Address(12);
    client.initialize(&everyone(), ADMIN, REGISTRY, 0, None).unwrap();
    assert_eq!(client.get_admin(), Ok(ADMIN));
    let effects = client.transfer_admin(&everyone(), new_admin).unwrap();
    assert_eq!(client.get_admin(), Ok(new_admin));
    assert!(has_admin_event(&effects, AdminAction::AdminTransferred(new_admin)), "expected admin transfer event");
}

#[test]
fn test_version_starts_at_one() {
    let mut client = PaymentRouter::new(ROUTER);
    client.initialize(&everyone(), ADMIN, REGISTRY, 0, None).unwrap();
    assert_eq!(client.get_version(), 1);
}

#[test]
fn fee_split_rounds_toward_zero_and_keeps_the_total() {
    assert_eq!(split_fee(10_000, 100), (9_900, 100));
    assert_eq!(split_fee(199, 50), (199, 0));
    assert_eq!(split_fee(-10_001, 1000), (-9_001, -1000));
    assert_eq!(split_fee(12345, 0), (12345, 0));
    for gross in [1i128, 7, 999, 10_000, 123_456_789] {
        let (net, fee) = split_fee(gross, 250);
        assert_eq!(net + fee, gross);
        assert!(0 <= fee && fee <= gross / 10);
    }
}

#[test]
fn fee_payment_sends_the_fee_to_its_destination() {
    let mut s = Setup::with(
        100,
        Some(FEE_DEST),
        MerchantMetadata { settlement_asset: USDC, vault: VAULT, active: true, fx_router: None },
        b"merch_fee",
    );
    let meta = s.registry.get_merchant(&s.merchant_id).unwrap();
    let (net, effects) = s
        .client
        .pay(&everyone(), PAYER, s.merchant_id.clone(), USDC, 10_000, 1, &meta, &no_fx())
        .unwrap();
    assert_eq!(net, 9_900);
    let transfers: Vec<(Address, i128)> = effects
        .iter()
        .filter_map(|e| match e {
            RouterEffect::Transfer { to, amount, .. } => Some((*to, *amount)),
            _ => None,
        })
        .collect();
    assert_eq!(transfers, vec![(VAULT, 9_900), (FEE_DEST, 100)]);
    assert_eq!(StubVault.credit(PAYER, net), 9_900);
}

#[test]
fn settlement_below_minimum_is_refused() {
    let mut s = Setup::with(
        100,
        Some(FEE_DEST),
        MerchantMetadata { settlement_asset: USDC, vault: VAULT, active: true, fx_router: None },
        b"merch_fee",
    );
    assert_eq!(s.pay(USDC, 10_000, 9_901, no_fx()), Err(Fault::Contract(PaymentError::SettlementBelowMin)));
}

#[test]
fn fx_swap_short_of_minimum_fails() {
    let mut s = Setup::with(
        0,
        None,
        MerchantMetadata { settlement_asset: USDC, vault: VAULT, active: true, fx_router: Some(FX) },
        b"merch_fx",
    );
    let short = FxAnswers { quoted: 1000, balance_before: 50, balance_after: 900 };
    assert_eq!(s.pay(XLM, 1000, 1000, short), Err(Fault::Contract(PaymentError::FxSwapFailed)));
    let low_quote = FxAnswers { quoted: 999, balance_before: 0, balance_after: 1000 };
    assert_eq!(s.pay(XLM, 1000, 1000, low_quote), Err(Fault::Contract(PaymentError::SettlementBelowMin)));
}
