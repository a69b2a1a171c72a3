use std::collections::HashMap;
use zaps::chain::{Address, Fault};
use zaps::social_payment::{SocialEffect, SocialPaymentContract, SocialPaymentError, Visibility};

const ADMIN: Address = Address(1);
const TREASURY: Address = Address(2);
const SENDER: Address = Address(3);
const RECEIVER: Address = Address(4);
const NAIRA: Address = Address(50);
const JUNK: Address = Address(51);

fn everyone() -> Vec<Address> {
    vec![ADMIN, TREASURY, SENDER, RECEIVER]
}

fn setup() -> SocialPaymentContract {
    let mut client = SocialPaymentContract::new();
    client.initialize(ADMIN, TREASURY).unwrap();
    client
}

/// Token balances, moved by the transfers that an invocation asks for.
struct Balances(HashMap<(u64, u64), i128>);

impl Balances {
    fn minted(token: Address, holder: Address, amount: i128) -> Self {
        let mut m = HashMap::new();
        m.insert((token.0, holder.0), amount);
        Balances(m)
    }
    fn mint(&mut self, token: Address, holder: Address, amount: i128) {
        *self.0.entry((token.0, holder.0)).or_insert(0) += amount;
    }
    fn balance(&self, token: Address, holder: Address) -> i128 {
        *self.0.get(&(token.0, holder.0)).unwrap_or(&0)
    }
    fn apply(&mut self, effects: &[SocialEffect]) {
        for e in effects {
            if let SocialEffect::Transfer { token, from, to, amount } = e {
                *self.0.entry((token.0, from.0)).or_insert(0) -= *amount;
                *self.0.entry((token.0, to.0)).or_insert(0) += *amount;
            }
        }
    }
}

fn pay(client: &SocialPaymentContract, token: Address, amount: i128, memo: &str, visibility: Visibility) -> Result<Vec<SocialEffect>, Fault<SocialPaymentError>> {
    client.pay(&everyone(), SENDER, RECEIVER, token, amount, memo.to_string(), visibility)
}

#[test]
fn test_social_payment_public_visibility_deducts_fee() {
    let mut client = setup();
    let mut ledger = Balances::minted(NAIRA, SENDER, 10_000);
    client.set_naira_token(&everyone(), NAIRA).unwrap();

    let effects = pay(&client, NAIRA, 1000, "Public payment", Visibility::Public).unwrap();
    ledger.apply(&effects);

    assert_eq!(ledger.balance(NAIRA, RECEIVER), 999);
    assert_eq!(ledger.balance(NAIRA, TREASURY), 1);
    assert_eq!(ledger.balance(NAIRA, SENDER), 9_000);

    let mut found = false;
    for e in &effects {
        if let SocialEffect::Paid(ev) = e {
            assert_eq!(ev.sender, SENDER);
            assert_eq!(ev.receiver, RECEIVER);
            assert_eq!(ev.amount, 1000);
            assert_eq!(ev.visibility, Visibility::Public);
            found = true;
        }
    }
    assert!(found, "SocialPaymentEvent not emitted");
}

#[test]
fn test_social_payment_private_visibility_no_fee() {
    let mut client = setup();
    let mut ledger = Balances::minted(NAIRA, SENDER, 10_000);
    client.set_naira_token(&everyone(), NAIRA).unwrap();

    let effects = pay(&client, NAIRA, 1000, "Private", Visibility::Private).unwrap();
    ledger.apply(&effects);

    assert_eq!(ledger.balance(NAIRA, RECEIVER), 1000);
    assert_eq!(ledger.balance(NAIRA, SENDER), 9_000);
}

#[test]
fn test_social_payment_friends_visibility_no_fee() {
    let mut client = setup();
    let mut ledger = Balances::minted(NAIRA, SENDER, 5_000);
    client.set_naira_token(&everyone(), NAIRA).unwrap();

    let effects = pay(&client, NAIRA, 500, "Friends", Visibility::Friends).unwrap();
    ledger.apply(&effects);

    assert_eq!(ledger.balance(NAIRA, RECEIVER), 500);
    assert_eq!(ledger.balance(NAIRA, TREASURY), 0);
    assert_eq!(ledger.balance(NAIRA, SENDER), 4_500);
}

#[test]
fn test_pay_rejects_zero_amount() {
    let mut client = setup();
    client.set_naira_token(&everyone(), NAIRA).unwrap();
    let res = pay(&client, NAIRA, 0, "bad", Visibility::Private);
    assert!(res.is_err());
    assert_eq!(res.err(), Some(Fault::Contract(SocialPaymentError::AmountNotPositive)));
}

#[test]
fn test_like_payment_emits_event() {
    let client = setup();
    let effects = client.like_payment(&everyone(), SENDER, "tx123".to_string()).unwrap();
    let mut found = false;
    for e in &effects {
        if let SocialEffect::Liked { tx_id, sender } = e {
            assert_eq!(tx_id, "tx123");
            assert_eq!(*sender, SENDER);
            found = true;
        }
    }
    assert!(found, "PaymentLiked event not emitted");
}

#[test]
fn comment_payment_accepts_valid_comment() {
    let client = setup();
    client.comment_payment(&everyone(), SENDER, "tx456".to_string(), "Nice one!".to_string()).unwrap();
}

#[test]
fn comment_payment_rejects_empty_comment() {
    let client = setup();
    let res = client.comment_payment(&everyone(), SENDER, "tx-empty".to_string(), "".to_string());
    assert!(res.is_err());
}

#[test]
fn comment_payment_rejects_whitespace_only_comment() {
    let client = setup();
    let res = client.comment_payment(&everyone(), SENDER, "tx-space".to_string(), "   \t  ".to_string());
    assert!(res.is_err());
}

#[test]
fn comment_payment_rejects_overlong_comment() {
    let client = setup();
    let long = "x".repeat(121);
    let res = client.comment_payment(&everyone(), SENDER, "tx789".to_string(), long);
    assert!(res.is_err());
    assert_eq!(res.err(), Some(Fault::Contract(SocialPaymentError::CommentTooLong)));
    let exactly = "x".repeat(120);
    assert!(client.comment_payment(&everyone(), SENDER, "tx790".to_string(), exactly).is_ok());
}

#[test]
fn test_initialize_twice_panics() {
    let mut client = setup();
    let res = client.initialize(ADMIN, TREASURY);
    assert!(res.is_err());
}

#[test]
fn test_set_naira_token_stores_primary_token() {
    let mut client = setup();
    client.set_naira_token(&everyone(), NAIRA).unwrap();
    assert_eq!(client.naira_token(), Ok(NAIRA));
}

#[test]
fn test_public_payment_rejects_non_naira_token_for_fee() {
    let mut client = setup();
    let mut ledger = Balances::minted(NAIRA, SENDER, 10_000);
    ledger.mint(JUNK, SENDER, 10_000);
    client.set_naira_token(&everyone(), NAIRA).unwrap();

    let res = pay(&client, JUNK, 1000, "Junk public payment", Visibility::Public);

    assert!(res.is_err(), "public payments must reject non-Naira token");
    assert_eq!(ledger.balance(JUNK, RECEIVER), 0);
    assert_eq!(ledger.balance(JUNK, TREASURY), 0);
    assert_eq!(ledger.balance(JUNK, SENDER), 10_000);
}

#[test]
fn test_pay_rejects_when_naira_token_not_configured() {
    let client = setup();
    let res = pay(&client, NAIRA, 100, "Missing config", Visibility::Private);
    assert!(res.is_err(), "pay must require configured Naira token");
}

#[test]
fn test_adjust_fee_coefficient() {
    let mut client = setup();
    let mut ledger = Balances::minted(NAIRA, SENDER, 10_000);
    client.set_naira_token(&everyone(), NAIRA).unwrap();

    assert_eq!(client.fee_coefficient(), 10);

    client.set_fee_coefficient(&everyone(), 50).unwrap();
    assert_eq!(client.fee_coefficient(), 50);

    let effects = pay(&client, NAIRA, 1000, "Public payment", Visibility::Public).unwrap();
    ledger.apply(&effects);

    assert_eq!(ledger.balance(NAIRA, RECEIVER), 995);
    assert_eq!(ledger.balance(NAIRA, TREASURY), 5);
    assert_eq!(ledger.balance(NAIRA, SENDER), 9_000);
}

#[test]
fn fee_coefficient_above_ten_thousand_is_refused() {
    let mut client = setup();
    let res = client.set_fee_coefficient(&everyone(), 10_001);
    assert_eq!(res, Err(Fault::Contract(SocialPaymentError::FeeCoefficientTooHigh)));
    assert_eq!(client.fee_coefficient(), 10);
    let unsigned = client.set_fee_coefficient(&vec![SENDER], 20);
    assert_eq!(unsigned, Err(Fault::MissingAuth(ADMIN)));
    client.set_treasury(&everyone(), Address(9)).unwrap();
}

#[test]
fn public_fee_rounds_down_with_a_floor_of_one() {
    let mut client = setup();
    client.set_naira_token(&everyone(), NAIRA).unwrap();
    // 10 * 10 / 10000 rounds to zero, so the fee is one unit.
    let mut ledger = Balances::minted(NAIRA, SENDER, 100);
    ledger.apply(&pay(&client, NAIRA, 10, "tiny", Visibility::Public).unwrap());
    assert_eq!(ledger.balance(NAIRA, RECEIVER), 9);
    assert_eq!(ledger.balance(NAIRA, TREASURY), 1);
    // 12345 * 10 / 10000 = 12 (rounded down).
    let mut ledger = Balances::minted(NAIRA, SENDER, 20_000);
    ledger.apply(&pay(&client, NAIRA, 12_345, "round", Visibility::Public).unwrap());
    assert_eq!(ledger.balance(NAIRA, TREASURY), 12);
    assert_eq!(ledger.balance(NAIRA, RECEIVER), 12_333);
}
