use zaps::allbridge::{AllbridgeReceiverContract, ReceiverEffect, ReceiverError};
use zaps::chain::{Address, Fault};

const CONTRACT: Address = Address(1);
const ADMIN: Address = Address(2);
const BRIDGE_TOKEN: Address = Address(3);
const TREASURY: Address = Address(4);
const STRAY: Address = Address(5);

fn setup() -> AllbridgeReceiverContract {
    let mut client = AllbridgeReceiverContract::new(CONTRACT);
    client.initialize(ADMIN, BRIDGE_TOKEN).unwrap();
    client
}

fn everyone() -> Vec<Address> {
    vec![ADMIN, TREASURY]
}

#[test]
fn test_salvage_random_token_succeeds() {
    let client = setup();
    // The contract holds 5_000 of the stray token.
    let mut contract_balance: i128 = 5_000;
    let mut treasury_balance: i128 = 0;

    let effects = client.salvage_token(&everyone(), ADMIN, STRAY, TREASURY, contract_balance).unwrap();
    let mut found = false;
    for e in &effects {
        match e {
            ReceiverEffect::Transfer { token, from, to, amount } => {
                assert_eq!(*token, STRAY);
                assert_eq!(*from, CONTRACT);
                assert_eq!(*to, TREASURY);
                contract_balance -= *amount;
                treasury_balance += *amount;
            }
            ReceiverEffect::Salvaged { .. } => found = true,
        }
    }
    assert_eq!(treasury_balance, 5_000);
    assert_eq!(contract_balance, 0);
    assert!(found, "TokenSalvaged event not emitted");
}

#[test]
fn test_salvage_bridge_token_rejected() {
    let client = setup();
    let result = client.salvage_token(&everyone(), ADMIN, BRIDGE_TOKEN, TREASURY, 1_000);
    assert_eq!(result.err(), Some(Fault::Contract(ReceiverError::BridgeTokenProtected)));
}

#[test]
fn test_salvage_zero_balance_rejected() {
    let client = setup();
    let result = client.salvage_token(&everyone(), ADMIN, STRAY, TREASURY, 0);
    assert_eq!(result.err(), Some(Fault::Contract(ReceiverError::NoBalance)));
}

#[test]
fn test_salvage_non_admin_rejected() {
    let client = setup();
    let result = client.salvage_token(&everyone(), TREASURY, STRAY, TREASURY, 1_000);
    assert_eq!(result.err(), Some(Fault::Contract(ReceiverError::OnlyAdmin)));
}

#[test]
fn test_initialize_twice_rejected() {
    let mut client = setup();
    let result = client.initialize(ADMIN, BRIDGE_TOKEN);
    assert_eq!(result, Err(Fault::Contract(ReceiverError::AlreadyInitialized)));
}

#[test]
fn deposits_and_processed_lookups_are_not_implemented() {
    let client = setup();
    let unsigned = client.receive_deposit(&vec![], ADMIN, TREASURY, STRAY, 10, 1, [7u8; 32]);
    assert_eq!(unsigned.err(), Some(Fault::MissingAuth(ADMIN)));
    let signed = client.receive_deposit(&everyone(), ADMIN, TREASURY, STRAY, 10, 1, [7u8; 32]);
    assert_eq!(signed.err(), Some(Fault::Contract(ReceiverError::Unimplemented)));
    assert_eq!(client.is_tx_processed([7u8; 32]), Err(ReceiverError::Unimplemented));
}
