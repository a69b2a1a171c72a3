//! The Allbridge receiver contract: an admin, a bridge-critical token that
//! must stay in the contract, and the sweep of any other token the contract
//! holds to a treasury. Receiving deposits is not implemented yet.

use vstd::prelude::*;
use crate::chain::{authorized, observed, settled, Address, Fault};

verus! {

/// Why a receiver invocation failed.
#[derive(Clone, Copy, Debug, PartialEq, Eq, Structural)]
pub enum ReceiverError {
    AlreadyInitialized,
    NotInitialized,
    OnlyAdmin,
    /// The bridge-critical token may not be swept.
    BridgeTokenProtected,
    NoBalance,
    /// The entry point is a stub that always fails.
    Unimplemented,
}

/// What a receiver invocation does outside its own storage, in order.
#[derive(Clone, Copy, Debug)]
pub enum ReceiverEffect {
    Transfer { token: Address, from: Address, to: Address, amount: i128 },
    Salvaged { token: Address, treasury: Address, amount: i128 },
}

/// The receiver's storage as a mathematical value.
#[derive(Clone, Copy, Debug)]
pub struct ReceiverBook {
    /// The contract's own address.
    pub address: Address,
    pub admin: Option<Address>,
    pub bridge_token: Option<Address>,
}

pub open spec fn receiver_fault(e: ReceiverError) -> Fault<ReceiverError> {
    Fault::Contract(e)
}

pub open spec fn spec_receiver_initialize(s: ReceiverBook, admin: Address, bridge_token: Address) -> Result<
    ReceiverBook,
    Fault<ReceiverError>,
> {
    if s.admin is Some {
        Err(receiver_fault(ReceiverError::AlreadyInitialized))
    } else {
        Ok(ReceiverBook { admin: Some(admin), bridge_token: Some(bridge_token), ..s })
    }
}

/// `salvage_token`: the admin sweeps the contract's whole `balance` of
/// `rescue_token`, as the token reports it, to `treasury`.
pub open spec fn spec_salvage_token(
    s: ReceiverBook,
    auth: Seq<Address>,
    caller: Address,
    rescue_token: Address,
    treasury: Address,
    balance: i128,
) -> Result<(ReceiverBook, Seq<ReceiverEffect>), Fault<ReceiverError>> {
    if !auth.contains(caller) {
        Err(Fault::MissingAuth(caller))
    } else if s.admin is None {
        Err(receiver_fault(ReceiverError::NotInitialized))
    } else if caller != s.admin->0 {
        Err(receiver_fault(ReceiverError::OnlyAdmin))
    } else if s.bridge_token is None {
        Err(receiver_fault(ReceiverError::NotInitialized))
    } else if rescue_token == s.bridge_token->0 {
        Err(receiver_fault(ReceiverError::BridgeTokenProtected))
    } else if balance <= 0 {
        Err(receiver_fault(ReceiverError::NoBalance))
    } else {
        Ok((
            s,
            seq![
                ReceiverEffect::Transfer { token: rescue_token, from: s.address, to: treasury, amount: balance },
                ReceiverEffect::Salvaged { token: rescue_token, treasury, amount: balance },
            ],
        ))
    }
}

/// The bridge-critical token never leaves through a sweep, only the admin
/// sweeps, and a sweep moves the contract's whole reported balance of the
/// token to the treasury and nothing else.
pub proof fn law_salvage_guards_bridge_token(
    s: ReceiverBook,
    auth: Seq<Address>,
    caller: Address,
    rescue_token: Address,
    treasury: Address,
    balance: i128,
)
    ensures
        spec_salvage_token(s, auth, caller, rescue_token, treasury, balance) matches Ok((s2, effects)) ==> {
            &&& s2 == s
            &&& s.bridge_token is Some && rescue_token != s.bridge_token->0
            &&& s.admin == Some(caller) && auth.contains(caller)
            &&& balance > 0
            &&& effects.len() == 2
            &&& effects[0] == ReceiverEffect::Transfer { token: rescue_token, from: s.address, to: treasury, amount: balance }
        },
        s.bridge_token == Some(rescue_token) ==> spec_salvage_token(s, auth, caller, rescue_token, treasury, balance)
            is Err,
{
}

/// The Allbridge receiver's storage.
pub struct AllbridgeReceiverContract {
    address: Address,
    admin: Option<Address>,
    bridge_token: Option<Address>,
}

impl View for AllbridgeReceiverContract {
    type V = ReceiverBook;

    closed spec fn view(&self) -> ReceiverBook {
        ReceiverBook { address: self.address, admin: self.admin, bridge_token: self.bridge_token }
    }
}

impl AllbridgeReceiverContract {
    /// A freshly deployed, uninitialized receiver at `address`.
    pub fn new(address: Address) -> (c: Self)
        ensures
            c@.address == address,
            c@.admin is None,
            c@.bridge_token is None,
    {
        AllbridgeReceiverContract { address, admin: None, bridge_token: None }
    }

    /// Sets the admin and the bridge-critical token; only once.
    pub fn initialize(&mut self, admin: Address, bridge_token: Address) -> (r: Result<(), Fault<ReceiverError>>)
        ensures
            settled(r, final(self)@) == spec_receiver_initialize(old(self)@, admin, bridge_token),
            r is Err ==> final(self)@ == old(self)@,
    {
        if self.admin.is_some() {
            return Err(Fault::Contract(ReceiverError::AlreadyInitialized));
        }
        self.admin = Some(admin);
        self.bridge_token = Some(bridge_token);
        Ok(())
    }

    /// Receives a bridged deposit: authorized by the bridge authority, and
    /// not implemented yet, so it always fails after that check.
    pub fn receive_deposit(
        &self,
        auth: &Vec<Address>,
        bridge_authority: Address,
        recipient: Address,
        token: Address,
        amount: i128,
        source_chain_id: u32,
        source_tx_hash: [u8; 32],
    ) -> (r: Result<Vec<ReceiverEffect>, Fault<ReceiverError>>)
        ensures
            r == if auth@.contains(bridge_authority) {
                Err::<Vec<ReceiverEffect>, Fault<ReceiverError>>(Fault::Contract(ReceiverError::Unimplemented))
            } else {
                Err(Fault::MissingAuth(bridge_authority))
            },
    {
        if !authorized(auth, bridge_authority) {
            return Err(Fault::MissingAuth(bridge_authority));
        }
        Err(Fault::Contract(ReceiverError::Unimplemented))
    }

    /// Whether a source transaction was processed: not implemented yet, so
    /// it always fails.
    pub fn is_tx_processed(&self, source_tx_hash: [u8; 32]) -> (r: Result<bool, ReceiverError>)
        ensures
            r == Err::<bool, ReceiverError>(ReceiverError::Unimplemented),
    {
        Err(ReceiverError::Unimplemented)
    }

    /// The admin sweeps the contract's whole `balance` of `rescue_token`, as
    /// the token reports it, to `treasury`.
    pub fn salvage_token(
        &self,
        auth: &Vec<Address>,
        caller: Address,
        rescue_token: Address,
        treasury: Address,
        balance: i128,
    ) -> (r: Result<Vec<ReceiverEffect>, Fault<ReceiverError>>)
        ensures
            observed(r, self@) == spec_salvage_token(self@, auth@, caller, rescue_token, treasury, balance),
    {
        if !authorized(auth, caller) {
            return Err(Fault::MissingAuth(caller));
        }
        let admin = match self.admin {
            Some(a) => a,
            None => {
                return Err(Fault::Contract(ReceiverError::NotInitialized));
            },
        };
        if caller != admin {
            return Err(Fault::Contract(ReceiverError::OnlyAdmin));
        }
        let bridge_token = match self.bridge_token {
            Some(t) => t,
            None => {
                return Err(Fault::Contract(ReceiverError::NotInitialized));
            },
        };
        if rescue_token == bridge_token {
            return Err(Fault::Contract(ReceiverError::BridgeTokenProtected));
        }
        if balance <= 0 {
            return Err(Fault::Contract(ReceiverError::NoBalance));
        }
        let mut effects: Vec<ReceiverEffect> = Vec::new();
        effects.push(
            ReceiverEffect::Transfer { token: rescue_token, from: self.address, to: treasury, amount: balance },
        );
        effects.push(ReceiverEffect::Salvaged { token: rescue_token, treasury, amount: balance });
        proof {
            assert(effects@ =~= seq![
                ReceiverEffect::Transfer { token: rescue_token, from: self.address, to: treasury, amount: balance },
                ReceiverEffect::Salvaged { token: rescue_token, treasury, amount: balance },
            ]);
        }
        Ok(effects)
    }
}

} // verus!
