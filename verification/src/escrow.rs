//! The escrow contract: a buyer locks tokens for a seller; the funds are
//! released to the seller, refunded to the buyer, or held in a dispute until
//! both parties vote the same way.

use vstd::prelude::*;
use crate::chain::{authorized, observed, Address, Fault, Ledger, ReentrancyGuard};
use crate::store::Store;

verus! {

/// Seconds after creation from which anyone may trigger a refund.
pub const REFUND_TIMEOUT_SECS: u64 = 604800;

#[derive(Clone, Copy, Debug, PartialEq, Eq, Structural)]
pub enum EscrowState {
    Locked,
    Released,
    Refunded,
    Disputed,
}

#[derive(Clone, Copy, Debug, PartialEq, Eq, Structural)]
pub enum EscrowError {
    NotAuthorized,
    AlreadyLocked,
    NotLocked,
    AlreadyFinalized,
    InvalidAmount,
    InvalidState,
    InvalidArbitrator,
    TimeoutNotReached,
    NotDisputed,
    VoteAlreadyCast,
    /// A state-changing call is already in progress.
    Reentrant,
}

impl EscrowError {
    /// The error's number as the contract reports it.
    pub fn code(&self) -> (c: u32)
        ensures
            c == escrow_error_code(*self),
    {
        match self {
            EscrowError::NotAuthorized => 1,
            EscrowError::AlreadyLocked => 2,
            EscrowError::NotLocked => 3,
            EscrowError::AlreadyFinalized => 4,
            EscrowError::InvalidAmount => 5,
            EscrowError::InvalidState => 6,
            EscrowError::InvalidArbitrator => 7,
            EscrowError::TimeoutNotReached => 8,
            EscrowError::NotDisputed => 9,
            EscrowError::VoteAlreadyCast => 10,
            EscrowError::Reentrant => 11,
        }
    }
}

pub open spec fn escrow_error_code(e: EscrowError) -> u32 {
    match e {
        EscrowError::NotAuthorized => 1,
        EscrowError::AlreadyLocked => 2,
        EscrowError::NotLocked => 3,
        EscrowError::AlreadyFinalized => 4,
        EscrowError::InvalidAmount => 5,
        EscrowError::InvalidState => 6,
        EscrowError::InvalidArbitrator => 7,
        EscrowError::TimeoutNotReached => 8,
        EscrowError::NotDisputed => 9,
        EscrowError::VoteAlreadyCast => 10,
        EscrowError::Reentrant => 11,
    }
}

#[derive(Clone, Copy, Debug)]
pub struct Escrow {
    pub buyer: Address,
    pub seller: Address,
    pub arbitrator: Option<Address>,
    pub token: Address,
    pub amount: i128,
    pub state: EscrowState,
    pub memo: [u8; 32],
    pub created_at: u64,
    pub timeout_ledger: u32,
    pub dispute_resolver: Option<Address>,
    pub buyer_vote: Option<bool>,
    pub seller_vote: Option<bool>,
}

/// What an escrow invocation announces.
#[derive(Clone, Copy, Debug)]
pub enum EscrowEvent {
    Locked { escrow_id: [u8; 32], buyer: Address, seller: Address, amount: i128 },
    Released { escrow_id: [u8; 32], caller: Address, seller: Address, amount: i128 },
    Refunded { escrow_id: [u8; 32], caller: Address, buyer: Address, amount: i128 },
    Disputed { escrow_id: [u8; 32], caller: Address, resolver: Address },
    Vote { escrow_id: [u8; 32], caller: Address, resolve_to_seller: bool },
}

/// What an escrow invocation does outside its own storage, in order.
#[derive(Clone, Copy, Debug)]
pub enum EscrowEffect {
    /// A token transfer of `amount` from `from` to `to`.
    Transfer { token: Address, from: Address, to: Address, amount: i128 },
    Event(EscrowEvent),
}

/// The contract's storage as a mathematical value.
pub struct EscrowBook {
    /// The contract's own address.
    pub address: Address,
    pub escrows: Map<Seq<u8>, Escrow>,
    /// The reentrancy guard.
    pub guard_held: bool,
}

pub open spec fn is_settled(st: EscrowState) -> bool {
    st == EscrowState::Released || st == EscrowState::Refunded
}

pub open spec fn escrow_fault(e: EscrowError) -> Fault<EscrowError> {
    Fault::Contract(e)
}

/// `lock_funds`: a new locked escrow under `id`, paid in by the buyer.
pub open spec fn spec_lock_funds(
    s: EscrowBook,
    auth: Seq<Address>,
    ledger: Ledger,
    id: [u8; 32],
    buyer: Address,
    seller: Address,
    token: Address,
    amount: i128,
    timeout_ledger: u32,
    memo: [u8; 32],
) -> Result<(EscrowBook, Seq<EscrowEffect>), Fault<EscrowError>> {
    if s.guard_held {
        Err(escrow_fault(EscrowError::Reentrant))
    } else if !auth.contains(buyer) {
        Err(Fault::MissingAuth(buyer))
    } else if amount <= 0 {
        Err(escrow_fault(EscrowError::InvalidAmount))
    } else if s.escrows.contains_key(id@) {
        Err(escrow_fault(EscrowError::AlreadyLocked))
    } else {
        let e = Escrow {
            buyer,
            seller,
            arbitrator: None,
            token,
            amount,
            state: EscrowState::Locked,
            memo,
            created_at: ledger.timestamp,
            timeout_ledger,
            dispute_resolver: None,
            buyer_vote: None,
            seller_vote: None,
        };
        Ok((
            EscrowBook { escrows: s.escrows.insert(id@, e), ..s },
            seq![
                EscrowEffect::Transfer { token, from: buyer, to: s.address, amount },
                EscrowEffect::Event(EscrowEvent::Locked { escrow_id: id, buyer, seller, amount }),
            ],
        ))
    }
}

/// `release_funds`: the seller (or the arbitrator) pays the locked funds out
/// to the seller.
pub open spec fn spec_release_funds(
    s: EscrowBook,
    auth: Seq<Address>,
    id: [u8; 32],
    caller: Address,
) -> Result<(EscrowBook, Seq<EscrowEffect>), Fault<EscrowError>> {
    if s.guard_held {
        Err(escrow_fault(EscrowError::Reentrant))
    } else if !auth.contains(caller) {
        Err(Fault::MissingAuth(caller))
    } else if !s.escrows.contains_key(id@) {
        Err(escrow_fault(EscrowError::NotLocked))
    } else {
        let e = s.escrows[id@];
        if e.state != EscrowState::Locked {
            Err(escrow_fault(EscrowError::InvalidState))
        } else if caller != e.seller && e.arbitrator != Some(caller) {
            Err(escrow_fault(EscrowError::NotAuthorized))
        } else {
            let e2 = Escrow { state: EscrowState::Released, ..e };
            Ok((
                EscrowBook { escrows: s.escrows.insert(id@, e2), ..s },
                seq![
                    EscrowEffect::Transfer { token: e.token, from: s.address, to: e.seller, amount: e.amount },
                    EscrowEffect::Event(EscrowEvent::Released { escrow_id: id, caller, seller: e.seller, amount: e.amount }),
                ],
            ))
        }
    }
}

/// Whether the refund timeout of `e` has passed at `now`.
pub open spec fn refund_timed_out(e: Escrow, now: u64) -> bool {
    now >= e.created_at + REFUND_TIMEOUT_SECS
}

/// `refund_funds`: the buyer or the arbitrator, or anyone once the timeout
/// has passed, pays the locked funds back to the buyer.
pub open spec fn spec_refund_funds(
    s: EscrowBook,
    auth: Seq<Address>,
    ledger: Ledger,
    id: [u8; 32],
    caller: Address,
) -> Result<(EscrowBook, Seq<EscrowEffect>), Fault<EscrowError>> {
    if s.guard_held {
        Err(escrow_fault(EscrowError::Reentrant))
    } else if !auth.contains(caller) {
        Err(Fault::MissingAuth(caller))
    } else if !s.escrows.contains_key(id@) {
        Err(escrow_fault(EscrowError::NotLocked))
    } else {
        let e = s.escrows[id@];
        if e.state != EscrowState::Locked {
            Err(escrow_fault(EscrowError::InvalidState))
        } else if !(caller == e.buyer || e.arbitrator == Some(caller)) && !refund_timed_out(
            e,
            ledger.timestamp,
        ) {
            Err(escrow_fault(EscrowError::NotAuthorized))
        } else {
            let e2 = Escrow { state: EscrowState::Refunded, ..e };
            Ok((
                EscrowBook { escrows: s.escrows.insert(id@, e2), ..s },
                seq![
                    EscrowEffect::Transfer { token: e.token, from: s.address, to: e.buyer, amount: e.amount },
                    EscrowEffect::Event(EscrowEvent::Refunded { escrow_id: id, caller, buyer: e.buyer, amount: e.amount }),
                ],
            ))
        }
    }
}

/// `initiate_dispute`: the buyer or the seller moves a locked escrow into
/// dispute, recording the resolver.
pub open spec fn spec_initiate_dispute(
    s: EscrowBook,
    auth: Seq<Address>,
    id: [u8; 32],
    caller: Address,
    resolver: Address,
) -> Result<(EscrowBook, Seq<EscrowEffect>), Fault<EscrowError>> {
    if s.guard_held {
        Err(escrow_fault(EscrowError::Reentrant))
    } else if !auth.contains(caller) {
        Err(Fault::MissingAuth(caller))
    } else if !s.escrows.contains_key(id@) {
        Err(escrow_fault(EscrowError::NotLocked))
    } else {
        let e = s.escrows[id@];
        if e.state != EscrowState::Locked {
            Err(escrow_fault(EscrowError::InvalidState))
        } else if caller != e.buyer && caller != e.seller {
            Err(escrow_fault(EscrowError::NotAuthorized))
        } else {
            let e2 = Escrow {
                state: EscrowState::Disputed,
                dispute_resolver: Some(resolver),
                ..e
            };
            Ok((
                EscrowBook { escrows: s.escrows.insert(id@, e2), ..s },
                seq![EscrowEffect::Event(EscrowEvent::Disputed { escrow_id: id, caller, resolver })],
            ))
        }
    }
}

/// The escrow after `caller`'s vote has been recorded and, when both votes
/// agree, the escrow has been settled the way they agree on.
pub open spec fn escrow_after_vote(e: Escrow, caller: Address, resolve_to_seller: bool) -> Escrow {
    let voted = if caller == e.buyer {
        Escrow { buyer_vote: Some(resolve_to_seller), ..e }
    } else {
        Escrow { seller_vote: Some(resolve_to_seller), ..e }
    };
    match (voted.buyer_vote, voted.seller_vote) {
        (Some(b), Some(v)) => if b == v {
            Escrow {
                state: if resolve_to_seller {
                    EscrowState::Released
                } else {
                    EscrowState::Refunded
                },
                ..voted
            }
        } else {
            voted
        },
        _ => voted,
    }
}

/// The transfer that settles `e`, if its state calls for one.
pub open spec fn settlement_transfers(e: Escrow, contract: Address) -> Seq<EscrowEffect> {
    if e.state == EscrowState::Released {
        seq![EscrowEffect::Transfer { token: e.token, from: contract, to: e.seller, amount: e.amount }]
    } else if e.state == EscrowState::Refunded {
        seq![EscrowEffect::Transfer { token: e.token, from: contract, to: e.buyer, amount: e.amount }]
    } else {
        seq![]
    }
}

/// `vote_resolution`: the buyer or the seller votes once on a disputed
/// escrow; agreeing votes settle it.
pub open spec fn spec_vote_resolution(
    s: EscrowBook,
    auth: Seq<Address>,
    id: [u8; 32],
    caller: Address,
    resolve_to_seller: bool,
) -> Result<(EscrowBook, Seq<EscrowEffect>), Fault<EscrowError>> {
    if s.guard_held {
        Err(escrow_fault(EscrowError::Reentrant))
    } else if !auth.contains(caller) {
        Err(Fault::MissingAuth(caller))
    } else if !s.escrows.contains_key(id@) {
        Err(escrow_fault(EscrowError::NotLocked))
    } else {
        let e = s.escrows[id@];
        if e.state != EscrowState::Disputed {
            Err(escrow_fault(EscrowError::NotDisputed))
        } else if caller == e.buyer && e.buyer_vote is Some {
            Err(escrow_fault(EscrowError::VoteAlreadyCast))
        } else if caller != e.buyer && caller == e.seller && e.seller_vote is Some {
            Err(escrow_fault(EscrowError::VoteAlreadyCast))
        } else if caller != e.buyer && caller != e.seller {
            Err(escrow_fault(EscrowError::NotAuthorized))
        } else {
            let e2 = escrow_after_vote(e, caller, resolve_to_seller);
            Ok((
                EscrowBook { escrows: s.escrows.insert(id@, e2), ..s },
                settlement_transfers(e2, s.address).push(
                    EscrowEffect::Event(EscrowEvent::Vote { escrow_id: id, caller, resolve_to_seller }),
                ),
            ))
        }
    }
}


/// One invocation of a state-changing entry point of the escrow contract.
pub enum EscrowCall {
    LockFunds {
        id: [u8; 32],
        buyer: Address,
        seller: Address,
        token: Address,
        amount: i128,
        timeout_ledger: u32,
        memo: [u8; 32],
    },
    ReleaseFunds { id: [u8; 32], caller: Address },
    RefundFunds { id: [u8; 32], caller: Address },
    InitiateDispute { id: [u8; 32], caller: Address, resolver: Address },
    VoteResolution { id: [u8; 32], caller: Address, resolve_to_seller: bool },
}

/// The outcome of any state-changing invocation.
pub open spec fn spec_escrow_step(
    s: EscrowBook,
    auth: Seq<Address>,
    ledger: Ledger,
    call: EscrowCall,
) -> Result<(EscrowBook, Seq<EscrowEffect>), Fault<EscrowError>> {
    match call {
        EscrowCall::LockFunds { id, buyer, seller, token, amount, timeout_ledger, memo } =>
            spec_lock_funds(s, auth, ledger, id, buyer, seller, token, amount, timeout_ledger, memo),
        EscrowCall::ReleaseFunds { id, caller } => spec_release_funds(s, auth, id, caller),
        EscrowCall::RefundFunds { id, caller } => spec_refund_funds(s, auth, ledger, id, caller),
        EscrowCall::InitiateDispute { id, caller, resolver } =>
            spec_initiate_dispute(s, auth, id, caller, resolver),
        EscrowCall::VoteResolution { id, caller, resolve_to_seller } =>
            spec_vote_resolution(s, auth, id, caller, resolve_to_seller),
    }
}

/// The address whose authorization the invocation needs.
pub open spec fn escrow_call_signer(call: EscrowCall) -> Address {
    match call {
        EscrowCall::LockFunds { buyer, .. } => buyer,
        EscrowCall::ReleaseFunds { caller, .. } => caller,
        EscrowCall::RefundFunds { caller, .. } => caller,
        EscrowCall::InitiateDispute { caller, .. } => caller,
        EscrowCall::VoteResolution { caller, .. } => caller,
    }
}

/// The escrow id the invocation is about.
pub open spec fn escrow_call_id(call: EscrowCall) -> [u8; 32] {
    match call {
        EscrowCall::LockFunds { id, .. } => id,
        EscrowCall::ReleaseFunds { id, .. } => id,
        EscrowCall::RefundFunds { id, .. } => id,
        EscrowCall::InitiateDispute { id, .. } => id,
        EscrowCall::VoteResolution { id, .. } => id,
    }
}

/// A settled (released or refunded) escrow never changes again: no
/// invocation succeeds in altering it.
pub proof fn law_settled_escrow_is_final(
    s: EscrowBook,
    auth: Seq<Address>,
    ledger: Ledger,
    call: EscrowCall,
    key: Seq<u8>,
)
    requires
        s.escrows.contains_key(key),
        is_settled(s.escrows[key].state),
    ensures
        spec_escrow_step(s, auth, ledger, call) matches Ok((s2, _)) ==> s2.escrows.contains_key(key)
            && s2.escrows[key] == s.escrows[key],
{
}

/// A successful invocation was authorized by the party it acts for, touches
/// only the escrow it names, and leaves the reentrancy guard as it was; with
/// the guard free no invocation is refused as reentrant.
pub proof fn law_escrow_invocation_scope(
    s: EscrowBook,
    auth: Seq<Address>,
    ledger: Ledger,
    call: EscrowCall,
    other: Seq<u8>,
)
    requires
        other != escrow_call_id(call)@,
    ensures
        spec_escrow_step(s, auth, ledger, call) matches Ok((s2, _)) ==> {
            &&& auth.contains(escrow_call_signer(call))
            &&& s2.guard_held == s.guard_held
            &&& s2.address == s.address
            &&& s2.escrows.contains_key(other) == s.escrows.contains_key(other)
            &&& s.escrows.contains_key(other) ==> s2.escrows[other] == s.escrows[other]
        },
        !s.guard_held ==> spec_escrow_step(s, auth, ledger, call) != Err::<
            (EscrowBook, Seq<EscrowEffect>),
            Fault<EscrowError>,
        >(Fault::Contract(EscrowError::Reentrant)),
{
}

/// Every stored escrow holds a positive amount.
pub open spec fn escrow_book_wf(s: EscrowBook) -> bool {
    forall|k: Seq<u8>| #[trigger] s.escrows.contains_key(k) ==> s.escrows[k].amount > 0
}

/// Funds leave the contract, apart from the buyer's deposit into a new
/// escrow, only when the named escrow becomes settled, and
/// then exactly its amount of its token goes to its seller (released) or its
/// buyer (refunded); the parties, token and amount of a stored escrow never
/// change. Together with the finality of settled escrows, each escrow pays
/// out at most once.
pub proof fn law_escrow_payout(
    s: EscrowBook,
    auth: Seq<Address>,
    ledger: Ledger,
    call: EscrowCall,
    i: int,
)
    requires
        escrow_book_wf(s),
    ensures
        spec_escrow_step(s, auth, ledger, call) matches Ok((s2, effects)) ==> {
            let key = escrow_call_id(call)@;
            &&& escrow_book_wf(s2)
            &&& s2.escrows.contains_key(key)
            &&& s.escrows.contains_key(key) ==> {
                &&& s2.escrows[key].buyer == s.escrows[key].buyer
                &&& s2.escrows[key].seller == s.escrows[key].seller
                &&& s2.escrows[key].token == s.escrows[key].token
                &&& s2.escrows[key].amount == s.escrows[key].amount
            }
            &&& (!(call is LockFunds) && 0 <= i < effects.len()) ==> (effects[i] matches EscrowEffect::Transfer {
                token,
                from,
                to,
                amount,
            } ==> (from == s.address ==> {
                &&& s.escrows.contains_key(key)
                &&& !is_settled(s.escrows[key].state)
                &&& is_settled(s2.escrows[key].state)
                &&& token == s2.escrows[key].token
                &&& amount == s2.escrows[key].amount
                &&& to == if s2.escrows[key].state == EscrowState::Released {
                    s2.escrows[key].seller
                } else {
                    s2.escrows[key].buyer
                }
            }))
        },
{
}

/// The escrow contract's storage.
pub struct EscrowContract {
    address: Address,
    escrows: Store<[u8; 32], Escrow>,
    guard: ReentrancyGuard,
}

impl View for EscrowContract {
    type V = EscrowBook;

    closed spec fn view(&self) -> EscrowBook {
        EscrowBook { address: self.address, escrows: self.escrows@, guard_held: self.guard.held() }
    }
}

impl EscrowContract {
    /// The reentrancy guard is free: between invocations it always is.
    pub fn guard_is_free(&self)
        ensures
            !self@.guard_held,
    {
        proof {
            use_type_invariant(&self.guard);
            ReentrancyGuard::lemma_free(self.guard);
        }
    }

    /// A freshly deployed contract at `address`, holding no escrow.
    pub fn new(address: Address) -> (c: Self)
        ensures
            c@.address == address,
            c@.escrows == Map::<Seq<u8>, Escrow>::empty(),
            !c@.guard_held,
    {
        EscrowContract { address, escrows: Store::new(), guard: ReentrancyGuard::new() }
    }

    /// Locks `amount` of `token` from the buyer under the caller-chosen
    /// `escrow_id`; a used id is refused.
    pub fn lock_funds(
        &mut self,
        auth: &Vec<Address>,
        ledger: &Ledger,
        escrow_id: [u8; 32],
        buyer: Address,
        seller: Address,
        token: Address,
        amount: i128,
        timeout_ledger: u32,
        memo: [u8; 32],
    ) -> (r: Result<Vec<EscrowEffect>, Fault<EscrowError>>)
        ensures
            !final(self)@.guard_held,
            observed(r, final(self)@) == spec_lock_funds(
                old(self)@,
                auth@,
                *ledger,
                escrow_id,
                buyer,
                seller,
                token,
                amount,
                timeout_ledger,
                memo,
            ),
            r is Err ==> final(self)@ == old(self)@,
    {
        proof {
            use_type_invariant(&self.guard);
            ReentrancyGuard::lemma_free(self.guard);
        }
        if self.guard.is_held() {
            return Err(Fault::Contract(EscrowError::Reentrant));
        }
        if !authorized(auth, buyer) {
            return Err(Fault::MissingAuth(buyer));
        }
        if amount <= 0 {
            return Err(Fault::Contract(EscrowError::InvalidAmount));
        }
        if self.escrows.contains_key(&escrow_id) {
            return Err(Fault::Contract(EscrowError::AlreadyLocked));
        }
        let escrow = Escrow {
            buyer,
            seller,
            arbitrator: None,
            token,
            amount,
            state: EscrowState::Locked,
            memo,
            created_at: ledger.timestamp,
            timeout_ledger,
            dispute_resolver: None,
            buyer_vote: None,
            seller_vote: None,
        };
        self.escrows.insert(escrow_id, escrow);
        let mut effects: Vec<EscrowEffect> = Vec::new();
        effects.push(EscrowEffect::Transfer { token, from: buyer, to: self.address, amount });
        effects.push(
            EscrowEffect::Event(EscrowEvent::Locked { escrow_id, buyer, seller, amount }),
        );
        proof {
            assert(effects@ =~= seq![
                EscrowEffect::Transfer { token, from: buyer, to: self.address, amount },
                EscrowEffect::Event(EscrowEvent::Locked { escrow_id, buyer, seller, amount }),
            ]);
        }
        Ok(effects)
    }

    /// Pays the locked funds of `escrow_id` out to the seller; only the
    /// seller or the arbitrator may do so.
    pub fn release_funds(&mut self, auth: &Vec<Address>, escrow_id: [u8; 32], caller: Address) -> (r:
        Result<Vec<EscrowEffect>, Fault<EscrowError>>)
        ensures
            !final(self)@.guard_held,
            observed(r, final(self)@) == spec_release_funds(old(self)@, auth@, escrow_id, caller),
            r is Err ==> final(self)@ == old(self)@,
    {
        proof {
            use_type_invariant(&self.guard);
            ReentrancyGuard::lemma_free(self.guard);
        }
        if self.guard.is_held() {
            return Err(Fault::Contract(EscrowError::Reentrant));
        }
        if !authorized(auth, caller) {
            return Err(Fault::MissingAuth(caller));
        }
        let e: Escrow = match self.escrows.get(&escrow_id) {
            Some(e) => *e,
            None => {
                return Err(Fault::Contract(EscrowError::NotLocked));
            },
        };
        if e.state != EscrowState::Locked {
            return Err(Fault::Contract(EscrowError::InvalidState));
        }
        if caller != e.seller {
            match e.arbitrator {
                Some(arb) => {
                    if caller != arb {
                        return Err(Fault::Contract(EscrowError::NotAuthorized));
                    }
                },
                None => {
                    return Err(Fault::Contract(EscrowError::NotAuthorized));
                },
            }
        }
        let mut updated = e;
        updated.state = EscrowState::Released;
        self.escrows.insert(escrow_id, updated);
        let mut effects: Vec<EscrowEffect> = Vec::new();
        effects.push(
            EscrowEffect::Transfer { token: e.token, from: self.address, to: e.seller, amount: e.amount },
        );
        effects.push(
            EscrowEffect::Event(
                EscrowEvent::Released { escrow_id, caller, seller: e.seller, amount: e.amount },
            ),
        );
        proof {
            assert(effects@ =~= seq![
                EscrowEffect::Transfer { token: e.token, from: self.address, to: e.seller, amount: e.amount },
                EscrowEffect::Event(EscrowEvent::Released { escrow_id, caller, seller: e.seller, amount: e.amount }),
            ]);
        }
        Ok(effects)
    }

    /// Pays the locked funds of `escrow_id` back to the buyer: the buyer or
    /// the arbitrator may do so at any time, anyone once the refund timeout
    /// has passed.
    pub fn refund_funds(
        &mut self,
        auth: &Vec<Address>,
        ledger: &Ledger,
        escrow_id: [u8; 32],
        caller: Address,
    ) -> (r: Result<Vec<EscrowEffect>, Fault<EscrowError>>)
        requires
            old(self)@.escrows.contains_key(escrow_id@) ==> old(self)@.escrows[escrow_id@].created_at
                + REFUND_TIMEOUT_SECS <= u64::MAX,
        ensures
            !final(self)@.guard_held,
            observed(r, final(self)@) == spec_refund_funds(
                old(self)@,
                auth@,
                *ledger,
                escrow_id,
                caller,
            ),
            r is Err ==> final(self)@ == old(self)@,
    {
        proof {
            use_type_invariant(&self.guard);
            ReentrancyGuard::lemma_free(self.guard);
        }
        if self.guard.is_held() {
            return Err(Fault::Contract(EscrowError::Reentrant));
        }
        if !authorized(auth, caller) {
            return Err(Fault::MissingAuth(caller));
        }
        let e: Escrow = match self.escrows.get(&escrow_id) {
            Some(e) => *e,
            None => {
                return Err(Fault::Contract(EscrowError::NotLocked));
            },
        };
        if e.state != EscrowState::Locked {
            return Err(Fault::Contract(EscrowError::InvalidState));
        }
        let is_timeout = ledger.timestamp >= e.created_at + REFUND_TIMEOUT_SECS;
        let is_party = caller == e.buyer || match e.arbitrator {
            Some(a) => a == caller,
            None => false,
        };
        if !is_party && !is_timeout {
            return Err(Fault::Contract(EscrowError::NotAuthorized));
        }
        let mut updated = e;
        updated.state = EscrowState::Refunded;
        self.escrows.insert(escrow_id, updated);
        let mut effects: Vec<EscrowEffect> = Vec::new();
        effects.push(
            EscrowEffect::Transfer { token: e.token, from: self.address, to: e.buyer, amount: e.amount },
        );
        effects.push(
            EscrowEffect::Event(
                EscrowEvent::Refunded { escrow_id, caller, buyer: e.buyer, amount: e.amount },
            ),
        );
        proof {
            assert(effects@ =~= seq![
                EscrowEffect::Transfer { token: e.token, from: self.address, to: e.buyer, amount: e.amount },
                EscrowEffect::Event(EscrowEvent::Refunded { escrow_id, caller, buyer: e.buyer, amount: e.amount }),
            ]);
        }
        Ok(effects)
    }

    /// Moves a locked escrow into dispute; only its buyer or seller may.
    pub fn initiate_dispute(
        &mut self,
        auth: &Vec<Address>,
        escrow_id: [u8; 32],
        caller: Address,
        resolver: Address,
    ) -> (r: Result<Vec<EscrowEffect>, Fault<EscrowError>>)
        ensures
            !final(self)@.guard_held,
            observed(r, final(self)@) == spec_initiate_dispute(
                old(self)@,
                auth@,
                escrow_id,
                caller,
                resolver,
            ),
            r is Err ==> final(self)@ == old(self)@,
    {
        proof {
            use_type_invariant(&self.guard);
            ReentrancyGuard::lemma_free(self.guard);
        }
        if self.guard.is_held() {
            return Err(Fault::Contract(EscrowError::Reentrant));
        }
        if !authorized(auth, caller) {
            return Err(Fault::MissingAuth(caller));
        }
        let e: Escrow = match self.escrows.get(&escrow_id) {
            Some(e) => *e,
            None => {
                return Err(Fault::Contract(EscrowError::NotLocked));
            },
        };
        if e.state != EscrowState::Locked {
            return Err(Fault::Contract(EscrowError::InvalidState));
        }
        if caller != e.buyer && caller != e.seller {
            return Err(Fault::Contract(EscrowError::NotAuthorized));
        }
        let mut updated = e;
        updated.state = EscrowState::Disputed;
        updated.dispute_resolver = Some(resolver);
        self.escrows.insert(escrow_id, updated);
        let mut effects: Vec<EscrowEffect> = Vec::new();
        effects.push(EscrowEffect::Event(EscrowEvent::Disputed { escrow_id, caller, resolver }));
        Ok(effects)
    }

    /// Records the buyer's or the seller's vote on a disputed escrow; when
    /// both have voted alike the escrow is settled that way.
    pub fn vote_resolution(
        &mut self,
        auth: &Vec<Address>,
        escrow_id: [u8; 32],
        caller: Address,
        resolve_to_seller: bool,
    ) -> (r: Result<Vec<EscrowEffect>, Fault<EscrowError>>)
        ensures
            !final(self)@.guard_held,
            observed(r, final(self)@) == spec_vote_resolution(
                old(self)@,
                auth@,
                escrow_id,
                caller,
                resolve_to_seller,
            ),
            r is Err ==> final(self)@ == old(self)@,
    {
        proof {
            use_type_invariant(&self.guard);
            ReentrancyGuard::lemma_free(self.guard);
        }
        if self.guard.is_held() {
            return Err(Fault::Contract(EscrowError::Reentrant));
        }
        if !authorized(auth, caller) {
            return Err(Fault::MissingAuth(caller));
        }
        let e: Escrow = match self.escrows.get(&escrow_id) {
            Some(e) => *e,
            None => {
                return Err(Fault::Contract(EscrowError::NotLocked));
            },
        };
        if e.state != EscrowState::Disputed {
            return Err(Fault::Contract(EscrowError::NotDisputed));
        }
        let mut updated = e;
        if caller == e.buyer {
            if e.buyer_vote.is_some() {
                return Err(Fault::Contract(EscrowError::VoteAlreadyCast));
            }
            updated.buyer_vote = Some(resolve_to_seller);
        } else if caller == e.seller {
            if e.seller_vote.is_some() {
                return Err(Fault::Contract(EscrowError::VoteAlreadyCast));
            }
            updated.seller_vote = Some(resolve_to_seller);
        } else {
            return Err(Fault::Contract(EscrowError::NotAuthorized));
        }
        match (updated.buyer_vote, updated.seller_vote) {
            (Some(b), Some(v)) => {
                if b == v {
                    if resolve_to_seller {
                        updated.state = EscrowState::Released;
                    } else {
                        updated.state = EscrowState::Refunded;
                    }
                }
            },
            _ => {},
        }
        self.escrows.insert(escrow_id, updated);
        let mut effects: Vec<EscrowEffect> = Vec::new();
        if updated.state == EscrowState::Released {
            effects.push(
                EscrowEffect::Transfer {
                    token: updated.token,
                    from: self.address,
                    to: updated.seller,
                    amount: updated.amount,
                },
            );
        } else if updated.state == EscrowState::Refunded {
            effects.push(
                EscrowEffect::Transfer {
                    token: updated.token,
                    from: self.address,
                    to: updated.buyer,
                    amount: updated.amount,
                },
            );
        }
        effects.push(EscrowEffect::Event(EscrowEvent::Vote { escrow_id, caller, resolve_to_seller }));
        proof {
            assert(effects@ =~= settlement_transfers(updated, self.address).push(
                EscrowEffect::Event(EscrowEvent::Vote { escrow_id, caller, resolve_to_seller }),
            ));
        }
        Ok(effects)
    }

    /// The escrow stored under `escrow_id`.
    pub fn get_escrow(&self, escrow_id: [u8; 32]) -> (r: Result<Escrow, EscrowError>)
        ensures
            match r {
                Ok(e) => self@.escrows.contains_key(escrow_id@) && e == self@.escrows[escrow_id@],
                Err(err) => !self@.escrows.contains_key(escrow_id@) && err == EscrowError::NotLocked,
            },
    {
        match self.escrows.get(&escrow_id) {
            Some(e) => Ok(*e),
            None => Err(EscrowError::NotLocked),
        }
    }

    /// Whether an escrow is stored under `escrow_id` and still locked.
    pub fn is_locked(&self, escrow_id: [u8; 32]) -> (r: bool)
        ensures
            r == (self@.escrows.contains_key(escrow_id@) && self@.escrows[escrow_id@].state
                == EscrowState::Locked),
    {
        match self.escrows.get(&escrow_id) {
            Some(e) => e.state == EscrowState::Locked,
            None => false,
        }
    }

    /// The state of the escrow stored under `escrow_id`.
    pub fn get_state(&self, escrow_id: [u8; 32]) -> (r: Result<EscrowState, EscrowError>)
        ensures
            match r {
                Ok(st) => self@.escrows.contains_key(escrow_id@) && st
                    == self@.escrows[escrow_id@].state,
                Err(err) => !self@.escrows.contains_key(escrow_id@) && err == EscrowError::NotLocked,
            },
    {
        match self.escrows.get(&escrow_id) {
            Some(e) => Ok(e.state),
            None => Err(EscrowError::NotLocked),
        }
    }
}

} // verus!
