//! Plain-value stand-ins for what the contracts read from the ledger host:
//! account addresses, the invoking authorizations, and the ledger clock.

use vstd::prelude::*;
use crate::store::StoreKey;

verus! {

/// An account or contract address on the ledger, identified by a number.
#[derive(Clone, Copy, Debug, PartialEq, Eq, Structural)]
pub struct Address(pub u64);

impl View for Address {
    type V = Address;

    open spec fn view(&self) -> Address {
        *self
    }
}

impl StoreKey for Address {
    fn same_key(&self, other: &Self) -> (r: bool) {
        self.0 == other.0
    }
}

impl StoreKey for [u8; 32] {
    fn same_key(&self, other: &Self) -> (r: bool) {
        let mut i: usize = 0;
        while i < 32
            invariant
                i <= 32,
                self@.len() == 32,
                other@.len() == 32,
                forall|j: int| 0 <= j < i ==> self@[j] == other@[j],
            decreases 32 - i,
        {
            if self[i] != other[i] {
                return false;
            }
            i = i + 1;
        }
        assert(self@ =~= other@);
        true
    }
}

impl StoreKey for (Address, Address) {
    fn same_key(&self, other: &Self) -> (r: bool) {
        self.0.0 == other.0.0 && self.1.0 == other.1.0
    }
}

/// The ledger as seen by one invocation.
#[derive(Clone, Copy, Debug)]
pub struct Ledger {
    /// Sequence number of the ledger that applies the invocation.
    pub sequence: u32,
    /// Close time of that ledger, in seconds.
    pub timestamp: u64,
}

/// Why an invocation failed: a missing authorization, which the host
/// reports before the contract decides anything more, or the contract's own
/// error. A failed invocation leaves no trace in storage.
#[derive(Clone, Copy, Debug, PartialEq, Eq)]
pub enum Fault<E> {
    MissingAuth(Address),
    Contract(E),
}

/// Whether `who` authorized the invocation.
pub fn authorized(auth: &Vec<Address>, who: Address) -> (r: bool)
    ensures
        r == auth@.contains(who),
{
    let mut i: usize = 0;
    while i < auth.len()
        invariant
            i <= auth@.len(),
            forall|j: int| 0 <= j < i ==> auth@[j] != who,
        decreases auth@.len() - i,
    {
        if auth[i].0 == who.0 {
            assert(auth@[i as int] == who);
            return true;
        }
        i = i + 1;
    }
    false
}

/// The outcome of an invocation as the contracts' specifications state it:
/// the storage after a success, with what the invocation did outside its own
/// storage, or the fault.
pub open spec fn observed<S, T, E>(r: Result<Vec<T>, E>, after: S) -> Result<(S, Seq<T>), E> {
    match r {
        Ok(effects) => Ok((after, effects@)),
        Err(e) => Err(e),
    }
}

/// As `observed`, with each effect taken by its view.
pub open spec fn observed_views<S, T: View, E>(r: Result<Vec<T>, E>, after: S) -> Result<(S, Seq<T::V>), E> {
    match r {
        Ok(effects) => Ok((after, effects@.map_values(|e: T| e@))),
        Err(e) => Err(e),
    }
}

/// The storage after a success, or the fault, for an invocation that does
/// nothing outside its own storage.
pub open spec fn settled<S, E>(r: Result<(), E>, after: S) -> Result<S, E> {
    match r {
        Ok(_) => Ok(after),
        Err(e) => Err(e),
    }
}

/// A contract's reentrancy guard. The transfers an invocation asks for are
/// carried out by the ledger after the invocation returns, so nothing
/// re-enters a contract while it runs and the guard is free whenever no
/// invocation is running, which its type invariant states.
pub struct ReentrancyGuard {
    held: bool,
}

impl ReentrancyGuard {
    #[verifier::type_invariant]
    pub closed spec fn guard_free(self) -> bool {
        !self.held
    }

    /// Whether the guard is held.
    pub closed spec fn held(self) -> bool {
        self.held
    }

    /// A free guard.
    pub fn new() -> (g: Self)
        ensures
            !g.held(),
    {
        ReentrancyGuard { held: false }
    }

    /// Whether the guard is held, which it never is between invocations.
    pub fn is_held(&self) -> (r: bool)
        ensures
            r == self.held(),
            !r,
    {
        proof {
            use_type_invariant(self);
        }
        self.held
    }

    /// What the type invariant says of a guard.
    pub proof fn lemma_free(g: ReentrancyGuard)
        requires
            g.guard_free(),
        ensures
            !g.held(),
    {
    }
}

} // verus!
