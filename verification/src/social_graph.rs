//! The social graph contract: directed friendships, each stored under the
//! pair (user, friend) as active or removed.

use vstd::prelude::*;
use crate::chain::{authorized, settled, Address, Fault};
use crate::store::Store;

verus! {

#[derive(Clone, Copy, Debug, PartialEq, Eq, Structural)]
pub enum FriendshipStatus {
    Active,
    Removed,
}

/// Why a social graph invocation failed.
#[derive(Clone, Copy, Debug, PartialEq, Eq, Structural)]
pub enum GraphError {
    /// A user cannot befriend itself.
    SelfFriendship,
}

/// The stored status of each directed pair (user, friend).
pub struct GraphBook {
    pub friendships: Map<(Address, Address), FriendshipStatus>,
}

pub type GraphOutcome = Result<GraphBook, Fault<GraphError>>;

/// Whether `user` has `friend` as an active friend.
pub open spec fn befriends(s: GraphBook, user: Address, friend: Address) -> bool {
    s.friendships.contains_key((user, friend)) && s.friendships[(user, friend)] == FriendshipStatus::Active
}

/// `add_friend`: `user` marks `friend` as an active friend.
pub open spec fn spec_add_friend(s: GraphBook, auth: Seq<Address>, user: Address, friend: Address) -> GraphOutcome {
    if !auth.contains(user) {
        Err(Fault::MissingAuth(user))
    } else if user == friend {
        Err(Fault::Contract(GraphError::SelfFriendship))
    } else {
        Ok(GraphBook { friendships: s.friendships.insert((user, friend), FriendshipStatus::Active) })
    }
}

/// `remove_friend`: `user` marks `friend` as removed.
pub open spec fn spec_remove_friend(s: GraphBook, auth: Seq<Address>, user: Address, friend: Address) -> GraphOutcome {
    if !auth.contains(user) {
        Err(Fault::MissingAuth(user))
    } else {
        Ok(GraphBook { friendships: s.friendships.insert((user, friend), FriendshipStatus::Removed) })
    }
}

/// Friendship is directed and per pair: adding `friend` makes `user` its
/// friend, removing makes it not, and neither touches any other pair, the
/// reverse pair included. Nobody is ever their own friend.
pub proof fn law_friendship_per_pair(
    s: GraphBook,
    auth: Seq<Address>,
    user: Address,
    friend: Address,
    a: Address,
    b: Address,
)
    requires
        (a, b) != (user, friend),
        forall|x: Address| !befriends(s, x, x),
    ensures
        spec_add_friend(s, auth, user, friend) matches Ok(s2) ==> befriends(s2, user, friend) && befriends(s2, a, b)
            == befriends(s, a, b) && forall|x: Address| !befriends(s2, x, x),
        spec_remove_friend(s, auth, user, friend) matches Ok(s2) ==> !befriends(s2, user, friend) && befriends(
            s2,
            a,
            b,
        ) == befriends(s, a, b) && forall|x: Address| !befriends(s2, x, x),
{
    if spec_add_friend(s, auth, user, friend) is Ok {
        let s2 = spec_add_friend(s, auth, user, friend)->Ok_0;
        assert forall|x: Address| !befriends(s2, x, x) by {
            assert(!befriends(s, x, x));
        }
    }
    if spec_remove_friend(s, auth, user, friend) is Ok {
        let s2 = spec_remove_friend(s, auth, user, friend)->Ok_0;
        assert forall|x: Address| !befriends(s2, x, x) by {
            assert(!befriends(s, x, x));
        }
    }
}

/// The social graph's storage.
pub struct SocialGraphContract {
    friendships: Store<(Address, Address), FriendshipStatus>,
}

impl View for SocialGraphContract {
    type V = GraphBook;

    closed spec fn view(&self) -> GraphBook {
        GraphBook { friendships: self.friendships@ }
    }
}

impl SocialGraphContract {
    /// A freshly deployed contract with no friendships.
    pub fn new() -> (c: Self)
        ensures
            c@.friendships == Map::<(Address, Address), FriendshipStatus>::empty(),
    {
        SocialGraphContract { friendships: Store::new() }
    }

    /// `user` adds `friend`.
    pub fn add_friend(&mut self, auth: &Vec<Address>, user: Address, friend: Address) -> (r: Result<
        (),
        Fault<GraphError>,
    >)
        ensures
            settled(r, final(self)@) == spec_add_friend(old(self)@, auth@, user, friend),
            r is Err ==> final(self)@ == old(self)@,
    {
        if !authorized(auth, user) {
            return Err(Fault::MissingAuth(user));
        }
        if user == friend {
            return Err(Fault::Contract(GraphError::SelfFriendship));
        }
        self.friendships.insert((user, friend), FriendshipStatus::Active);
        Ok(())
    }

    /// `user` removes `friend`.
    pub fn remove_friend(&mut self, auth: &Vec<Address>, user: Address, friend: Address) -> (r: Result<
        (),
        Fault<GraphError>,
    >)
        ensures
            settled(r, final(self)@) == spec_remove_friend(old(self)@, auth@, user, friend),
            r is Err ==> final(self)@ == old(self)@,
    {
        if !authorized(auth, user) {
            return Err(Fault::MissingAuth(user));
        }
        self.friendships.insert((user, friend), FriendshipStatus::Removed);
        Ok(())
    }

    /// Whether `user` has `friend` as an active friend.
    pub fn is_friend(&self, user: Address, friend: Address) -> (r: bool)
        ensures
            r == befriends(self@, user, friend),
    {
        match self.friendships.get(&(user, friend)) {
            Some(st) => *st == FriendshipStatus::Active,
            None => false,
        }
    }
}

} // verus!
