//! The identity contract: maps each wallet address to a user record with a
//! username that no other address holds, a role, a profile URI and a
//! reputation score.

use vstd::prelude::*;
use crate::chain::{authorized, observed_views, Address, Fault};
use crate::store::Store;

verus! {

/// Why an identity invocation failed.
#[derive(Clone, Copy, Debug, PartialEq, Eq, Structural)]
pub enum Error {
    /// The address, or the username, is already registered.
    AlreadyRegistered,
    UserNotFound,
}

pub open spec fn identity_error_code(e: Error) -> u32 {
    match e {
        Error::AlreadyRegistered => 1,
        Error::UserNotFound => 2,
    }
}

impl Error {
    /// The error's number as the contract reports it.
    pub fn code(&self) -> (c: u32)
        ensures
            c == identity_error_code(*self),
    {
        match self {
            Error::AlreadyRegistered => 1,
            Error::UserNotFound => 2,
        }
    }
}

/// A registered user.
#[derive(Debug)]
pub struct User {
    pub address: Address,
    pub username: String,
    pub role: String,
    pub profile_uri: String,
    pub reputation_score: u32,
}

/// A user record with its texts as character sequences.
pub struct UserRecord {
    pub address: Address,
    pub username: Seq<char>,
    pub role: Seq<char>,
    pub profile_uri: Seq<char>,
    pub reputation_score: u32,
}

impl View for User {
    type V = UserRecord;

    open spec fn view(&self) -> UserRecord {
        UserRecord {
            address: self.address,
            username: self.username@,
            role: self.role@,
            profile_uri: self.profile_uri@,
            reputation_score: self.reputation_score,
        }
    }
}

impl User {
    /// A copy of the record.
    pub fn duplicate(&self) -> (c: User)
        ensures
            c@ == self@,
    {
        User {
            address: self.address,
            username: self.username.clone(),
            role: self.role.clone(),
            profile_uri: self.profile_uri.clone(),
            reputation_score: self.reputation_score,
        }
    }
}

/// What an identity invocation announces.
#[derive(Debug)]
pub enum IdentityEvent {
    Registered { address: Address, username: String },
    ProfileUpdated { address: Address },
    ReputationUpdated { address: Address, score: u32 },
}

pub enum IdentityEventView {
    Registered { address: Address, username: Seq<char> },
    ProfileUpdated { address: Address },
    ReputationUpdated { address: Address, score: u32 },
}

impl View for IdentityEvent {
    type V = IdentityEventView;

    open spec fn view(&self) -> IdentityEventView {
        match self {
            IdentityEvent::Registered { address, username } => IdentityEventView::Registered {
                address: *address,
                username: username@,
            },
            IdentityEvent::ProfileUpdated { address } => IdentityEventView::ProfileUpdated {
                address: *address,
            },
            IdentityEvent::ReputationUpdated { address, score } => IdentityEventView::ReputationUpdated {
                address: *address,
                score: *score,
            },
        }
    }
}

/// The contract's storage as a mathematical value: the user records by
/// address, and the address that holds each username.
pub struct IdentityBook {
    pub users: Map<Address, UserRecord>,
    pub usernames: Map<Seq<char>, Address>,
}

/// Every username points at a user that holds it, and every user's
/// username points back at that user.
pub open spec fn identity_wf(s: IdentityBook) -> bool {
    &&& forall|n: Seq<char>| #[trigger]
        s.usernames.contains_key(n) ==> s.users.contains_key(s.usernames[n]) && s.users[s.usernames[n]].username
            == n
    &&& forall|a: Address| #[trigger]
        s.users.contains_key(a) ==> s.users[a].address == a && s.usernames.contains_key(s.users[a].username)
            && s.usernames[s.users[a].username] == a
}

pub type IdentityOutcome = Result<(IdentityBook, Seq<IdentityEventView>), Fault<Error>>;

/// `register`: a new user record with reputation 0, under an address and a
/// username that are both still free.
pub open spec fn spec_register(
    s: IdentityBook,
    auth: Seq<Address>,
    address: Address,
    username: Seq<char>,
    role: Seq<char>,
    profile_uri: Seq<char>,
) -> IdentityOutcome {
    if !auth.contains(address) {
        Err(Fault::MissingAuth(address))
    } else if s.users.contains_key(address) || s.usernames.contains_key(username) {
        Err(Fault::Contract(Error::AlreadyRegistered))
    } else {
        Ok((
            IdentityBook {
                users: s.users.insert(
                    address,
                    UserRecord { address, username, role, profile_uri, reputation_score: 0 },
                ),
                usernames: s.usernames.insert(username, address),
            },
            seq![IdentityEventView::Registered { address, username }],
        ))
    }
}

/// `update_profile`: the user's profile URI is replaced.
pub open spec fn spec_update_profile(
    s: IdentityBook,
    auth: Seq<Address>,
    address: Address,
    profile_uri: Seq<char>,
) -> IdentityOutcome {
    if !auth.contains(address) {
        Err(Fault::MissingAuth(address))
    } else if !s.users.contains_key(address) {
        Err(Fault::Contract(Error::UserNotFound))
    } else {
        Ok((
            IdentityBook {
                users: s.users.insert(address, UserRecord { profile_uri, ..s.users[address] }),
                ..s
            },
            seq![IdentityEventView::ProfileUpdated { address }],
        ))
    }
}

/// `update_reputation`: the user's reputation score is replaced.
pub open spec fn spec_update_reputation(
    s: IdentityBook,
    auth: Seq<Address>,
    address: Address,
    score: u32,
) -> IdentityOutcome {
    if !auth.contains(address) {
        Err(Fault::MissingAuth(address))
    } else if !s.users.contains_key(address) {
        Err(Fault::Contract(Error::UserNotFound))
    } else {
        Ok((
            IdentityBook {
                users: s.users.insert(address, UserRecord { reputation_score: score, ..s.users[address] }),
                ..s
            },
            seq![IdentityEventView::ReputationUpdated { address, score }],
        ))
    }
}

/// One invocation of a state-changing entry point of the identity contract.
pub enum IdentityCall {
    Register { address: Address, username: Seq<char>, role: Seq<char>, profile_uri: Seq<char> },
    UpdateProfile { address: Address, profile_uri: Seq<char> },
    UpdateReputation { address: Address, score: u32 },
}

pub open spec fn spec_identity_step(s: IdentityBook, auth: Seq<Address>, call: IdentityCall) -> IdentityOutcome {
    match call {
        IdentityCall::Register { address, username, role, profile_uri } =>
            spec_register(s, auth, address, username, role, profile_uri),
        IdentityCall::UpdateProfile { address, profile_uri } => spec_update_profile(s, auth, address, profile_uri),
        IdentityCall::UpdateReputation { address, score } => spec_update_reputation(s, auth, address, score),
    }
}

/// Every invocation keeps usernames unique: each username belongs to one
/// registered user, each user holds exactly the username that points at it,
/// and a username once taken is never handed to another address.
pub proof fn law_usernames_unique(s: IdentityBook, auth: Seq<Address>, call: IdentityCall, name: Seq<char>)
    requires
        identity_wf(s),
    ensures
        spec_identity_step(s, auth, call) matches Ok((s2, _)) ==> {
            &&& identity_wf(s2)
            &&& s.usernames.contains_key(name) ==> s2.usernames.contains_key(name) && s2.usernames[name]
                == s.usernames[name]
            &&& forall|a: Address| #[trigger]
                s.users.contains_key(a) ==> s2.users.contains_key(a) && s2.users[a].username == s.users[a].username
        },
{
    match call {
        IdentityCall::Register { address, username, role, profile_uri } => {
            if spec_register(s, auth, address, username, role, profile_uri) is Ok {
                let s2 = spec_register(s, auth, address, username, role, profile_uri)->Ok_0.0;
                assert forall|n: Seq<char>| #[trigger] s2.usernames.contains_key(n) implies s2.users.contains_key(
                    s2.usernames[n],
                ) && s2.users[s2.usernames[n]].username == n by {
                    if n != username {
                        assert(s.usernames.contains_key(n));
                    }
                }
                assert forall|a: Address| #[trigger] s2.users.contains_key(a) implies s2.users[a].address == a
                    && s2.usernames.contains_key(s2.users[a].username) && s2.usernames[s2.users[a].username]
                    == a by {
                    if a != address {
                        assert(s.users.contains_key(a));
                    }
                }
            }
        },
        IdentityCall::UpdateProfile { address, profile_uri } => {
            if spec_update_profile(s, auth, address, profile_uri) is Ok {
                let s2 = spec_update_profile(s, auth, address, profile_uri)->Ok_0.0;
                assert forall|n: Seq<char>| #[trigger] s2.usernames.contains_key(n) implies s2.users.contains_key(
                    s2.usernames[n],
                ) && s2.users[s2.usernames[n]].username == n by {
                    assert(s.usernames.contains_key(n));
                }
            }
        },
        IdentityCall::UpdateReputation { address, score } => {
            if spec_update_reputation(s, auth, address, score) is Ok {
                let s2 = spec_update_reputation(s, auth, address, score)->Ok_0.0;
                assert forall|n: Seq<char>| #[trigger] s2.usernames.contains_key(n) implies s2.users.contains_key(
                    s2.usernames[n],
                ) && s2.users[s2.usernames[n]].username == n by {
                    assert(s.usernames.contains_key(n));
                }
            }
        },
    }
}

/// A successful registration is what the lookups then read: the record
/// under the address (with reputation 0) and the address under the
/// username. A second registration of the same address or username fails.
pub proof fn law_register_then_lookup(
    s: IdentityBook,
    auth: Seq<Address>,
    address: Address,
    username: Seq<char>,
    role: Seq<char>,
    profile_uri: Seq<char>,
    auth2: Seq<Address>,
    other: Address,
    username2: Seq<char>,
    role2: Seq<char>,
    profile_uri2: Seq<char>,
)
    ensures
        spec_register(s, auth, address, username, role, profile_uri) matches Ok((s2, _)) ==> {
            &&& s2.users.contains_key(address)
            &&& s2.users[address] == UserRecord { address, username, role, profile_uri, reputation_score: 0 }
            &&& s2.usernames.contains_key(username) && s2.usernames[username] == address
            &&& (other == address || username2 == username) && auth2.contains(other) ==> spec_register(
                s2,
                auth2,
                other,
                username2,
                role2,
                profile_uri2,
            ) == IdentityOutcome::Err(Fault::Contract(Error::AlreadyRegistered))
        },
{
}

/// An update sets, it does not accumulate: after a successful update the
/// user's reputation is exactly the new score (or the profile URI exactly the
/// new URI) whatever it was before, nothing else of the user changes, and a
/// second update gives the same as the second one alone.
pub proof fn law_updates_replace(
    s: IdentityBook,
    auth: Seq<Address>,
    address: Address,
    score: u32,
    later_score: u32,
    profile_uri: Seq<char>,
)
    ensures
        spec_update_reputation(s, auth, address, score) matches Ok((s2, _)) ==> {
            &&& s2.users.contains_key(address)
            &&& s2.users[address].reputation_score == score
            &&& s2.users[address].username == s.users[address].username
            &&& s2.users[address].role == s.users[address].role
            &&& s2.users[address].profile_uri == s.users[address].profile_uri
            &&& s2.usernames == s.usernames
            &&& (spec_update_reputation(s2, auth, address, later_score) matches Ok((s3, _))
                && spec_update_reputation(s, auth, address, later_score) matches Ok((s4, _)) && s3.users
                == s4.users && s3.users[address].reputation_score == later_score)
        },
        spec_update_profile(s, auth, address, profile_uri) matches Ok((s2, _)) ==> {
            &&& s2.users.contains_key(address)
            &&& s2.users[address].profile_uri == profile_uri
            &&& s2.users[address].reputation_score == s.users[address].reputation_score
            &&& s2.users[address].username == s.users[address].username
            &&& s2.usernames == s.usernames
        },
{
    if spec_update_reputation(s, auth, address, score) is Ok {
        let s2 = spec_update_reputation(s, auth, address, score)->Ok_0.0;
        let s3 = spec_update_reputation(s2, auth, address, later_score)->Ok_0.0;
        let s4 = spec_update_reputation(s, auth, address, later_score)->Ok_0.0;
        assert(s3.users =~= s4.users);
    }
}

/// The identity contract's storage.
pub struct UserIdentityContract {
    users: Store<Address, User>,
    usernames: Store<String, Address>,
}

impl View for UserIdentityContract {
    type V = IdentityBook;

    closed spec fn view(&self) -> IdentityBook {
        IdentityBook { users: self.users@.map_values(|u: User| u@), usernames: self.usernames@ }
    }
}

impl UserIdentityContract {
    /// A freshly deployed contract with no users.
    pub fn new() -> (c: Self)
        ensures
            c@.users == Map::<Address, UserRecord>::empty(),
            c@.usernames == Map::<Seq<char>, Address>::empty(),
    {
        let c = UserIdentityContract { users: Store::new(), usernames: Store::new() };
        assert(c@.users =~= Map::<Address, UserRecord>::empty());
        c
    }

    /// Registers a new user under `address` with `username`, `role` and
    /// `profile_uri`; the address must authorize it.
    pub fn register(
        &mut self,
        auth: &Vec<Address>,
        address: Address,
        username: String,
        role: String,
        profile_uri: String,
    ) -> (r: Result<Vec<IdentityEvent>, Fault<Error>>)
        ensures
            observed_views(r, final(self)@) == spec_register(
                old(self)@,
                auth@,
                address,
                username@,
                role@,
                profile_uri@,
            ),
            r is Err ==> final(self)@ == old(self)@,
    {
        if !authorized(auth, address) {
            return Err(Fault::MissingAuth(address));
        }
        if self.users.contains_key(&address) {
            return Err(Fault::Contract(Error::AlreadyRegistered));
        }
        if self.usernames.contains_key(&username) {
            return Err(Fault::Contract(Error::AlreadyRegistered));
        }
        let ghost before = self@;
        let user = User {
            address,
            username: username.clone(),
            role,
            profile_uri,
            reputation_score: 0,
        };
        let ghost record = user@;
        self.users.insert(address, user);
        self.usernames.insert(username.clone(), address);
        let mut events: Vec<IdentityEvent> = Vec::new();
        events.push(IdentityEvent::Registered { address, username });
        proof {
            assert(self@.users =~= before.users.insert(address, record));
            assert(events@.map_values(|e: IdentityEvent| e@) =~= seq![
                IdentityEventView::Registered { address, username: record.username },
            ]);
        }
        Ok(events)
    }

    /// Replaces the profile URI of a registered user.
    pub fn update_profile(&mut self, auth: &Vec<Address>, address: Address, profile_uri: String) -> (r: Result<
        Vec<IdentityEvent>,
        Fault<Error>,
    >)
        ensures
            observed_views(r, final(self)@) == spec_update_profile(old(self)@, auth@, address, profile_uri@),
            r is Err ==> final(self)@ == old(self)@,
    {
        if !authorized(auth, address) {
            return Err(Fault::MissingAuth(address));
        }
        let mut user = match self.users.get(&address) {
            Some(u) => u.duplicate(),
            None => {
                return Err(Fault::Contract(Error::UserNotFound));
            },
        };
        let ghost before = self@;
        user.profile_uri = profile_uri;
        let ghost record = user@;
        self.users.insert(address, user);
        let mut events: Vec<IdentityEvent> = Vec::new();
        events.push(IdentityEvent::ProfileUpdated { address });
        proof {
            assert(self@.users =~= before.users.insert(address, record));
            assert(events@.map_values(|e: IdentityEvent| e@) =~= seq![
                IdentityEventView::ProfileUpdated { address },
            ]);
        }
        Ok(events)
    }

    /// Replaces the reputation score of a registered user.
    pub fn update_reputation(&mut self, auth: &Vec<Address>, address: Address, score: u32) -> (r: Result<
        Vec<IdentityEvent>,
        Fault<Error>,
    >)
        ensures
            observed_views(r, final(self)@) == spec_update_reputation(old(self)@, auth@, address, score),
            r is Err ==> final(self)@ == old(self)@,
    {
        if !authorized(auth, address) {
            return Err(Fault::MissingAuth(address));
        }
        let mut user = match self.users.get(&address) {
            Some(u) => u.duplicate(),
            None => {
                return Err(Fault::Contract(Error::UserNotFound));
            },
        };
        let ghost before = self@;
        user.reputation_score = score;
        let ghost record = user@;
        self.users.insert(address, user);
        let mut events: Vec<IdentityEvent> = Vec::new();
        events.push(IdentityEvent::ReputationUpdated { address, score });
        proof {
            assert(self@.users =~= before.users.insert(address, record));
            assert(events@.map_values(|e: IdentityEvent| e@) =~= seq![
                IdentityEventView::ReputationUpdated { address, score },
            ]);
        }
        Ok(events)
    }

    /// The record of the user registered under `address`.
    pub fn get_user(&self, address: Address) -> (r: Result<User, Error>)
        ensures
            match r {
                Ok(u) => self@.users.contains_key(address) && u@ == self@.users[address],
                Err(e) => !self@.users.contains_key(address) && e == Error::UserNotFound,
            },
    {
        match self.users.get(&address) {
            Some(u) => Ok(u.duplicate()),
            None => Err(Error::UserNotFound),
        }
    }

    /// The address that holds `username`.
    pub fn get_address_by_username(&self, username: String) -> (r: Result<Address, Error>)
        ensures
            match r {
                Ok(a) => self@.usernames.contains_key(username@) && a == self@.usernames[username@],
                Err(e) => !self@.usernames.contains_key(username@) && e == Error::UserNotFound,
            },
    {
        match self.usernames.get(&username) {
            Some(a) => Ok(*a),
            None => Err(Error::UserNotFound),
        }
    }

    /// Whether `address` is registered.
    pub fn is_registered(&self, address: Address) -> (r: bool)
        ensures
            r == self@.users.contains_key(address),
    {
        self.users.contains_key(&address)
    }

    /// Whether `username` is held by some address.
    pub fn is_username_taken(&self, username: String) -> (r: bool)
        ensures
            r == self@.usernames.contains_key(username@),
    {
        self.usernames.contains_key(&username)
    }
}

} // verus!
