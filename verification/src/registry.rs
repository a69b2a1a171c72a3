//! The user registry contract: a username claimed by an address, looked up
//! in both directions, and an avatar URI per address.

use vstd::prelude::*;
use crate::chain::{authorized, settled, Address, Fault};
use crate::store::Store;

verus! {

/// Why a registry invocation failed.
#[derive(Clone, Copy, Debug, PartialEq, Eq, Structural)]
pub enum RegistryError {
    UsernameTaken,
    UsernameNotFound,
    AddressNotRegistered,
}

/// The registry's storage as a mathematical value.
pub struct RegistryBook {
    /// The username each address registered last.
    pub username_of: Map<Address, Seq<char>>,
    /// The address that claimed each username.
    pub address_of: Map<Seq<char>, Address>,
    pub avatars: Map<Address, Seq<char>>,
}

pub type RegistryOutcome = Result<RegistryBook, Fault<RegistryError>>;

/// `register_user`: `user` claims `username`, which no address may have
/// claimed before.
pub open spec fn spec_register_user(
    s: RegistryBook,
    auth: Seq<Address>,
    user: Address,
    username: Seq<char>,
) -> RegistryOutcome {
    if !auth.contains(user) {
        Err(Fault::MissingAuth(user))
    } else if s.address_of.contains_key(username) {
        Err(Fault::Contract(RegistryError::UsernameTaken))
    } else {
        Ok(
            RegistryBook {
                username_of: s.username_of.insert(user, username),
                address_of: s.address_of.insert(username, user),
                ..s
            },
        )
    }
}

/// `update_profile`: `user` sets its avatar URI.
pub open spec fn spec_registry_update_profile(
    s: RegistryBook,
    auth: Seq<Address>,
    user: Address,
    avatar_uri: Seq<char>,
) -> RegistryOutcome {
    if !auth.contains(user) {
        Err(Fault::MissingAuth(user))
    } else {
        Ok(RegistryBook { avatars: s.avatars.insert(user, avatar_uri), ..s })
    }
}

/// The avatar URI of `user`, empty when none was set.
pub open spec fn avatar_of(s: RegistryBook, user: Address) -> Seq<char> {
    if s.avatars.contains_key(user) {
        s.avatars[user]
    } else {
        Seq::empty()
    }
}

/// One invocation of a state-changing entry point of the registry.
pub enum RegistryCall {
    RegisterUser { user: Address, username: Seq<char> },
    UpdateProfile { user: Address, avatar_uri: Seq<char> },
}

pub open spec fn spec_registry_step(s: RegistryBook, auth: Seq<Address>, call: RegistryCall) -> RegistryOutcome {
    match call {
        RegistryCall::RegisterUser { user, username } => spec_register_user(s, auth, user, username),
        RegistryCall::UpdateProfile { user, avatar_uri } => spec_registry_update_profile(s, auth, user, avatar_uri),
    }
}

/// A claimed username stays with the address that claimed it: no later
/// invocation moves it, and claiming it again fails.
pub proof fn law_username_claimed_once(s: RegistryBook, auth: Seq<Address>, call: RegistryCall, name: Seq<char>)
    requires
        s.address_of.contains_key(name),
    ensures
        spec_registry_step(s, auth, call) matches Ok(s2) ==> s2.address_of.contains_key(name)
            && s2.address_of[name] == s.address_of[name],
        call matches RegistryCall::RegisterUser { user, username } ==> (username == name && auth.contains(user)
            ==> spec_registry_step(s, auth, call) == RegistryOutcome::Err(
            Fault::Contract(RegistryError::UsernameTaken),
        )),
{
}

/// What a registration or a profile update writes is what the lookups then
/// read.
pub proof fn law_registry_read_back(s: RegistryBook, auth: Seq<Address>, user: Address, text: Seq<char>)
    ensures
        spec_register_user(s, auth, user, text) matches Ok(s2) ==> s2.address_of[text] == user
            && s2.username_of[user] == text && s2.address_of.contains_key(text) && s2.username_of.contains_key(
            user,
        ),
        spec_registry_update_profile(s, auth, user, text) matches Ok(s2) ==> avatar_of(s2, user) == text,
{
}

/// The registry's storage.
pub struct UserRegistryContract {
    username_of: Store<Address, String>,
    address_of: Store<String, Address>,
    avatars: Store<Address, String>,
}

impl View for UserRegistryContract {
    type V = RegistryBook;

    closed spec fn view(&self) -> RegistryBook {
        RegistryBook {
            username_of: self.username_of@.map_values(|n: String| n@),
            address_of: self.address_of@,
            avatars: self.avatars@.map_values(|n: String| n@),
        }
    }
}

impl UserRegistryContract {
    /// A freshly deployed registry with no users.
    pub fn new() -> (c: Self)
        ensures
            c@.username_of == Map::<Address, Seq<char>>::empty(),
            c@.address_of == Map::<Seq<char>, Address>::empty(),
            c@.avatars == Map::<Address, Seq<char>>::empty(),
    {
        let c = UserRegistryContract { username_of: Store::new(), address_of: Store::new(), avatars: Store::new() };
        assert(c@.username_of =~= Map::<Address, Seq<char>>::empty());
        assert(c@.avatars =~= Map::<Address, Seq<char>>::empty());
        c
    }

    /// `user` claims `username`.
    pub fn register_user(&mut self, auth: &Vec<Address>, user: Address, username: String) -> (r: Result<
        (),
        Fault<RegistryError>,
    >)
        ensures
            settled(r, final(self)@) == spec_register_user(old(self)@, auth@, user, username@),
            r is Err ==> final(self)@ == old(self)@,
    {
        if !authorized(auth, user) {
            return Err(Fault::MissingAuth(user));
        }
        if self.address_of.contains_key(&username) {
            return Err(Fault::Contract(RegistryError::UsernameTaken));
        }
        let ghost before = self@;
        let ghost name = username@;
        self.username_of.insert(user, username.clone());
        self.address_of.insert(username, user);
        proof {
            assert(self@.username_of =~= before.username_of.insert(user, name));
        }
        Ok(())
    }

    /// The address that claimed `username`.
    pub fn get_address(&self, username: String) -> (r: Result<Address, RegistryError>)
        ensures
            match r {
                Ok(a) => self@.address_of.contains_key(username@) && a == self@.address_of[username@],
                Err(e) => !self@.address_of.contains_key(username@) && e == RegistryError::UsernameNotFound,
            },
    {
        match self.address_of.get(&username) {
            Some(a) => Ok(*a),
            None => Err(RegistryError::UsernameNotFound),
        }
    }

    /// The username `user` registered last.
    pub fn get_username(&self, user: Address) -> (r: Result<String, RegistryError>)
        ensures
            match r {
                Ok(n) => self@.username_of.contains_key(user) && n@ == self@.username_of[user],
                Err(e) => !self@.username_of.contains_key(user) && e == RegistryError::AddressNotRegistered,
            },
    {
        match self.username_of.get(&user) {
            Some(n) => Ok(n.clone()),
            None => Err(RegistryError::AddressNotRegistered),
        }
    }

    /// `user` sets its avatar URI.
    pub fn update_profile(&mut self, auth: &Vec<Address>, user: Address, avatar_uri: String) -> (r: Result<
        (),
        Fault<RegistryError>,
    >)
        ensures
            settled(r, final(self)@) == spec_registry_update_profile(old(self)@, auth@, user, avatar_uri@),
            r is Err ==> final(self)@ == old(self)@,
    {
        if !authorized(auth, user) {
            return Err(Fault::MissingAuth(user));
        }
        let ghost before = self@;
        let ghost uri = avatar_uri@;
        self.avatars.insert(user, avatar_uri);
        proof {
            assert(self@.avatars =~= before.avatars.insert(user, uri));
        }
        Ok(())
    }

    /// The avatar URI of `user`, empty when none was set.
    pub fn get_avatar(&self, user: Address) -> (r: String)
        ensures
            r@ == avatar_of(self@, user),
    {
        match self.avatars.get(&user) {
            Some(a) => a.clone(),
            None => {
                let e = String::new();
                proof {
                    assert(e@ =~= Seq::<char>::empty());
                }
                e
            },
        }
    }
}

} // verus!
