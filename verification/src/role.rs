//! Roles of authenticated users and the permissions they carry: an admin
//! may do what a merchant may, and a merchant what a user may.

use vstd::prelude::*;
use crate::text::{str_eq, to_lowercase, lowercase_of};

verus! {

#[derive(Debug, Clone, Copy, PartialEq, Eq, Structural)]
pub enum Role {
    Admin,
    Merchant,
    User,
}

pub open spec fn role_text(r: Role) -> Seq<char> {
    match r {
        Role::Admin => "admin"@,
        Role::Merchant => "merchant"@,
        Role::User => "user"@,
    }
}

/// The rank of a role: the higher, the more it may do.
pub open spec fn role_rank(r: Role) -> int {
    match r {
        Role::Admin => 2,
        Role::Merchant => 1,
        Role::User => 0,
    }
}

/// The role a lower-case name gives: `admin` and `merchant` name theirs,
/// any other name gives the least privileged role.
pub open spec fn role_of_name(name: Seq<char>) -> Role {
    if name == "admin"@ {
        Role::Admin
    } else if name == "merchant"@ {
        Role::Merchant
    } else {
        Role::User
    }
}

impl Role {
    /// The role's name as stored and carried in tokens.
    pub fn as_str(&self) -> (r: &'static str)
        ensures
            r@ == role_text(*self),
    {
        match self {
            Role::Admin => "admin",
            Role::Merchant => "merchant",
            Role::User => "user",
        }
    }

    /// The role's name, as `Display` writes it.
    pub fn to_string(&self) -> (r: String)
        ensures
            r@ == role_text(*self),
    {
        self.as_str().to_owned()
    }

    /// The role a name gives in any letter case; unknown names give `User`.
    pub fn parse(s: &str) -> (r: Role)
        ensures
            r == role_of_name(lowercase_of(s@)),
    {
        let lower = to_lowercase(s);
        Role::from_lowercase_name(lower.as_str())
    }

    /// The role a lower-case name gives: `admin` and `merchant` name theirs,
    /// any other name gives `User`.
    pub fn from_lowercase_name(name: &str) -> (r: Role)
        ensures
            r == role_of_name(name@),
    {
        if str_eq(name, "admin") {
            Role::Admin
        } else if str_eq(name, "merchant") {
            Role::Merchant
        } else {
            Role::User
        }
    }

    /// Whether this role may do what `required` may.
    pub fn has_permission(&self, required: &Role) -> (r: bool)
        ensures
            r == (role_rank(*self) >= role_rank(*required)),
    {
        match self {
            Role::Admin => true,
            Role::Merchant => match required {
                Role::Admin => false,
                _ => true,
            },
            Role::User => match required {
                Role::User => true,
                _ => false,
            },
        }
    }
}

impl Default for Role {
    fn default() -> (r: Self)
        ensures
            r == Role::User,
    {
        Role::User
    }
}

impl std::str::FromStr for Role {
    type Err = std::convert::Infallible;

    fn from_str(s: &str) -> (r: Result<Role, std::convert::Infallible>)
        ensures
            r == Ok::<Role, std::convert::Infallible>(role_of_name(lowercase_of(s@))),
    {
        Ok(Role::parse(s))
    }
}

/// Permissions are ordered: every role may do what it requires itself, an
/// admin may do anything, and a permission passes down the ranks.
pub proof fn law_permissions_ordered(a: Role, b: Role, c: Role)
    ensures
        role_rank(a) >= role_rank(a),
        role_rank(Role::Admin) >= role_rank(b),
        role_rank(a) >= role_rank(b) && role_rank(b) >= role_rank(c) ==> role_rank(a) >= role_rank(c),
        role_rank(a) >= role_rank(b) && role_rank(b) >= role_rank(a) ==> a == b,
        role_rank(a) >= role_rank(Role::User),
{
}

/// A role's name gives the role back, in any letter case that lowers to it.
pub proof fn law_role_name_round_trip(r: Role, text: Seq<char>)
    requires
        lowercase_of(text) == role_text(r),
    ensures
        role_of_name(lowercase_of(text)) == r,
{
    reveal_strlit("admin");
    reveal_strlit("merchant");
    reveal_strlit("user");
    assert("admin"@.len() == 5 && "merchant"@.len() == 8 && "user"@.len() == 4);
}

/// A user as the authentication layer hands it to the handlers.
#[derive(Debug, Clone)]
pub struct AuthenticatedUser {
    pub user_id: String,
    pub role: Role,
}

} // verus!
