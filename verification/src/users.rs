//! Users and their roles, as far as the indexing subsystem and its
//! surrounding request handlers see them.

use vstd::prelude::*;

verus! {

/// A user's public id.
#[derive(Debug, Copy, Clone, PartialEq, Eq, Structural)]
pub struct UserId(pub u64);

/// A user's role, deciding moderation powers in request handlers.
#[derive(Clone, Copy, Debug, PartialEq, Eq, Structural)]
pub enum Role {
    Developer,
    Moderator,
    Admin,
}

impl Role {
    pub open spec fn spec_from_string(s: Seq<char>) -> Role {
        if s == "admin"@ {
            Role::Admin
        } else if s == "moderator"@ {
            Role::Moderator
        } else {
            Role::Developer
        }
    }

    /// Parses a role name as the primary store records it; unknown names
    /// fall back to the unprivileged `Developer`.
    pub fn from_string(string: &str) -> (r: Role)
        ensures
            r == Role::spec_from_string(string@),
    {
        let s = String::from_str(string);
        if s.eq(&String::from_str("admin")) {
            Role::Admin
        } else if s.eq(&String::from_str("moderator")) {
            Role::Moderator
        } else {
            Role::Developer
        }
    }

    pub open spec fn spec_is_mod(&self) -> bool {
        *self == Role::Moderator || *self == Role::Admin
    }

    /// Whether this role carries moderation powers.
    #[verifier::when_used_as_spec(spec_is_mod)]
    pub fn is_mod(&self) -> (r: bool)
        ensures
            r == self.spec_is_mod(),
    {
        match self {
            Role::Developer => false,
            Role::Moderator => true,
            Role::Admin => true,
        }
    }

    pub open spec fn spec_as_str(&self) -> Seq<char> {
        match *self {
            Role::Developer => "developer"@,
            Role::Moderator => "moderator"@,
            Role::Admin => "admin"@,
        }
    }

    /// The role's name as the primary store records it.
    pub fn as_str(&self) -> (r: &'static str)
        ensures
            r@ == self.spec_as_str(),
    {
        match self {
            Role::Developer => "developer",
            Role::Moderator => "moderator",
            Role::Admin => "admin",
        }
    }
}

} // verus!
