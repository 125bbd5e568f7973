//! Flat enumerations of the data model: the role tag a user owns and the
//! origin tag recording how an account was provisioned.

use vstd::prelude::*;

verus! {

/// Role tag owned by a user.  Signup always assigns `USER`;
/// `APPLICATION` roles are provisioned outside this core.
#[derive(Debug, Clone, Copy, PartialEq, Eq, Structural)]
pub enum RoleType {
    USER,
    APPLICATION,
}

/// The canonical name of a role tag, as persisted and reported.
pub open spec fn role_name(r: RoleType) -> Seq<char> {
    match r {
        RoleType::USER => "USER"@,
        RoleType::APPLICATION => "APPLICATION"@,
    }
}

impl RoleType {
    /// The canonical name of this role tag.
    pub fn name(&self) -> (r: String)
        ensures
            r@ == role_name(*self),
    {
        match self {
            RoleType::USER => "USER".to_owned(),
            RoleType::APPLICATION => "APPLICATION".to_owned(),
        }
    }

    /// The role tag named by `value`; names other than the two canonical
    /// ones are rejected by the precondition (the stores only ever hold
    /// canonical names).
    pub fn parse(value: &str) -> (r: RoleType)
        requires
            value@ == role_name(RoleType::USER) || value@ == role_name(RoleType::APPLICATION),
        ensures
            role_name(r) == value@,
    {
        if str_eq(value, "USER") {
            RoleType::USER
        } else {
            RoleType::APPLICATION
        }
    }
}

/// Origin tag of a user account: provisioned by this system or federated
/// from an external identity provider.
#[derive(Debug, Clone, Copy, PartialEq, Eq, Structural)]
pub enum UserSource {
    SYSTEM,
    GOOGLE,
}

/// The canonical name of an origin tag.
pub open spec fn source_name(s: UserSource) -> Seq<char> {
    match s {
        UserSource::SYSTEM => "SYSTEM"@,
        UserSource::GOOGLE => "GOOGLE"@,
    }
}

impl UserSource {
    /// The canonical name of this origin tag.
    pub fn name(&self) -> (r: String)
        ensures
            r@ == source_name(*self),
    {
        match self {
            UserSource::SYSTEM => "SYSTEM".to_owned(),
            UserSource::GOOGLE => "GOOGLE".to_owned(),
        }
    }

    /// The origin tag named by `value`; other names are rejected by the
    /// precondition.
    pub fn parse(value: &str) -> (r: UserSource)
        requires
            value@ == source_name(UserSource::SYSTEM) || value@ == source_name(UserSource::GOOGLE),
        ensures
            source_name(r) == value@,
    {
        if str_eq(value, "SYSTEM") {
            UserSource::SYSTEM
        } else {
            UserSource::GOOGLE
        }
    }
}

/// Whether two string slices hold the same characters.
pub fn str_eq(a: &str, b: &str) -> (r: bool)
    ensures
        r == (a@ == b@),
{
    let owned_a: String = a.to_owned();
    let owned_b: String = b.to_owned();
    owned_a == owned_b
}

} // verus!
