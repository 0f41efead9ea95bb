//! Identifiers of accounts, tokens, projects, components and policies.

use crate::uuids::{uuid_from_str, uuid_parse, uuid_text, uuid_to_string};
use uuid::Uuid;
use vstd::prelude::*;
use vstd::string::*;

verus! {

/// An account identifier: any text, taken as given.
#[derive(Clone, PartialEq, Eq, Debug)]
pub struct AccountId {
    pub id: String,
}

impl View for AccountId {
    type V = Seq<char>;

    open spec fn view(&self) -> Seq<char> {
        self.id@
    }
}

impl AccountId {
    /// The account identifier with the given text.
    pub fn new(id: String) -> (res: AccountId)
        ensures
            res.id == id,
    {
        AccountId { id }
    }

    /// The identifier's text.
    pub fn to_string(&self) -> (res: String)
        ensures
            res@ == self@,
    {
        self.id.clone()
    }

    /// Every text is an account identifier.
    pub fn from_str(s: &str) -> (res: Result<AccountId, std::convert::Infallible>)
        ensures
            res matches Ok(a) && a@ == s@,
    {
        Ok(AccountId { id: String::from_str(s) })
    }
}

impl std::str::FromStr for AccountId {
    type Err = std::convert::Infallible;

    fn from_str(s: &str) -> (res: Result<AccountId, std::convert::Infallible>)
        ensures
            res matches Ok(a) && a@ == s@,
    {
        AccountId::from_str(s)
    }
}

/// A component's name: any text, taken as given.
#[derive(Clone, PartialEq, Eq, Debug)]
pub struct ComponentName(pub String);

impl View for ComponentName {
    type V = Seq<char>;

    open spec fn view(&self) -> Seq<char> {
        self.0@
    }
}

impl ComponentName {
    /// The name's text.
    pub fn to_string(&self) -> (res: String)
        ensures
            res@ == self@,
    {
        self.0.clone()
    }

    /// Every text is a component name.
    pub fn from_str(s: &str) -> (res: Result<ComponentName, std::convert::Infallible>)
        ensures
            res matches Ok(n) && n@ == s@,
    {
        Ok(ComponentName(String::from_str(s)))
    }
}

impl std::str::FromStr for ComponentName {
    type Err = std::convert::Infallible;

    fn from_str(s: &str) -> (res: Result<ComponentName, std::convert::Infallible>)
        ensures
            res matches Ok(n) && n@ == s@,
    {
        ComponentName::from_str(s)
    }
}

/// The identifier of an access token.
#[derive(Clone, PartialEq, Eq, Debug)]
pub struct TokenId(pub Uuid);

impl TokenId {
    /// The identifier in its canonical text.
    pub fn to_string(&self) -> (res: String)
        ensures
            res@ == uuid_text(self.0),
    {
        uuid_to_string(&self.0)
    }

    /// Reads a token identifier; fails exactly on the texts that are no identifier.
    pub fn from_str(s: &str) -> (res: Result<TokenId, uuid::Error>)
        ensures
            res is Ok <==> uuid_parse(s@) is Some,
            res matches Ok(t) ==> uuid_parse(s@) == Some(t.0),
    {
        match uuid_from_str(s) {
            Ok(id) => Ok(TokenId(id)),
            Err(e) => Err(e),
        }
    }
}

impl std::str::FromStr for TokenId {
    type Err = uuid::Error;

    fn from_str(s: &str) -> (res: Result<TokenId, uuid::Error>)
        ensures
            res is Ok <==> uuid_parse(s@) is Some,
            res matches Ok(t) ==> uuid_parse(s@) == Some(t.0),
    {
        TokenId::from_str(s)
    }
}

impl vstd::std_specs::convert::FromSpecImpl<TokenId> for Uuid {
    open spec fn obeys_from_spec() -> bool {
        true
    }

    open spec fn from_spec(v: TokenId) -> Uuid {
        v.0
    }
}

impl From<TokenId> for Uuid {
    /// The identifier that the token id wraps.
    fn from(value: TokenId) -> (res: Uuid) {
        value.0
    }
}

/// The identifier of a project.
#[derive(PartialEq, Eq, Debug)]
pub struct ProjectId(pub Uuid);

impl Clone for ProjectId {
    fn clone(&self) -> (res: ProjectId)
        ensures
            res == *self,
    {
        ProjectId(self.0)
    }
}

impl vstd::std_specs::convert::FromSpecImpl<ProjectId> for Uuid {
    open spec fn obeys_from_spec() -> bool {
        true
    }

    open spec fn from_spec(v: ProjectId) -> Uuid {
        v.0
    }
}

impl From<ProjectId> for Uuid {
    /// The identifier that the project id wraps.
    fn from(value: ProjectId) -> (res: Uuid) {
        value.0
    }
}

/// The identifier of a component, as opposed to its name.
#[derive(Clone, PartialEq, Eq, Debug)]
pub struct RawComponentId(pub Uuid);

/// The identifier of a project policy.
#[derive(Clone, PartialEq, Eq, Debug)]
pub struct ProjectPolicyId(pub Uuid);

impl ProjectPolicyId {
    /// The identifier in its canonical text.
    pub fn to_string(&self) -> (res: String)
        ensures
            res@ == uuid_text(self.0),
    {
        uuid_to_string(&self.0)
    }

    /// Reads a policy identifier; fails exactly on the texts that are no identifier.
    pub fn from_str(s: &str) -> (res: Result<ProjectPolicyId, uuid::Error>)
        ensures
            res is Ok <==> uuid_parse(s@) is Some,
            res matches Ok(p) ==> uuid_parse(s@) == Some(p.0),
    {
        match uuid_from_str(s) {
            Ok(id) => Ok(ProjectPolicyId(id)),
            Err(e) => Err(e),
        }
    }
}

impl std::str::FromStr for ProjectPolicyId {
    type Err = uuid::Error;

    fn from_str(s: &str) -> (res: Result<ProjectPolicyId, uuid::Error>)
        ensures
            res is Ok <==> uuid_parse(s@) is Some,
            res matches Ok(p) ==> uuid_parse(s@) == Some(p.0),
    {
        ProjectPolicyId::from_str(s)
    }
}

} // verus!
