//! What a command needs from the backend: the credential it speaks with and
//! one interface per resource family.

pub mod gateway;
pub mod project;

use crate::model::AccountId;
use crate::uuids::{uuid_text, uuid_to_string};
use uuid::Uuid;
use vstd::prelude::*;
use vstd::string::*;

verus! {

/// The secret half of a token.
#[derive(Clone, PartialEq, Eq, Debug)]
pub struct TokenSecret {
    pub value: Uuid,
}

/// The public half of a token: which token it is and whose.
#[derive(Clone, PartialEq, Eq, Debug)]
pub struct Token {
    pub id: Uuid,
    pub account_id: String,
}

/// A token together with its secret.
#[derive(Clone, PartialEq, Eq, Debug)]
pub struct UnsafeToken {
    pub data: Token,
    pub secret: TokenSecret,
}

/// The value of the `Authorization` header for a secret: the word `bearer`,
/// a space, and the secret in its canonical text.
pub open spec fn bearer(secret: Uuid) -> Seq<char> {
    "bearer "@ + uuid_text(secret)
}

/// The value of the `Authorization` header for a secret.
pub fn token_header(secret: &TokenSecret) -> (res: String)
    ensures
        res@ == bearer(secret.value),
{
    let mut header = String::from_str("bearer ");
    let text = uuid_to_string(&secret.value);
    header.append(text.as_str());
    header
}

/// The credential that one invocation speaks with. It is made once and
/// only read afterwards.
#[derive(Clone, PartialEq, Eq, Debug)]
pub struct CloudAuthentication(pub UnsafeToken);

impl CloudAuthentication {
    /// The value of the `Authorization` header.
    pub fn header(&self) -> (res: String)
        ensures
            res@ == bearer(self.0.secret.value),
    {
        token_header(&self.0.secret)
    }

    /// The account that the credential belongs to.
    pub fn account_id(&self) -> (res: AccountId)
        ensures
            res@ == self.0.data.account_id@,
    {
        AccountId { id: self.0.data.account_id.clone() }
    }
}

} // verus!
