//! What the library takes from the `uuid` crate: the identifier type, its
//! canonical text and its parser.

use uuid::Uuid;
use vstd::prelude::*;

verus! {

#[verifier::external_type_specification]
#[verifier::external_body]
pub struct ExUuid(uuid::Uuid);

#[verifier::external_type_specification]
#[verifier::external_body]
pub struct ExUuidError(uuid::Error);

/// `Uuid` derives `Clone` and `Copy`: a clone is the identifier itself.
pub assume_specification[ <uuid::Uuid as Clone>::clone ](id: &Uuid) -> (res: Uuid)
    ensures
        res == *id,
;

/// The text that the `uuid` crate prints for an identifier.
pub uninterp spec fn uuid_text(id: Uuid) -> Seq<char>;

/// The identifier that the `uuid` crate reads from a text, if it reads one.
pub uninterp spec fn uuid_parse(text: Seq<char>) -> Option<Uuid>;

/// Calls `Uuid::to_string`, which goes through the crate's `Display` impl.
/// Trusted: the text depends on the identifier alone.
#[verifier::external_body]
pub(crate) fn uuid_to_string(id: &Uuid) -> (res: String)
    ensures
        res@ == uuid_text(*id),
{
    id.to_string()
}

/// Calls `Uuid::parse_str`. Trusted: whether the text is accepted, and as
/// which identifier, depends on the text alone.
#[verifier::external_body]
pub(crate) fn uuid_from_str(text: &str) -> (res: Result<Uuid, uuid::Error>)
    ensures
        res is Ok <==> uuid_parse(text@) is Some,
        res matches Ok(id) ==> uuid_parse(text@) == Some(id),
{
    Uuid::parse_str(text)
}

} // verus!
