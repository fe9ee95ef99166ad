//! Wire types and validation rules for Evento Globolo events, ticket
//! inventory and offline admission.
use vstd::prelude::*;

pub mod admission;
pub mod events;
pub mod text;
pub mod ticketing;
pub mod time;

verus! {

/// `uuid::Uuid`, carried through the library's records as an opaque identifier.
#[verifier::external_type_specification]
#[verifier::external_body]
pub struct ExUuid(uuid::Uuid);

/// `<Uuid as Clone>::clone`: `Uuid` derives `Clone` and `Copy`, so a clone
/// is the same identifier.
pub assume_specification[ <uuid::Uuid as Clone>::clone ](u: &uuid::Uuid) -> (r: uuid::Uuid)
    ensures
        r == *u,
;

/// The first of two possible failures: `first` when there is one, else `second`.
pub open spec fn first_failure(first: Option<Seq<char>>, second: Option<Seq<char>>) -> Option<Seq<char>> {
    if first is Some {
        first
    } else {
        second
    }
}

} // verus!
