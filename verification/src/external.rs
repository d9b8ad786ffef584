//! Types of other crates that the library carries without looking inside.

use vstd::prelude::*;

verus! {

/// `serde_json::Error`, the reason a state could not be serialized or parsed. Nothing is
/// claimed of its contents: values of it are only carried through.
#[verifier::external_type_specification]
#[verifier::external_body]
pub struct ExJsonError(serde_json::Error);

/// `std::io::Error`, the reason an operation of the host failed. Nothing is claimed of its
/// contents: values of it are only carried through.
#[verifier::external_type_specification]
#[verifier::external_body]
pub struct ExIoError(std::io::Error);

} // verus!
