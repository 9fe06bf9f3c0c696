//! The identity of a caller, as the host hands it over.

use vstd::prelude::*;

verus! {

/// `candid::Principal`, the identity of a caller. The library stores and hands
/// back such a value and never looks inside it.
#[verifier::external_type_specification]
#[verifier::external_body]
pub struct ExPrincipal(candid::Principal);

} // verus!
