//! The parts of `std::sync` that the transaction supplies hold.

use std::sync::OnceLock;
use vstd::prelude::*;

verus! {

/// `std::sync::OnceLock`, a cell written at most once, whose readers can
/// block until it is written; opaque here.
#[verifier::external_type_specification]
#[verifier::external_body]
#[verifier::reject_recursive_types(T)]
pub struct ExOnceLock<T>(OnceLock<T>);

} // verus!
