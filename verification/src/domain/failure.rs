//! The opaque cause that an `Unknown` error carries.

use vstd::prelude::*;

verus! {

/// `anyhow::Error`, the cause of a failure that has no variant of its own.
/// The library hands such a value on and never looks inside.
#[verifier::external_type_specification]
#[verifier::external_body]
pub struct ExCause(anyhow::Error);

} // verus!
