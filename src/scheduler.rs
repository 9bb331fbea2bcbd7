//! The shared execution scheduler: a tokio runtime whose blocking pool runs
//! order submissions. Adapters hold a shared handle to it; they never create
//! or tear it down.
use vstd::prelude::*;

verus! {

#[verifier::external_type_specification]
#[verifier::external_body]
pub struct ExRuntime(tokio::runtime::Runtime);

} // verus!
