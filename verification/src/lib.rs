//! Decisions of the Subspace node binary, verified.
use vstd::prelude::*;

pub mod error;
pub mod ss58;
pub mod dsn;
pub mod node;

verus! {

/// Executor dispatch of the secondary (execution) chain.
pub struct SecondaryExecutorDispatch;

} // verus!
