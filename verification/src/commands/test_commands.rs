use vstd::prelude::*;

verus! {

/// Commands for manually exercising the remote endpoints.
#[derive(Debug)]
pub enum TestCommands {
    /// Hit all remote endpoints.
    All(All),
}

/// Arguments of the endpoint exercise; there are none.
#[derive(Debug)]
pub struct All {}

} // verus!
