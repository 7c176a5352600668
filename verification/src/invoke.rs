//! What an invocation of a lambda reports back.

use vstd::prelude::*;

verus! {

/// The outcome of an invocation that could be made.
#[derive(Debug, Clone, Copy, PartialEq, Eq, Structural)]
pub struct InvokeResult {
    /// Whether the lambda reported success.
    pub success: bool,
}

} // verus!
