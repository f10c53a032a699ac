//! Label sets for the command counter the surrounding process may keep.

use vstd::prelude::*;

use crate::command::Operation;

verus! {

/// The labels of one command-counter sample: the operation that was routed.
#[derive(Clone, Copy, Debug, Hash, PartialEq, Eq, Structural)]
pub struct CommandLables {
    pub operation: Operation,
}

impl CommandLables {
    /// A label set for the given operation.
    pub fn new(operation: Operation) -> (r: CommandLables)
        ensures
            r.operation == operation,
    {
        CommandLables { operation }
    }
}

} // verus!
