use vstd::prelude::*;

verus! {

/// What a cursor or transaction operation can fail with. "No key" and "no node"
/// are not errors: they come back as `Ok(None)`.
#[derive(Clone, Copy, Debug, PartialEq, Eq, Structural)]
pub enum BchErrcode {
    /// A lock held by another transaction stands in the way; retry the read or
    /// the whole transaction.
    TransactionRestart,
    /// The engine has no room for another transaction or cursor record.
    ResourceExhausted,
    /// The caller broke the cursor protocol, such as reading a conflicted cursor
    /// without restarting it.
    ProtocolMisuse,
}

impl BchErrcode {
    /// Whether retrying can succeed.
    pub fn is_restart(&self) -> (r: bool)
        ensures
            r <==> *self == BchErrcode::TransactionRestart,
    {
        match self {
            BchErrcode::TransactionRestart => true,
            _ => false,
        }
    }
}

} // verus!
