use vstd::prelude::*;
use crate::address::Addr;

verus! {

/// What one entrypoint decides before any outside work is done: the address
/// whose authorization the ledger must check first (when the entrypoint gets
/// that far), then either the work to carry out or the error that aborts the
/// invocation.
#[derive(Debug)]
pub struct Step<T, E> {
    pub signer: Option<Addr>,
    pub result: Result<T, E>,
}

} // verus!
