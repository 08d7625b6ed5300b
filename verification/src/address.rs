use vstd::prelude::*;

verus! {

/// A ledger address as plain data: whether it names a contract (`C...`) or
/// an account (`G...`), and its 32-byte payload as four big-endian words.
#[derive(Clone, Copy, Debug, PartialEq, Eq, Structural)]
pub struct Addr {
    pub is_contract: bool,
    pub w0: u64,
    pub w1: u64,
    pub w2: u64,
    pub w3: u64,
}

} // verus!
