use vstd::prelude::*;

verus! {

/// A 32-byte account identity, held as two 128-bit halves.
#[derive(Clone, Copy, Debug, PartialEq, Eq, Structural)]
pub struct Identity {
    pub hi: u128,
    pub lo: u128,
}

impl Identity {
    pub fn new(hi: u128, lo: u128) -> (r: Identity)
        ensures
            r.hi == hi,
            r.lo == lo,
    {
        Identity { hi, lo }
    }
}

/// The key of an escrowed balance. Escrow balances are owned by derivation
/// from their controlling identity (and, for pools, the pool id), never by
/// reference.
#[derive(Clone, Copy, Debug, PartialEq, Eq, Structural)]
pub enum EscrowKey {
    /// The identity's own spendable balance.
    Account(Identity),
    /// Collateral staked for the node run by this operator.
    StakeVault(Identity),
    /// The protocol-wide escrow from which node earnings are paid out.
    EarningsVault,
    /// The funds of the pool with this sponsor and pool id.
    PoolVault(Identity, u64),
}

/// A balance movement between two escrow keys that the runtime has to apply
/// atomically with the state change that produced it.
#[derive(Clone, Copy, Debug, PartialEq, Eq, Structural)]
pub struct EscrowTransfer {
    pub from: EscrowKey,
    pub to: EscrowKey,
    pub amount: u64,
}

impl EscrowTransfer {
    pub fn new(from: EscrowKey, to: EscrowKey, amount: u64) -> (r: EscrowTransfer)
        ensures
            r == (EscrowTransfer { from, to, amount }),
    {
        EscrowTransfer { from, to, amount }
    }
}

} // verus!
