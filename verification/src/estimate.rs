//! Fee estimates: what one round of provider queries says a transaction
//! would cost right now.

use vstd::prelude::*;
use crate::wei::Wei;

verus! {

/// The answers to the two estimation queries of one attempt: the gas the
/// transaction is expected to use and the fee market's price per unit of gas.
#[derive(Clone, Copy, Debug, PartialEq, Eq)]
pub struct FeeEstimate {
    pub gas_estimate: u64,
    pub max_fee_per_gas: u128,
}

impl FeeEstimate {
    /// The effective fee in wei: gas units times the price per unit.
    pub open spec fn fee(self) -> nat {
        self.gas_estimate as nat * self.max_fee_per_gas as nat
    }

    /// Whether a threshold tolerates this estimate: the effective fee is at
    /// most the threshold.
    pub open spec fn affordable(self, threshold: Wei) -> bool {
        self.fee() <= threshold@
    }

    /// The effective fee of this estimate, computed exactly.
    pub fn effective_fee(&self) -> (w: Wei)
        ensures
            w@ == self.fee(),
            w == Wei::of(self.fee()),
    {
        Wei::product(self.gas_estimate, self.max_fee_per_gas)
    }

    /// Whether the effective fee is at most `threshold`.
    pub fn within(&self, threshold: &Wei) -> (b: bool)
        ensures
            b == self.affordable(*threshold),
    {
        let fee = self.effective_fee();
        fee.le(threshold)
    }
}

} // verus!
