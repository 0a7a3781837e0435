//! Fee accounting after submission: what a confirmed transaction did cost.

use vstd::prelude::*;
use crate::fiat::{conversion_of, convert_gas_fee, FiatAmount, PriceLookup, RateUnavailable};
use crate::wei::Wei;

verus! {

/// What the provider reports of an included transaction.
#[derive(Clone, Copy, Debug, PartialEq, Eq)]
pub struct Receipt {
    pub transaction_hash: [u8; 32],
    pub gas_used: u64,
    pub effective_gas_price: u128,
}

impl Receipt {
    /// The fee that was paid, in wei: gas used times the price paid per unit.
    pub open spec fn fee(self) -> nat {
        self.gas_used as nat * self.effective_gas_price as nat
    }

    /// The fee that was paid, computed exactly.
    pub fn realized_fee(&self) -> (w: Wei)
        ensures
            w@ == self.fee(),
            w == Wei::of(self.fee()),
    {
        Wei::product(self.gas_used, self.effective_gas_price)
    }
}

/// The fiat side of an outcome.
#[derive(Clone, Copy, Debug, PartialEq, Eq)]
pub enum FiatReport {
    /// The run was configured without fiat conversion.
    NotRequested,
    /// The realized fee at the rate that the price source quoted.
    Converted(FiatAmount),
    /// No rate could be had; the fee in wei is reported all the same.
    Unavailable(RateUnavailable),
}

/// The result of a run that sent its transaction.
#[derive(Clone, Copy, Debug, PartialEq, Eq)]
pub struct SubmissionOutcome {
    pub transaction_hash: [u8; 32],
    pub gas_used: u64,
    pub effective_gas_price: u128,
    pub realized_fee: Wei,
    pub fiat_value: FiatReport,
}

/// The fiat side of an outcome whose price lookup ended as `lookup`.
pub open spec fn fiat_report_of(fee: Wei, lookup: PriceLookup) -> FiatReport {
    match conversion_of(fee, lookup) {
        Ok(amount) => FiatReport::Converted(amount),
        Err(reason) => FiatReport::Unavailable(reason),
    }
}

impl SubmissionOutcome {
    /// The realized fee is exactly gas used times the price paid.
    pub open spec fn exact(self) -> bool {
        self.realized_fee@ == self.gas_used as nat * self.effective_gas_price as nat
    }

    /// The outcome that reports `receipt` with the given fiat side.
    pub open spec fn of(receipt: Receipt, fiat_value: FiatReport) -> SubmissionOutcome {
        SubmissionOutcome {
            transaction_hash: receipt.transaction_hash,
            gas_used: receipt.gas_used,
            effective_gas_price: receipt.effective_gas_price,
            realized_fee: Wei::of(receipt.fee()),
            fiat_value,
        }
    }

    /// Reports a receipt without a fiat value.
    pub fn without_fiat(receipt: &Receipt) -> (outcome: SubmissionOutcome)
        ensures
            outcome == SubmissionOutcome::of(*receipt, FiatReport::NotRequested),
            outcome.exact(),
    {
        SubmissionOutcome {
            transaction_hash: receipt.transaction_hash,
            gas_used: receipt.gas_used,
            effective_gas_price: receipt.effective_gas_price,
            realized_fee: receipt.realized_fee(),
            fiat_value: FiatReport::NotRequested,
        }
    }

    /// Reports a receipt together with what the price lookup gave: the
    /// converted fee, or the reason why there is none. The fee in wei is
    /// reported either way.
    pub fn with_fiat(receipt: &Receipt, lookup: &PriceLookup) -> (outcome: SubmissionOutcome)
        ensures
            outcome == SubmissionOutcome::of(
                *receipt,
                fiat_report_of(Wei::of(receipt.fee()), *lookup),
            ),
            outcome.exact(),
    {
        let realized_fee = receipt.realized_fee();
        let fiat_value = match convert_gas_fee(realized_fee, lookup) {
            Ok(amount) => FiatReport::Converted(amount),
            Err(reason) => FiatReport::Unavailable(reason),
        };
        SubmissionOutcome {
            transaction_hash: receipt.transaction_hash,
            gas_used: receipt.gas_used,
            effective_gas_price: receipt.effective_gas_price,
            realized_fee,
            fiat_value,
        }
    }
}

} // verus!
