//! Fiat conversion: what a fee in wei is worth at a quoted exchange rate, and
//! what to make of the price source's answer.

use vstd::prelude::*;
use vstd::string::*;
use crate::wei::{lemma_half_limb_product, limb, Wei};

verus! {

/// The quote for one asset: the price of one whole ether in millionths of a
/// dollar, if the answer named the currency.
#[derive(Clone, Copy, Debug, PartialEq, Eq)]
pub struct EthToUSDRate {
    pub to_asset: Option<u64>,
}

/// A well-formed answer of the price source: the quote of the asset asked
/// for, if the answer named the asset.
#[derive(Clone, Copy, Debug, PartialEq, Eq)]
pub struct CoingekoApiResponse {
    pub from_asset: Option<EthToUSDRate>,
}

/// What came of one request to the price source.
#[derive(Clone, Copy, Debug, PartialEq, Eq)]
pub enum PriceLookup {
    /// The source could not be reached.
    Unreachable,
    /// The source answered with something that is not a price table.
    Malformed,
    /// The source answered with a price table.
    Answered(CoingekoApiResponse),
}

/// Why no exchange rate could be had.
#[derive(Clone, Copy, Debug, PartialEq, Eq)]
pub enum RateUnavailable {
    /// The source could not be reached.
    Unreachable,
    /// The source's answer was malformed.
    Malformed,
    /// The answer lacks the asset or the currency that was asked for.
    PairAbsent,
}

/// A fiat amount below 2^256, held as `hi * 2^128 + lo`, counted in units of
/// 10^-24 dollar: millionths of a dollar per ether, times wei.
#[derive(Clone, Copy, Debug, PartialEq, Eq)]
pub struct FiatAmount {
    pub hi: u128,
    pub lo: u128,
}

impl View for FiatAmount {
    type V = nat;

    open spec fn view(&self) -> nat {
        self.hi as nat * limb() + self.lo as nat
    }
}

impl FiatAmount {
    /// The amount that stands for the number `n`, for `n` below 2^256.
    pub open spec fn of(n: nat) -> FiatAmount {
        FiatAmount { hi: (n / limb()) as u128, lo: (n % limb()) as u128 }
    }

    /// An amount is the one that stands for its own number.
    pub proof fn lemma_of_view(self)
        ensures
            FiatAmount::of(self@) == self,
    {
        let n = self@;
        assert(n == self.hi as nat * limb() + self.lo as nat);
        assert(n / limb() == self.hi as nat);
        assert(n % limb() == self.lo as nat);
    }
}

/// The rate that a lookup yields, or the reason why it yields none.
pub open spec fn rate_of(lookup: PriceLookup) -> Result<u64, RateUnavailable> {
    match lookup {
        PriceLookup::Unreachable => Err(RateUnavailable::Unreachable),
        PriceLookup::Malformed => Err(RateUnavailable::Malformed),
        PriceLookup::Answered(response) => match response.from_asset {
            Some(quote) => match quote.to_asset {
                Some(rate) => Ok(rate),
                None => Err(RateUnavailable::PairAbsent),
            },
            None => Err(RateUnavailable::PairAbsent),
        },
    }
}

/// Conversion as arithmetic: the amount times the rate.
pub open spec fn converted(amount: nat, rate: nat) -> nat {
    amount * rate
}

/// What converting `gas_fee` with the outcome of a lookup gives.
pub open spec fn conversion_of(gas_fee: Wei, lookup: PriceLookup) -> Result<
    FiatAmount,
    RateUnavailable,
> {
    match rate_of(lookup) {
        Ok(rate) => Ok(FiatAmount::of(converted(gas_fee@, rate as nat))),
        Err(reason) => Err(reason),
    }
}

/// Reads the exchange rate out of a lookup: the quoted rate when the source
/// answered with the asset and the currency, and otherwise the reason why
/// there is none.
pub fn quoted_rate(lookup: &PriceLookup) -> (r: Result<u64, RateUnavailable>)
    ensures
        r == rate_of(*lookup),
{
    match lookup {
        PriceLookup::Unreachable => Err(RateUnavailable::Unreachable),
        PriceLookup::Malformed => Err(RateUnavailable::Malformed),
        PriceLookup::Answered(response) => match response.from_asset {
            Some(quote) => match quote.to_asset {
                Some(rate) => Ok(rate),
                None => Err(RateUnavailable::PairAbsent),
            },
            None => Err(RateUnavailable::PairAbsent),
        },
    }
}

/// Distributing a factor over an amount split at 2^128.
proof fn lemma_scale_split(high: nat, low: nat, rate: nat)
    by (nonlinear_arith)
    ensures
        (high * 0x1_0000_0000_0000_0000_0000_0000_0000_0000 + low) * rate == (high * rate)
            * 0x1_0000_0000_0000_0000_0000_0000_0000_0000 + rate * low,
{
}

/// Multiplies an amount of wei by a rate, exactly.
pub fn scale(amount: Wei, rate: u64) -> (f: FiatAmount)
    ensures
        f@ == converted(amount@, rate as nat),
        f == FiatAmount::of(converted(amount@, rate as nat)),
{
    let low = Wei::product(rate, amount.lo);
    proof {
        lemma_half_limb_product(amount.hi as nat, rate as nat);
    }
    let high: u128 = (amount.hi as u128) * (rate as u128);
    let f = FiatAmount { hi: high + (low.hi as u128), lo: low.lo };
    proof {
        lemma_scale_split(amount.hi as nat, amount.lo as nat, rate as nat);
        assert(f@ == amount@ * rate as nat);
        f.lemma_of_view();
    }
    f
}

/// Converts a fee in wei to fiat with the outcome of a price lookup.
///
/// The result is the fee times the quoted rate, and depends on nothing else;
/// where the lookup yields no rate, the reason is handed on.
pub fn convert_gas_fee(gas_fee: Wei, lookup: &PriceLookup) -> (r: Result<
    FiatAmount,
    RateUnavailable,
>)
    ensures
        r == conversion_of(gas_fee, *lookup),
        r is Ok <==> rate_of(*lookup) is Ok,
        r matches Ok(f) ==> f@ == gas_fee@ * rate_of(*lookup)->Ok_0 as nat,
{
    match quoted_rate(lookup) {
        Ok(rate) => Ok(scale(gas_fee, rate)),
        Err(reason) => Err(reason),
    }
}

/// A zero fee converts to zero at every rate, and every fee converts to zero
/// at rate zero.
pub proof fn law_zero_converts_to_zero(amount: nat, rate: nat)
    ensures
        converted(0, rate) == 0,
        converted(amount, 0) == 0,
{
    assert(0 * rate == 0) by (nonlinear_arith);
    assert(amount * 0 == 0) by (nonlinear_arith);
}

/// The address of the price request: the source's base address, then the
/// simple-price path with the asset, the currency and the access key as its
/// query.
pub open spec fn endpoint_of(
    base_url: Seq<char>,
    asset: Seq<char>,
    currency: Seq<char>,
    api_key: Seq<char>,
) -> Seq<char> {
    base_url + "/v3/simple/price?ids="@ + asset + "&vs_currencies="@ + currency
        + "&x_cg_api_key="@ + api_key
}

/// Builds the address of the price request for one asset and one currency.
pub fn price_endpoint(base_url: &str, asset: &str, currency: &str, api_key: &str) -> (url: String)
    ensures
        url@ == endpoint_of(base_url@, asset@, currency@, api_key@),
{
    let mut url = String::from_str(base_url);
    url.append("/v3/simple/price?ids=");
    url.append(asset);
    url.append("&vs_currencies=");
    url.append(currency);
    url.append("&x_cg_api_key=");
    url.append(api_key);
    url
}

} // verus!
