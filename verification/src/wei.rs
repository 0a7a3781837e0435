//! Amounts in the smallest native denomination, wide enough to hold any
//! product of a gas quantity and a per-unit gas price without rounding.

use vstd::prelude::*;

verus! {

/// Two to the power 64.
pub const HALF_LIMB: u128 = 0x1_0000_0000_0000_0000;

/// Two to the power 128: the weight of the high part of an amount.
pub open spec fn limb() -> nat {
    0x1_0000_0000_0000_0000_0000_0000_0000_0000nat
}

/// An amount of wei below 2^192, held as `hi * 2^128 + lo`.
///
/// Every pair of fields is a valid amount, and two amounts are equal exactly
/// when they stand for the same number.
#[derive(Clone, Copy, Debug, PartialEq, Eq)]
pub struct Wei {
    pub hi: u64,
    pub lo: u128,
}

impl View for Wei {
    type V = nat;

    open spec fn view(&self) -> nat {
        self.hi as nat * limb() + self.lo as nat
    }
}

/// The product of two numbers below 2^64 is below 2^128.
pub proof fn lemma_half_limb_product(a: nat, b: nat)
    by (nonlinear_arith)
    requires
        a <= 0xffff_ffff_ffff_ffff,
        b <= 0xffff_ffff_ffff_ffff,
    ensures
        a * b <= 0xffff_ffff_ffff_fffe_0000_0000_0000_0001,
{
}

/// Multiplying by a number split at 2^64 multiplies the two halves apart.
pub proof fn lemma_split_product(u: nat, high: nat, low: nat)
    by (nonlinear_arith)
    ensures
        u * (high * 0x1_0000_0000_0000_0000 + low) == (u * high) * 0x1_0000_0000_0000_0000 + u
            * low,
{
}

impl Wei {
    /// The amount that stands for the number `n`, for `n` below 2^192.
    pub open spec fn of(n: nat) -> Wei {
        Wei { hi: (n / limb()) as u64, lo: (n % limb()) as u128 }
    }

    /// An amount is the one that stands for its own number.
    pub proof fn lemma_of_view(self)
        ensures
            Wei::of(self@) == self,
            self@ < 0x1_0000_0000_0000_0000 * limb(),
    {
        let n = self@;
        assert(n == self.hi as nat * limb() + self.lo as nat);
        assert(n / limb() == self.hi as nat);
        assert(n % limb() == self.lo as nat);
    }

    /// A number below 2^192 is the number that its amount stands for.
    pub proof fn lemma_view_of(n: nat)
        requires
            n < 0x1_0000_0000_0000_0000 * limb(),
        ensures
            Wei::of(n)@ == n,
    {
        assert(n / limb() < 0x1_0000_0000_0000_0000);
        assert(n == (n / limb()) * limb() + n % limb());
    }

    /// The amount of a product of a quantity and a price stands for that
    /// product: it is below 2^192.
    pub proof fn lemma_view_of_product(units: u64, price: u128)
        ensures
            Wei::of(units as nat * price as nat)@ == units as nat * price as nat,
    {
        assert(units as nat * price as nat <= 0xffff_ffff_ffff_ffff
            * 0xffff_ffff_ffff_ffff_ffff_ffff_ffff_ffff) by (nonlinear_arith)
            requires
                units <= 0xffff_ffff_ffff_ffff,
                price <= 0xffff_ffff_ffff_ffff_ffff_ffff_ffff_ffff,
        ;
        Wei::lemma_view_of(units as nat * price as nat);
    }

    /// The amount `n` wei.
    pub fn from_u128(n: u128) -> (w: Wei)
        ensures
            w@ == n,
            w == Wei::of(n as nat),
    {
        let w = Wei { hi: 0, lo: n };
        proof {
            w.lemma_of_view();
        }
        w
    }

    /// The exact product of a quantity and a price per unit: nothing is
    /// rounded and nothing wraps, whatever the two factors are.
    pub fn product(units: u64, price: u128) -> (w: Wei)
        ensures
            w@ == units as nat * price as nat,
            w == Wei::of(units as nat * price as nat),
    {
        let u: u128 = units as u128;
        let price_low: u128 = price % HALF_LIMB;
        let price_high: u128 = price / HALF_LIMB;
        proof {
            lemma_half_limb_product(u as nat, price_low as nat);
            lemma_half_limb_product(u as nat, price_high as nat);
        }
        let low: u128 = u * price_low;
        let high: u128 = u * price_high;
        let carried: u128 = high / HALF_LIMB;
        let middle: u128 = (high % HALF_LIMB) * HALF_LIMB;
        let room: u128 = u128::MAX - middle;
        let w = if low > room {
            Wei { hi: (carried + 1) as u64, lo: low - room - 1 }
        } else {
            Wei { hi: carried as u64, lo: middle + low }
        };
        proof {
            lemma_split_product(u as nat, price_high as nat, price_low as nat);
            assert(price as nat == price_high as nat * 0x1_0000_0000_0000_0000 + price_low as nat);
            assert(units as nat * price as nat == high as nat * 0x1_0000_0000_0000_0000
                + low as nat);
            assert(w@ == units as nat * price as nat);
            w.lemma_of_view();
        }
        w
    }

    /// Whether this amount is at most `other`.
    pub fn le(&self, other: &Wei) -> (b: bool)
        ensures
            b == (self@ <= other@),
    {
        self.hi < other.hi || (self.hi == other.hi && self.lo <= other.lo)
    }
}

} // verus!
