//! The exchange rate of the stablecoin, and the quantities it converts.
//!
//! A price is a decimal number: a signed mantissa of up to 96 bits and the
//! number of its digits that stand behind the decimal point.  Minting
//! divides a quantity by the price, redeeming multiplies it; both round to
//! the nearest whole token and stay within `u64`.  Only a price above zero
//! is an exchange rate.

use crate::error::ErrorCode;
use crate::rounding::lemma_pow10_monotonic;
use crate::rounding::lemma_round_div_exact;
use crate::rounding::lemma_round_div_is_nearest;
use crate::rounding::lemma_round_div_lower_bound;
use crate::rounding::mul_div_round;
use crate::rounding::pow10;
use crate::rounding::pow10_exec;
use crate::rounding::round_div;
use crate::rounding::saturate;
use vstd::arithmetic::div_mod::lemma_div_is_ordered;
use vstd::arithmetic::mul::lemma_mul_inequality;
use vstd::prelude::*;

verus! {

/// The largest magnitude of a price's mantissa: `2^96 - 1`.
pub const MAX_MANTISSA: i128 = 0xffff_ffff_ffff_ffff_ffff_ffff;

/// The largest number of digits behind the decimal point.
pub const MAX_SCALE: u32 = 28;

/// What a price is: the number `mantissa / 10^scale`.
pub struct PriceView {
    pub mantissa: int,
    pub scale: nat,
}

impl PriceView {
    /// The bounds that every price keeps.
    pub open spec fn in_range(self) -> bool {
        &&& -MAX_MANTISSA <= self.mantissa <= MAX_MANTISSA
        &&& self.scale <= MAX_SCALE
    }
}

/// A decimal exchange rate.
#[derive(Clone, Copy, Debug)]
pub struct Price {
    mantissa: i128,
    scale: u32,
}

impl View for Price {
    type V = PriceView;

    closed spec fn view(&self) -> PriceView {
        PriceView { mantissa: self.mantissa as int, scale: self.scale as nat }
    }
}

/// The tokens minted for `quantity` units at a positive `price`:
/// `quantity / price`, rounded to the nearest whole number and kept within
/// `u64`.
pub open spec fn minted(quantity: int, price: PriceView) -> int {
    saturate(round_div(quantity * pow10(price.scale), price.mantissa))
}

/// The tokens burned for `quantity` units at a positive `price`:
/// `quantity * price`, rounded to the nearest whole number and kept within
/// `u64`.
pub open spec fn redeemed(quantity: int, price: PriceView) -> int {
    saturate(round_div(quantity * price.mantissa, pow10(price.scale) as int))
}

impl Price {
    #[verifier::type_invariant]
    spec fn well_formed(self) -> bool {
        self@.in_range()
    }

    /// The price `mantissa / 10^scale`, where the mantissa fits in 96 bits
    /// and the scale is at most `MAX_SCALE`; `None` for any other pair.
    pub fn new(mantissa: i128, scale: u32) -> (price: Option<Price>)
        ensures
            price is Some <==> (PriceView { mantissa: mantissa as int, scale: scale as nat }).in_range(),
            price is Some ==> price.unwrap()@ == (PriceView {
                mantissa: mantissa as int,
                scale: scale as nat,
            }),
    {
        if mantissa < -MAX_MANTISSA || mantissa > MAX_MANTISSA || scale > MAX_SCALE {
            None
        } else {
            Some(Price { mantissa, scale })
        }
    }

    pub fn mantissa(&self) -> (mantissa: i128)
        ensures
            mantissa == self@.mantissa,
            self@.in_range(),
    {
        proof {
            use_type_invariant(self);
        }
        self.mantissa
    }

    pub fn scale(&self) -> (scale: u32)
        ensures
            scale == self@.scale,
            self@.in_range(),
    {
        proof {
            use_type_invariant(self);
        }
        self.scale
    }

    /// The tokens to mint for `quantity` units at this price.  A price of
    /// zero or below is no exchange rate.
    pub fn mint_quantity(&self, quantity: u64) -> (amount: Result<u64, ErrorCode>)
        ensures
            self@.mantissa <= 0 ==> amount == Err::<u64, ErrorCode>(
                ErrorCode::InvalidExchangeRate,
            ),
            self@.mantissa > 0 ==> amount is Ok && amount.unwrap() == minted(
                quantity as int,
                self@,
            ),
    {
        proof {
            use_type_invariant(self);
        }
        if self.mantissa > 0 {
            Ok(mul_div_round(quantity, pow10_exec(self.scale), self.mantissa as u128))
        } else {
            Err(ErrorCode::InvalidExchangeRate)
        }
    }

    /// The tokens to burn for `quantity` units at this price.  A price of
    /// zero or below is no exchange rate.
    pub fn redeem_quantity(&self, quantity: u64) -> (amount: Result<u64, ErrorCode>)
        ensures
            self@.mantissa <= 0 ==> amount == Err::<u64, ErrorCode>(
                ErrorCode::InvalidExchangeRate,
            ),
            self@.mantissa > 0 ==> amount is Ok && amount.unwrap() == redeemed(
                quantity as int,
                self@,
            ),
    {
        proof {
            use_type_invariant(self);
        }
        if self.mantissa > 0 {
            Ok(mul_div_round(quantity, self.mantissa as u128, pow10_exec(self.scale)))
        } else {
            Err(ErrorCode::InvalidExchangeRate)
        }
    }
}

/// Minting rounds to the nearest token.  Where the amount is not cut off at
/// the upper bound, it differs from `quantity / price` by at most half a
/// token, and by exactly half a token only upwards.
pub proof fn lemma_minted_is_nearest(quantity: int, price: PriceView)
    requires
        0 <= quantity,
        0 < price.mantissa,
        round_div(quantity * pow10(price.scale), price.mantissa) <= u64::MAX,
    ensures
        -price.mantissa < 2 * (minted(quantity, price) * price.mantissa - quantity * pow10(
            price.scale,
        )) <= price.mantissa,
{
    let n = quantity * pow10(price.scale);
    assert(0 <= n) by (nonlinear_arith)
        requires
            0 <= quantity,
            n == quantity * pow10(price.scale),
    ;
    lemma_round_div_lower_bound(n, price.mantissa, 0);
    lemma_round_div_is_nearest(n, price.mantissa);
}

/// Redeeming rounds to the nearest token.  Where the amount is not cut off
/// at the upper bound, it differs from `quantity * price` by at most half a
/// token, and by exactly half a token only upwards.
pub proof fn lemma_redeemed_is_nearest(quantity: int, price: PriceView)
    requires
        0 <= quantity,
        0 < price.mantissa,
        round_div(quantity * price.mantissa, pow10(price.scale) as int) <= u64::MAX,
    ensures
        -pow10(price.scale) < 2 * (redeemed(quantity, price) * pow10(price.scale) - quantity
            * price.mantissa) <= pow10(price.scale),
{
    let n = quantity * price.mantissa;
    let d = pow10(price.scale) as int;
    assert(0 <= n) by (nonlinear_arith)
        requires
            0 <= quantity,
            0 < price.mantissa,
            n == quantity * price.mantissa,
    ;
    lemma_pow10_monotonic(price.scale, price.scale);
    lemma_round_div_lower_bound(n, d, 0);
    lemma_round_div_is_nearest(n, d);
}

/// At a price of exactly one, minting and redeeming leave a quantity as it
/// is.
pub proof fn lemma_par_keeps_quantity(quantity: int, price: PriceView)
    requires
        0 <= quantity <= u64::MAX,
        price.mantissa == pow10(price.scale),
    ensures
        minted(quantity, price) == quantity,
        redeemed(quantity, price) == quantity,
{
    lemma_pow10_monotonic(price.scale, price.scale);
    lemma_round_div_exact(quantity, price.mantissa);
}

/// A larger quantity never mints or burns fewer tokens.
pub proof fn lemma_quantity_monotonic(smaller: int, larger: int, price: PriceView)
    requires
        0 <= smaller <= larger,
        0 < price.mantissa,
    ensures
        minted(smaller, price) <= minted(larger, price),
        redeemed(smaller, price) <= redeemed(larger, price),
{
    let p = pow10(price.scale) as int;
    let m = price.mantissa;
    lemma_pow10_monotonic(price.scale, price.scale);
    lemma_mul_inequality(smaller, larger, p);
    lemma_mul_inequality(smaller, larger, m);
    lemma_div_is_ordered(2 * (smaller * p) + m, 2 * (larger * p) + m, 2 * m);
    lemma_div_is_ordered(2 * (smaller * m) + p, 2 * (larger * m) + p, 2 * p);
}

} // verus!
