//! The pool state and the rebalancing curve engine: multipliers from oracle
//! prices, the rebalancing target, and swap quotes in both directions.

use vstd::prelude::*;
use crate::errors::OverflowError;
use crate::math::{checked_pow10, isqrt, pow10, sqrt_u128};
use crate::pubkey::Pubkey;

verus! {

/// Denominator of `fee_millionth`.
pub const MILLION: u64 = 1_000_000;

/// Pricing configuration of one pool, with the multipliers that the last
/// price refresh derived.
#[derive(Clone, Copy, Debug, PartialEq, Eq)]
pub struct SSTradingPair {
    pub is_initialized: bool,
    pub x_price_feed_id: Pubkey,
    pub y_price_feed_id: Pubkey,
    pub reserve_x: Pubkey,
    pub reserve_y: Pubkey,
    pub reference_oracle: Pubkey,
    pub mint_x: Pubkey,
    pub mint_y: Pubkey,
    /// The curve constant `K` of `x * y = K`.
    pub big_k: u128,
    /// Desired inventory of asset X, in raw units.
    pub target_x: u64,
    /// Value of one raw unit of X in the common base unit.
    pub mult_x: u64,
    /// Value of one raw unit of Y in the common base unit.
    pub mult_y: u64,
    /// Fee in parts per million of the raw output.
    pub fee_millionth: u64,
    /// Share of the fee handed back on rebalancing trades, in percent.
    pub rebate_percentage: u64,
    /// Share of the net fee that goes to the protocol, in parts per thousand.
    pub protocol_fee_share_thousandth: u64,
    /// Maximum age of the X oracle price, in seconds.
    pub feed_max_age_x: u8,
    /// Maximum age of the Y oracle price, in seconds.
    pub feed_max_age_y: u8,
    /// Fixed-point scale that both normalised oracle prices share.
    pub price_decimals: u8,
}

/// Factor that brings the price of X to the common base unit.
pub open spec fn x_decimals_multiplier(x_decimals: u8, y_decimals: u8) -> int {
    if y_decimals > x_decimals {
        pow10((y_decimals - x_decimals) as nat)
    } else {
        1
    }
}

/// Factor that brings the price of Y to the common base unit.
pub open spec fn y_decimals_multiplier(x_decimals: u8, y_decimals: u8) -> int {
    if x_decimals > y_decimals {
        pow10((x_decimals - y_decimals) as nat)
    } else {
        1
    }
}

/// Both decimal factors and both multipliers fit in 64 bits.
pub open spec fn price_update_defined(
    price_x: u64,
    price_y: u64,
    x_decimals: u8,
    y_decimals: u8,
) -> bool {
    &&& x_decimals_multiplier(x_decimals, y_decimals) <= u64::MAX
    &&& y_decimals_multiplier(x_decimals, y_decimals) <= u64::MAX
    &&& price_x * x_decimals_multiplier(x_decimals, y_decimals) <= u64::MAX
    &&& price_y * y_decimals_multiplier(x_decimals, y_decimals) <= u64::MAX
}

impl Default for SSTradingPair {
    /// A pool that is not initialised: every number is zero and every
    /// address is the default address.
    fn default() -> (pair: SSTradingPair)
        ensures
            !pair.is_initialized,
            pair.big_k == 0 && pair.target_x == 0 && pair.mult_x == 0 && pair.mult_y == 0,
            pair.fee_millionth == 0 && pair.rebate_percentage == 0
                && pair.protocol_fee_share_thousandth == 0,
            pair.feed_max_age_x == 0 && pair.feed_max_age_y == 0 && pair.price_decimals == 0,
            pair.x_price_feed_id.is_zero() && pair.y_price_feed_id.is_zero(),
            pair.reserve_x.is_zero() && pair.reserve_y.is_zero(),
            pair.mint_x.is_zero() && pair.mint_y.is_zero() && pair.reference_oracle.is_zero(),
            pair.wf(),
    {
        SSTradingPair {
            is_initialized: false,
            x_price_feed_id: Pubkey::default(),
            y_price_feed_id: Pubkey::default(),
            reserve_x: Pubkey::default(),
            reserve_y: Pubkey::default(),
            reference_oracle: Pubkey::default(),
            mint_x: Pubkey::default(),
            mint_y: Pubkey::default(),
            big_k: 0,
            target_x: 0,
            mult_x: 0,
            mult_y: 0,
            fee_millionth: 0,
            rebate_percentage: 0,
            protocol_fee_share_thousandth: 0,
            feed_max_age_x: 0,
            feed_max_age_y: 0,
            price_decimals: 0,
        }
    }
}

impl SSTradingPair {
    /// The fee shares are within their denominators.
    pub open spec fn wf(&self) -> bool {
        &&& self.rebate_percentage <= 100
        &&& self.protocol_fee_share_thousandth <= 1000
    }

    /// Whether the fee shares are within their denominators.
    pub fn is_well_formed(&self) -> (r: bool)
        ensures
            r == self.wf(),
    {
        self.rebate_percentage <= 100 && self.protocol_fee_share_thousandth <= 1000
    }

    /// Total value of the reserves in the common base unit.
    pub open spec fn value_total(&self, current_x: u64, current_y: u64) -> int {
        current_x * self.mult_x + current_y * self.mult_y
    }

    /// The level of Y that, together with `target_x`, is worth as much as
    /// the current reserves.
    pub open spec fn target_y(&self, current_x: u64, current_y: u64) -> int {
        (self.value_total(current_x, current_y) - self.target_x * self.mult_x) / (
        self.mult_y as int)
    }

    /// The target can be computed: the total value fits in 128 bits and
    /// covers the value of `target_x`, Y has a price, and the target of Y
    /// fits in 64 bits.
    pub open spec fn target_defined(&self, current_x: u64, current_y: u64) -> bool {
        &&& self.value_total(current_x, current_y) <= u128::MAX
        &&& self.target_x * self.mult_x <= self.value_total(current_x, current_y)
        &&& self.mult_y != 0
        &&& self.target_y(current_x, current_y) <= u64::MAX
    }

    /// Sets both multipliers from the two normalised prices, aligning them
    /// by the decimals of the two assets. Nothing changes on failure.
    pub fn update_price(
        &mut self,
        price_x: u64,
        price_y: u64,
        x_decimals: u8,
        y_decimals: u8,
    ) -> (r: Result<(), OverflowError>)
        ensures
            price_update_defined(price_x, price_y, x_decimals, y_decimals) ==> r is Ok
                && *final(self) == (SSTradingPair {
                mult_x: (price_x * x_decimals_multiplier(x_decimals, y_decimals)) as u64,
                mult_y: (price_y * y_decimals_multiplier(x_decimals, y_decimals)) as u64,
                ..*old(self)
            }),
            !price_update_defined(price_x, price_y, x_decimals, y_decimals) ==> r is Err
                && *final(self) == *old(self),
            old(self).wf() ==> final(self).wf(),
    {
        proof {
            crate::math::lemma_pow10_step(0);
        }
        let x_deci_mult: Option<u64> = if y_decimals > x_decimals {
            checked_pow10(y_decimals - x_decimals)
        } else {
            Some(1)
        };
        let y_deci_mult: Option<u64> = if x_decimals > y_decimals {
            checked_pow10(x_decimals - y_decimals)
        } else {
            Some(1)
        };
        let (x_mult, y_mult): (u64, u64) = match (x_deci_mult, y_deci_mult) {
            (Some(x_mult), Some(y_mult)) => (x_mult, y_mult),
            _ => { return Err(OverflowError); },
        };
        let mult_x: u64 = match price_x.checked_mul(x_mult) {
            Some(v) => v,
            None => { return Err(OverflowError); },
        };
        let mult_y: u64 = match price_y.checked_mul(y_mult) {
            Some(v) => v,
            None => { return Err(OverflowError); },
        };
        self.mult_x = mult_x;
        self.mult_y = mult_y;
        Ok(())
    }

    /// The rebalancing target: the stored target of X, and the level of Y
    /// that keeps the total oracle-priced value of the reserves.
    pub fn get_target_xy(&self, current_x: u64, current_y: u64) -> (r: Result<
        (u64, u64),
        OverflowError,
    >)
        ensures
            self.target_defined(current_x, current_y) ==> r == Ok::<(u64, u64), OverflowError>(
                (self.target_x, self.target_y(current_x, current_y) as u64),
            ),
            !self.target_defined(current_x, current_y) ==> r is Err,
    {
        assert(current_x * self.mult_x <= u128::MAX && current_y * self.mult_y <= u128::MAX
            && self.target_x * self.mult_x <= u128::MAX) by (nonlinear_arith)
            requires
                current_x <= u64::MAX,
                current_y <= u64::MAX,
                self.mult_x <= u64::MAX,
                self.mult_y <= u64::MAX,
                self.target_x <= u64::MAX,
        ;
        let value_x: u128 = (current_x as u128) * (self.mult_x as u128);
        let value_y: u128 = (current_y as u128) * (self.mult_y as u128);
        let value_total: u128 = match value_x.checked_add(value_y) {
            Some(v) => v,
            None => { return Err(OverflowError); },
        };
        let target_x: u64 = self.target_x;
        let target_x_value: u128 = (target_x as u128) * (self.mult_x as u128);
        let target_y_value: u128 = match value_total.checked_sub(target_x_value) {
            Some(v) => v,
            None => { return Err(OverflowError); },
        };
        let target_y: u128 = match target_y_value.checked_div(self.mult_y as u128) {
            Some(v) => v,
            None => { return Err(OverflowError); },
        };
        if target_y > u64::MAX as u128 {
            return Err(OverflowError);
        }
        Ok((target_x, target_y as u64))
    }

    /// The X coordinate of the point of the curve `x * y = big_k` at which
    /// the curve's price equals the oracle price.
    pub open spec fn curve_center(&self) -> int {
        isqrt(self.big_k * self.mult_y / (self.mult_x as int))
    }

    /// The X coordinate on the curve that stands for a reserve of `current_x`.
    pub open spec fn curve_x(&self, current_x: u64) -> int {
        self.curve_center() - self.target_x + current_x
    }

    /// The Y coordinate on the curve that stands for a reserve of `current_x`.
    pub open spec fn curve_y(&self, current_x: u64) -> int {
        (self.big_k as int) / self.curve_x(current_x)
    }

    /// The reserves have a point on the curve: `big_k * mult_y` fits in 128
    /// bits, X has a price, and the X coordinate is positive.
    pub open spec fn curve_defined(&self, current_x: u64) -> bool {
        &&& self.big_k * self.mult_y <= u128::MAX
        &&& self.mult_x != 0
        &&& self.curve_x(current_x) > 0
    }

    /// Amount of Y that the curve releases for `input_x` of X, before fees.
    pub open spec fn raw_output_y(&self, input_x: u64, current_x: u64) -> int {
        self.curve_y(current_x) - (self.big_k as int) / (self.curve_x(current_x) + input_x)
    }

    /// Amount of X that the curve releases for `input_y` of Y, before fees.
    pub open spec fn raw_output_x(&self, input_y: u64, current_x: u64) -> int {
        self.curve_x(current_x) - (self.big_k as int) / (self.curve_y(current_x) + input_y)
    }

    /// How far the reserve of X is below its target.
    pub open spec fn deficit_x(&self, current_x: u64) -> int {
        if current_x < self.target_x {
            self.target_x - current_x
        } else {
            0
        }
    }

    /// How far the reserve of Y is below its target.
    pub open spec fn deficit_y(&self, current_x: u64, current_y: u64) -> int {
        if current_y < self.target_y(current_x, current_y) {
            self.target_y(current_x, current_y) - current_y
        } else {
            0
        }
    }

    /// The fee on a raw output, before any rebate.
    pub open spec fn fee_before_rebate(&self, raw_output: int) -> int {
        raw_output * self.fee_millionth / 1_000_000
    }

    /// The rebate: the fee, scaled by the rebate-eligible share of the
    /// trade and by the pool's rebate percentage.
    pub open spec fn rebate(&self, raw_output: int, input: int, deficit: int) -> int {
        self.fee_before_rebate(raw_output) * rebate_ratio(input, deficit) / 100
            * self.rebate_percentage / 100
    }

    /// The fee that is kept: the fee less the rebate.
    pub open spec fn net_fee(&self, raw_output: int, input: int, deficit: int) -> int {
        self.fee_before_rebate(raw_output) - self.rebate(raw_output, input, deficit)
    }

    /// The protocol's share of the net fee.
    pub open spec fn protocol_fee(&self, raw_output: int, input: int, deficit: int) -> int {
        self.net_fee(raw_output, input, deficit) * self.protocol_fee_share_thousandth / 1000
    }

    /// Every step of the fee split can be represented: the input is not
    /// zero, the scaled rebate fits in 128 bits, and no subtraction goes
    /// below zero.
    pub open spec fn split_defined(&self, raw_output: int, input: int, deficit: int) -> bool {
        &&& input != 0
        &&& self.fee_before_rebate(raw_output) * rebate_ratio(input, deficit) / 100
            * self.rebate_percentage <= u128::MAX
        &&& self.rebate(raw_output, input, deficit) <= self.fee_before_rebate(raw_output)
        &&& self.net_fee(raw_output, input, deficit) <= raw_output
        &&& self.protocol_fee(raw_output, input, deficit) <= self.net_fee(
            raw_output,
            input,
            deficit,
        )
    }

    /// The triple `(output_to_user, protocol_fee, lp_fee)` for a raw output.
    pub open spec fn fee_split(&self, raw_output: int, input: int, deficit: int) -> Result<
        (u64, u64, u64),
        OverflowError,
    > {
        if self.split_defined(raw_output, input, deficit) {
            Ok(
                (
                    (raw_output - self.net_fee(raw_output, input, deficit)) as u64,
                    self.protocol_fee(raw_output, input, deficit) as u64,
                    (self.net_fee(raw_output, input, deficit) - self.protocol_fee(
                        raw_output,
                        input,
                        deficit,
                    )) as u64,
                ),
            )
        } else {
            Err(OverflowError)
        }
    }

    /// What a swap of `input_x` of X for Y yields.
    pub open spec fn quote_x_to_y_spec(
        &self,
        input_x: u64,
        current_x: u64,
        current_y: u64,
    ) -> Result<(u64, u64, u64), OverflowError> {
        if input_x == 0 {
            Ok((0u64, 0u64, 0u64))
        } else if !self.target_defined(current_x, current_y) || !self.curve_defined(current_x) {
            Err(OverflowError)
        } else if self.raw_output_y(input_x, current_x) >= current_y {
            Ok((0u64, 0u64, 0u64))
        } else {
            self.fee_split(
                self.raw_output_y(input_x, current_x),
                input_x as int,
                self.deficit_x(current_x),
            )
        }
    }

    /// What a swap of `input_y` of Y for X yields.
    pub open spec fn quote_y_to_x_spec(
        &self,
        input_y: u64,
        current_x: u64,
        current_y: u64,
    ) -> Result<(u64, u64, u64), OverflowError> {
        if input_y == 0 {
            Ok((0u64, 0u64, 0u64))
        } else if !self.target_defined(current_x, current_y) || !self.curve_defined(current_x)
            || self.curve_y(current_x) + input_y > u128::MAX {
            Err(OverflowError)
        } else if self.raw_output_x(input_y, current_x) >= current_x {
            Ok((0u64, 0u64, 0u64))
        } else {
            self.fee_split(
                self.raw_output_x(input_y, current_x),
                input_y as int,
                self.deficit_y(current_x, current_y),
            )
        }
    }

    /// The point `(x, y)` of the curve that stands for a reserve of
    /// `current_x`.
    pub fn curve_point(&self, current_x: u64) -> (r: Result<(u128, u128), OverflowError>)
        ensures
            self.curve_defined(current_x) ==> r == Ok::<(u128, u128), OverflowError>(
                (self.curve_x(current_x) as u128, self.curve_y(current_x) as u128),
            ),
            !self.curve_defined(current_x) ==> r is Err,
            r is Ok ==> 0 < self.curve_x(current_x) < 0x2_0000_0000_0000_0000
                && self.curve_y(current_x) <= self.big_k,
    {
        let scaled_k: u128 = match self.big_k.checked_mul(self.mult_y as u128) {
            Some(v) => v,
            None => { return Err(OverflowError); },
        };
        let ratio: u128 = match scaled_k.checked_div(self.mult_x as u128) {
            Some(v) => v,
            None => { return Err(OverflowError); },
        };
        let target_x_k: u128 = sqrt_u128(ratio);
        let shifted: u128 = target_x_k + current_x as u128;
        let current_x_k: u128 = match shifted.checked_sub(self.target_x as u128) {
            Some(v) => v,
            None => { return Err(OverflowError); },
        };
        let current_y_k: u128 = match self.big_k.checked_div(current_x_k) {
            Some(v) => v,
            None => { return Err(OverflowError); },
        };
        proof {
            vstd::arithmetic::div_mod::lemma_div_nonincreasing(
                self.big_k as int,
                current_x_k as int,
            );
        }
        Ok((current_x_k, current_y_k))
    }

    /// Splits a raw output into what the user receives, the protocol fee
    /// and the fee of the liquidity providers, for a trade of `input` that
    /// meets a deficit of `deficit` in the reserve it adds to.
    pub fn split_fee(&self, raw_output: u64, input: u64, deficit: u64) -> (r: Result<
        (u64, u64, u64),
        OverflowError,
    >)
        ensures
            r == self.fee_split(raw_output as int, input as int, deficit as int),
    {
        if input == 0 {
            return Err(OverflowError);
        }
        assert(raw_output * self.fee_millionth <= 0xffff_ffff_ffff_fffe_0000_0000_0000_0001)
            by (nonlinear_arith)
            requires
                0 <= raw_output <= 0xffff_ffff_ffff_ffff,
                0 <= self.fee_millionth <= 0xffff_ffff_ffff_ffff,
        ;
        let product: u128 = (raw_output as u128) * (self.fee_millionth as u128);
        let fee: u128 = product / (MILLION as u128);
        assert(fee == self.fee_before_rebate(raw_output as int));
        assert(fee <= product);
        let eligible: u64 = if input <= deficit {
            input
        } else {
            deficit
        };
        assert(eligible * 100 / (input as int) <= 100) by (nonlinear_arith)
            requires
                0 <= eligible <= input,
                input > 0,
        ;
        let ratio: u128 = (eligible as u128) * 100 / (input as u128);
        assert(0 <= fee * ratio <= fee * 100) by (nonlinear_arith)
            requires
                0 <= ratio <= 100,
                0 <= fee,
        ;
        let scaled: u128 = fee * ratio / 100;
        let rebate: u128 = match scaled.checked_mul(self.rebate_percentage as u128) {
            Some(v) => v / 100,
            None => { return Err(OverflowError); },
        };
        if rebate > fee {
            return Err(OverflowError);
        }
        let net_fee: u128 = fee - rebate;
        if net_fee > raw_output as u128 {
            return Err(OverflowError);
        }
        let output: u128 = raw_output as u128 - net_fee;
        assert(net_fee * self.protocol_fee_share_thousandth
            <= 0xffff_ffff_ffff_fffe_0000_0000_0000_0001) by (nonlinear_arith)
            requires
                0 <= net_fee <= 0xffff_ffff_ffff_ffff,
                0 <= self.protocol_fee_share_thousandth <= 0xffff_ffff_ffff_ffff,
        ;
        let protocol_fee: u128 = net_fee * (self.protocol_fee_share_thousandth as u128) / 1000;
        if protocol_fee > net_fee {
            return Err(OverflowError);
        }
        let lp_fee: u128 = net_fee - protocol_fee;
        Ok((output as u64, protocol_fee as u64, lp_fee as u64))
    }

    /// Quotes a swap of `input_x` of X for Y against reserves of
    /// `current_x` and `current_y`: `(output_to_user, protocol_fee, lp_fee)`.
    /// An input of zero, or an output that the reserve of Y cannot cover,
    /// gives three zeros.
    pub fn quote_x_to_y(&self, input_x: u64, current_x: u64, current_y: u64) -> (r: Result<
        (u64, u64, u64),
        OverflowError,
    >)
        ensures
            r == self.quote_x_to_y_spec(input_x, current_x, current_y),
    {
        if input_x == 0 {
            return Ok((0u64, 0u64, 0u64));
        }
        let target_x: u64 = match self.get_target_xy(current_x, current_y) {
            Ok((target_x, _target_y)) => target_x,
            Err(e) => { return Err(e); },
        };
        let (current_x_k, current_y_k): (u128, u128) = match self.curve_point(current_x) {
            Ok(point) => point,
            Err(e) => { return Err(e); },
        };
        let new_x_k: u128 = current_x_k + input_x as u128;
        let new_y_k: u128 = self.big_k / new_x_k;
        proof {
            vstd::arithmetic::div_mod::lemma_div_is_ordered_by_denominator(
                self.big_k as int,
                current_x_k as int,
                new_x_k as int,
            );
        }
        let output_before_fee_y: u128 = current_y_k - new_y_k;
        if output_before_fee_y >= current_y as u128 {
            return Ok((0u64, 0u64, 0u64));
        }
        let deficit: u64 = if current_x < target_x {
            target_x - current_x
        } else {
            0
        };
        self.split_fee(output_before_fee_y as u64, input_x, deficit)
    }

    /// Quotes a swap of `input_y` of Y for X against reserves of
    /// `current_x` and `current_y`: `(output_to_user, protocol_fee, lp_fee)`.
    /// An input of zero, or an output that the reserve of X cannot cover,
    /// gives three zeros.
    pub fn quote_y_to_x(&self, input_y: u64, current_x: u64, current_y: u64) -> (r: Result<
        (u64, u64, u64),
        OverflowError,
    >)
        ensures
            r == self.quote_y_to_x_spec(input_y, current_x, current_y),
    {
        if input_y == 0 {
            return Ok((0u64, 0u64, 0u64));
        }
        let target_y: u64 = match self.get_target_xy(current_x, current_y) {
            Ok((_target_x, target_y)) => target_y,
            Err(e) => { return Err(e); },
        };
        let (current_x_k, current_y_k): (u128, u128) = match self.curve_point(current_x) {
            Ok(point) => point,
            Err(e) => { return Err(e); },
        };
        let new_y_k: u128 = match current_y_k.checked_add(input_y as u128) {
            Some(v) => v,
            None => { return Err(OverflowError); },
        };
        let new_x_k: u128 = self.big_k / new_y_k;
        proof {
            lemma_quotient_returns(self.big_k as int, current_x_k as int, input_y as int);
        }
        let output_before_fee_x: u128 = current_x_k - new_x_k;
        if output_before_fee_x >= current_x as u128 {
            return Ok((0u64, 0u64, 0u64));
        }
        let deficit: u64 = if current_y < target_y {
            target_y - current_y
        } else {
            0
        };
        self.split_fee(output_before_fee_x as u64, input_y, deficit)
    }
}

/// The share of a trade, in percent, that closes a deficit: the smaller of
/// input and deficit, over the input.
pub open spec fn rebate_ratio(input: int, deficit: int) -> int {
    (if input <= deficit {
        input
    } else {
        deficit
    }) * 100 / input
}

/// Moving along the curve from `c` by a positive amount of the other asset
/// never lands beyond `c`: `k / (k / c + i) <= c`.
pub proof fn lemma_quotient_returns(k: int, c: int, i: int)
    requires
        0 <= k,
        0 < c,
        0 < i,
    ensures
        k / (k / c + i) <= c,
{
    let q = k / c;
    vstd::arithmetic::div_mod::lemma_fundamental_div_mod(k, c);
    vstd::arithmetic::div_mod::lemma_mod_bound(k, c);
    vstd::arithmetic::div_mod::lemma_div_pos_is_pos(k, c);
    assert(k < (q + i) * c) by (nonlinear_arith)
        requires
            k == c * q + k % c,
            0 <= k % c < c,
            0 <= q,
            1 <= i,
            0 < c,
    ;
    vstd::arithmetic::div_mod::lemma_multiply_divide_lt(k, q + i, c);
}

/// The rebate-eligible share of a trade lies between 0 and 100 percent.
pub proof fn lemma_rebate_ratio_bounds(input: int, deficit: int)
    requires
        0 < input,
        0 <= deficit,
    ensures
        0 <= rebate_ratio(input, deficit) <= 100,
{
    let eligible = if input <= deficit {
        input
    } else {
        deficit
    };
    assert(0 <= eligible * 100 / input <= 100) by (nonlinear_arith)
        requires
            0 <= eligible <= input,
            input > 0,
    ;
}

/// With a rebate percentage of at most 100, the rebate is never negative
/// and never more than the fee it is taken from.
pub proof fn lemma_rebate_at_most_fee(
    pair: SSTradingPair,
    raw_output: int,
    input: int,
    deficit: int,
)
    requires
        pair.rebate_percentage <= 100,
        0 <= raw_output,
        0 < input,
        0 <= deficit,
    ensures
        0 <= pair.rebate(raw_output, input, deficit) <= pair.fee_before_rebate(raw_output),
        0 <= pair.net_fee(raw_output, input, deficit) <= pair.fee_before_rebate(raw_output),
{
    lemma_rebate_ratio_bounds(input, deficit);
    let fee = pair.fee_before_rebate(raw_output);
    let ratio = rebate_ratio(input, deficit);
    let pct = pair.rebate_percentage as int;
    assert(0 <= raw_output * pair.fee_millionth) by (nonlinear_arith)
        requires
            0 <= raw_output,
            0 <= pair.fee_millionth,
    ;
    assert(0 <= fee);
    assert(0 <= fee * ratio <= fee * 100) by (nonlinear_arith)
        requires
            0 <= fee,
            0 <= ratio <= 100,
    ;
    let scaled = fee * ratio / 100;
    assert(0 <= scaled <= fee);
    assert(0 <= scaled * pct <= fee * 100) by (nonlinear_arith)
        requires
            0 <= scaled <= fee,
            0 <= pct <= 100,
    ;
}

/// The protocol's share of a net fee is never more than that fee when the
/// share is at most 1000 parts per thousand.
pub proof fn lemma_protocol_fee_at_most_net_fee(
    pair: SSTradingPair,
    raw_output: int,
    input: int,
    deficit: int,
)
    requires
        pair.protocol_fee_share_thousandth <= 1000,
        0 <= pair.net_fee(raw_output, input, deficit),
    ensures
        0 <= pair.protocol_fee(raw_output, input, deficit) <= pair.net_fee(
            raw_output,
            input,
            deficit,
        ),
{
    let net = pair.net_fee(raw_output, input, deficit);
    let share = pair.protocol_fee_share_thousandth as int;
    assert(0 <= net * share <= net * 1000) by (nonlinear_arith)
        requires
            0 <= net,
            0 <= share <= 1000,
    ;
}

/// A well-formed pool whose fee is at most the whole output always splits
/// a raw output of at most 64 bits: no step of the split can fail.
pub proof fn lemma_split_defined(pair: SSTradingPair, raw_output: int, input: int, deficit: int)
    requires
        pair.wf(),
        pair.fee_millionth <= MILLION,
        0 <= raw_output <= u64::MAX,
        0 < input,
        0 <= deficit,
    ensures
        pair.split_defined(raw_output, input, deficit),
{
    lemma_rebate_ratio_bounds(input, deficit);
    lemma_rebate_at_most_fee(pair, raw_output, input, deficit);
    lemma_protocol_fee_at_most_net_fee(pair, raw_output, input, deficit);
    let fee = pair.fee_before_rebate(raw_output);
    let ratio = rebate_ratio(input, deficit);
    let pct = pair.rebate_percentage as int;
    assert(0 <= raw_output * pair.fee_millionth <= raw_output * 1_000_000) by (nonlinear_arith)
        requires
            0 <= raw_output,
            0 <= pair.fee_millionth <= 1_000_000,
    ;
    assert(fee <= raw_output);
    assert(0 <= fee * ratio <= fee * 100) by (nonlinear_arith)
        requires
            0 <= fee,
            0 <= ratio <= 100,
    ;
    let scaled = fee * ratio / 100;
    assert(0 <= scaled * pct <= fee * 100) by (nonlinear_arith)
        requires
            0 <= scaled <= fee,
            0 <= pct <= 100,
    ;
}

/// Whenever the split succeeds, its three parts are what the formulas say
/// without any wrapping: the two fees add up to the net fee exactly, the
/// rebate is at most the fee, and output and net fee add up to the raw
/// output.
pub proof fn lemma_fee_split_exact(pair: SSTradingPair, raw_output: int, input: int, deficit: int)
    requires
        0 <= raw_output <= u64::MAX,
        pair.fee_split(raw_output, input, deficit) is Ok,
    ensures
        ({
            let (output, protocol_fee, lp_fee) = pair.fee_split(raw_output, input, deficit)->Ok_0;
            &&& pair.rebate(raw_output, input, deficit) <= pair.fee_before_rebate(raw_output)
            &&& protocol_fee == pair.protocol_fee(raw_output, input, deficit)
            &&& protocol_fee + lp_fee == pair.net_fee(raw_output, input, deficit)
            &&& output + pair.net_fee(raw_output, input, deficit) == raw_output
            &&& output + protocol_fee + lp_fee == raw_output
        }),
{
    let net = pair.net_fee(raw_output, input, deficit);
    let share = pair.protocol_fee_share_thousandth as int;
    assert(0 <= net * share) by (nonlinear_arith)
        requires
            0 <= net,
            0 <= share,
    ;
}

/// A quote of X for Y never hands out more than the curve releases: what
/// the user receives and the two fees add up to at most the raw output,
/// and to exactly the raw output whenever the reserve of Y covers it.
pub proof fn lemma_quote_x_to_y_conserves(
    pair: SSTradingPair,
    input_x: u64,
    current_x: u64,
    current_y: u64,
)
    requires
        pair.quote_x_to_y_spec(input_x, current_x, current_y) is Ok,
    ensures
        ({
            let (output, protocol_fee, lp_fee) = pair.quote_x_to_y_spec(
                input_x,
                current_x,
                current_y,
            )->Ok_0;
            let raw_output = pair.raw_output_y(input_x, current_x);
            &&& output + protocol_fee + lp_fee <= raw_output
            &&& input_x > 0 && raw_output < current_y ==> output + protocol_fee + lp_fee
                == raw_output
        }),
{
    let raw_output = pair.raw_output_y(input_x, current_x);
    if input_x > 0 {
        vstd::arithmetic::div_mod::lemma_div_is_ordered_by_denominator(
            pair.big_k as int,
            pair.curve_x(current_x),
            pair.curve_x(current_x) + input_x,
        );
        if raw_output < current_y {
            lemma_fee_split_exact(pair, raw_output, input_x as int, pair.deficit_x(current_x));
        }
    }
}

/// A quote of Y for X never hands out more than the curve releases: what
/// the user receives and the two fees add up to at most the raw output,
/// and to exactly the raw output whenever the reserve of X covers it.
pub proof fn lemma_quote_y_to_x_conserves(
    pair: SSTradingPair,
    input_y: u64,
    current_x: u64,
    current_y: u64,
)
    requires
        input_y > 0,
        pair.quote_y_to_x_spec(input_y, current_x, current_y) is Ok,
    ensures
        ({
            let (output, protocol_fee, lp_fee) = pair.quote_y_to_x_spec(
                input_y,
                current_x,
                current_y,
            )->Ok_0;
            let raw_output = pair.raw_output_x(input_y, current_x);
            &&& output + protocol_fee + lp_fee <= raw_output
            &&& raw_output < current_x ==> output + protocol_fee + lp_fee == raw_output
        }),
{
    let raw_output = pair.raw_output_x(input_y, current_x);
    lemma_quotient_returns(pair.big_k as int, pair.curve_x(current_x), input_y as int);
    if raw_output < current_x {
        lemma_fee_split_exact(
            pair,
            raw_output,
            input_y as int,
            pair.deficit_y(current_x, current_y),
        );
    }
}

/// A price update is defined only when the decimals of the two assets are
/// at most nineteen apart, and with equal decimals the multipliers are the
/// prices themselves.
pub proof fn lemma_price_update_defined(price_x: u64, price_y: u64, x_decimals: u8, y_decimals: u8)
    ensures
        price_update_defined(price_x, price_y, x_decimals, y_decimals) ==> x_decimals - y_decimals
            <= 19 && y_decimals - x_decimals <= 19,
        x_decimals == y_decimals ==> price_update_defined(price_x, price_y, x_decimals, y_decimals)
            && x_decimals_multiplier(x_decimals, y_decimals) == 1 && y_decimals_multiplier(
            x_decimals,
            y_decimals,
        ) == 1,
{
    if x_decimals > y_decimals {
        crate::math::lemma_pow10_u64_range((x_decimals - y_decimals) as nat);
    }
    if y_decimals > x_decimals {
        crate::math::lemma_pow10_u64_range((y_decimals - x_decimals) as nat);
    }
}

/// A well-formed pool whose fee is at most the whole output owes a quote
/// of X for Y whenever target and curve point are defined.
pub proof fn lemma_quote_x_to_y_is_owed(
    pair: SSTradingPair,
    input_x: u64,
    current_x: u64,
    current_y: u64,
)
    requires
        pair.wf(),
        pair.fee_millionth <= MILLION,
        pair.target_defined(current_x, current_y),
        pair.curve_defined(current_x),
    ensures
        pair.quote_x_to_y_spec(input_x, current_x, current_y) is Ok,
        0 <= pair.raw_output_y(input_x, current_x),
{
    vstd::arithmetic::div_mod::lemma_div_is_ordered_by_denominator(
        pair.big_k as int,
        pair.curve_x(current_x),
        pair.curve_x(current_x) + input_x,
    );
    let raw_output = pair.raw_output_y(input_x, current_x);
    if input_x > 0 && raw_output < current_y {
        lemma_split_defined(pair, raw_output, input_x as int, pair.deficit_x(current_x));
    }
}

/// A well-formed pool whose fee is at most the whole output owes a quote
/// of Y for X whenever target and curve point are defined and the new Y
/// coordinate fits in 128 bits.
pub proof fn lemma_quote_y_to_x_is_owed(
    pair: SSTradingPair,
    input_y: u64,
    current_x: u64,
    current_y: u64,
)
    requires
        pair.wf(),
        pair.fee_millionth <= MILLION,
        pair.target_defined(current_x, current_y),
        pair.curve_defined(current_x),
        pair.curve_y(current_x) + input_y <= u128::MAX,
    ensures
        pair.quote_y_to_x_spec(input_y, current_x, current_y) is Ok,
        input_y > 0 ==> 0 <= pair.raw_output_x(input_y, current_x),
{
    if input_y > 0 {
        lemma_quotient_returns(pair.big_k as int, pair.curve_x(current_x), input_y as int);
        let raw_output = pair.raw_output_x(input_y, current_x);
        if raw_output < current_x {
            assert(0 <= pair.deficit_y(current_x, current_y));
            lemma_split_defined(
                pair,
                raw_output,
                input_y as int,
                pair.deficit_y(current_x, current_y),
            );
        }
    }
}

/// An input of zero is quoted as three zeros in both directions, whatever
/// the state of the pool and of the reserves.
pub proof fn lemma_zero_input_quotes_zero(pair: SSTradingPair, current_x: u64, current_y: u64)
    ensures
        pair.quote_x_to_y_spec(0, current_x, current_y) == Ok::<(u64, u64, u64), OverflowError>(
            (0u64, 0u64, 0u64),
        ),
        pair.quote_y_to_x_spec(0, current_x, current_y) == Ok::<(u64, u64, u64), OverflowError>(
            (0u64, 0u64, 0u64),
        ),
{
}

} // verus!
