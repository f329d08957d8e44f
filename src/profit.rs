use vstd::prelude::*;
use crate::dex::Dex;
use crate::error::ArbError;
use crate::fraction::{
    apply_decay, clamp_decay, effective_decay, in_unit_interval, is_fee_fraction, lemma_scaled_at_most,
    lemma_scaled_by_one, scale_amount,
    scaled_amount, Fraction,
};
use crate::quote::{fee_sum, fee_total, is_merge_of, merge_quotes, Address, Quote};

verus! {

/// What the quoting service is asked for one leg.
#[derive(Clone, Copy, Debug)]
pub struct LegRequest {
    pub input_mint: Address,
    pub output_mint: Address,
    pub amount: u64,
    pub dexes: Dex,
    pub slippage_bps: u16,
    pub only_direct_routes: bool,
}

/// The slippage tolerance asked for on both legs.
pub const LEG_SLIPPAGE_BPS: u16 = 0;

/// The request for the buy leg (native asset to target), or `UnsupportedDirection`
/// when `token_in` is not the native asset; nothing is requested then.
pub fn buy_leg_request(
    amount_in: u64,
    token_in: Address,
    token_out: Address,
    native_mint: Address,
    dexes: Dex,
) -> (r: Result<LegRequest, ArbError>)
    ensures
        token_in != native_mint <==> r == Err::<LegRequest, ArbError>(ArbError::UnsupportedDirection),
        token_in == native_mint ==> r == Ok::<LegRequest, ArbError>(
            LegRequest {
                input_mint: token_in,
                output_mint: token_out,
                amount: amount_in,
                dexes,
                slippage_bps: LEG_SLIPPAGE_BPS,
                only_direct_routes: true,
            },
        ),
{
    if token_in != native_mint {
        return Err(ArbError::UnsupportedDirection);
    }
    Ok(
        LegRequest {
            input_mint: token_in,
            output_mint: token_out,
            amount: amount_in,
            dexes,
            slippage_bps: LEG_SLIPPAGE_BPS,
            only_direct_routes: true,
        },
    )
}

/// `q` with its output amount and least acceptable output scaled down by `d`.
pub open spec fn decayed(q: Quote, d: Fraction) -> Quote {
    Quote {
        out_amount: scaled_amount(q.out_amount as int, d) as u64,
        other_amount_threshold: scaled_amount(q.other_amount_threshold as int, d) as u64,
        ..q
    }
}

/// Applies a configured decay fraction (clamped into (0, 1]) to the output
/// amount and the least acceptable output of a quote, truncating.
pub fn decay_quote(q: Quote, decay: Fraction) -> (r: Quote)
    ensures
        r == decayed(q, effective_decay(decay)),
        r.out_amount <= q.out_amount,
        r.other_amount_threshold <= q.other_amount_threshold,
{
    let d = clamp_decay(decay);
    let mut r = q;
    r.out_amount = apply_decay(r.out_amount, d);
    r.other_amount_threshold = apply_decay(r.other_amount_threshold, d);
    r
}

/// The request for the sell leg: the target back to the native asset, for the
/// (decayed) output of the buy leg.
pub fn sell_leg_request(quote_buy: &Quote, token_in: Address, token_out: Address, dexes: Dex) -> (r: LegRequest)
    ensures
        r == (LegRequest {
            input_mint: token_out,
            output_mint: token_in,
            amount: quote_buy.out_amount,
            dexes,
            slippage_bps: LEG_SLIPPAGE_BPS,
            only_direct_routes: true,
        }),
{
    LegRequest {
        input_mint: token_out,
        output_mint: token_in,
        amount: quote_buy.out_amount,
        dexes,
        slippage_bps: LEG_SLIPPAGE_BPS,
        only_direct_routes: true,
    }
}

/// Decays the buy leg's quote and derives the sell leg's request from it.
pub fn after_buy_quote(
    quote_buy: Quote,
    buy_decay: Fraction,
    token_in: Address,
    token_out: Address,
    dexes: Dex,
) -> (r: (Quote, LegRequest))
    ensures
        r.0 == decayed(quote_buy, effective_decay(buy_decay)),
        r.1 == (LegRequest {
            input_mint: token_out,
            output_mint: token_in,
            amount: r.0.out_amount,
            dexes,
            slippage_bps: LEG_SLIPPAGE_BPS,
            only_direct_routes: true,
        }),
{
    let q = decay_quote(quote_buy, buy_decay);
    let req = sell_leg_request(&q, token_in, token_out, dexes);
    (q, req)
}

/// The estimated profit of a round trip: what the sell leg returns, less the
/// principal, the buy leg's fees charged in the native asset (the sell leg's
/// fees are left out), and the partner fee on the principal.
pub open spec fn profit_of(
    amount_in: u64,
    quote_buy: Quote,
    quote_sell: Quote,
    native_mint: Address,
    partner_fee: Fraction,
) -> int {
    quote_sell.out_amount as int - amount_in as int - fee_sum(quote_buy.route_plan@, native_mint)
        - scaled_amount(amount_in as int, partner_fee)
}

/// The outcome of evaluating one round trip.
#[derive(Clone, Debug)]
pub struct ProfitReport {
    pub profit: i128,
    pub quote_buy: Quote,
    pub quote_sell: Quote,
}

/// The profit as it is reported: exact, but not below `i128::MIN`.
pub open spec fn reported_profit(p: int) -> int {
    if p < i128::MIN as int {
        i128::MIN as int
    } else {
        p
    }
}

/// Decays the sell leg's quote and computes the signed profit against the
/// (already decayed) buy leg.
pub fn caculate_profit(
    amount_in: u64,
    quote_buy: Quote,
    quote_sell: Quote,
    sell_decay: Fraction,
    native_mint: Address,
    partner_fee: Fraction,
) -> (r: ProfitReport)
    requires
        is_fee_fraction(partner_fee),
    ensures
        r.quote_buy == quote_buy,
        r.quote_sell == decayed(quote_sell, effective_decay(sell_decay)),
        r.profit as int == reported_profit(
            profit_of(amount_in, r.quote_buy, r.quote_sell, native_mint, partner_fee),
        ),
{
    let sell = decay_quote(quote_sell, sell_decay);
    let fees = fee_total(&quote_buy.route_plan, native_mint);
    let partner = scale_amount(amount_in, partner_fee);
    proof {
        lemma_scaled_at_most(amount_in as int, partner_fee);
    }
    let base: i128 = sell.out_amount as i128 - amount_in as i128 - partner as i128;
    // how far `base` lies above `i128::MIN`
    let room: u128 = if base >= 0 {
        base as u128 + 0x8000_0000_0000_0000_0000_0000_0000_0000u128
    } else {
        (base - i128::MIN) as u128
    };
    let half: u128 = 0x8000_0000_0000_0000_0000_0000_0000_0000u128;
    let profit: i128 = if fees > room {
        i128::MIN
    } else {
        // `left` is how far the profit lies above `i128::MIN`
        let left: u128 = room - fees;
        if left >= half {
            (left - half) as i128
        } else {
            i128::MIN + left as i128
        }
    };
    assert(sell.out_amount as int - amount_in as int - fees as int - partner as int == profit_of(
        amount_in,
        quote_buy,
        sell,
        native_mint,
        partner_fee,
    ));
    ProfitReport { profit, quote_buy, quote_sell: sell }
}

/// What one evaluated attempt leads to.
#[derive(Clone, Debug)]
pub enum AttemptPlan {
    /// The profit is too small to act on.
    Skip,
    /// Submit the round trip, paying `tip_lamports` to the relay.
    Execute { tip_lamports: u64, quote: Quote },
}

/// The relay tip for a profit: half of it, at most `tip_ceiling`, and at
/// least one lamport.
pub open spec fn tip_for(profit: int, tip_ceiling: u64) -> int {
    if profit / 2 < 1 {
        1
    } else if profit / 2 <= tip_ceiling as int {
        profit / 2
    } else {
        tip_ceiling as int
    }
}

/// An attempt goes ahead when its profit reaches `min_profit` and the merged
/// quote can return the principal plus the tip.
pub open spec fn should_execute(amount_in: u64, profit: int, min_profit: u64, tip_ceiling: u64) -> bool {
    &&& profit >= min_profit as int
    &&& amount_in as int + tip_for(profit, tip_ceiling) <= u64::MAX as int
}

/// Decides whether an evaluated round trip is submitted, with which tip, and
/// builds the merged quote that the submission is planned from.
pub fn plan_attempt(amount_in: u64, report: ProfitReport, min_profit: u64, tip_ceiling: u64) -> (r: AttemptPlan)
    requires
        tip_ceiling > 0,
    ensures
        !should_execute(amount_in, report.profit as int, min_profit, tip_ceiling) <==> r is Skip,
        r matches AttemptPlan::Execute { tip_lamports, quote } ==> {
            &&& tip_lamports == tip_for(report.profit as int, tip_ceiling)
            &&& 0 < tip_lamports <= tip_ceiling
            &&& is_merge_of(quote, report.quote_buy, report.quote_sell, amount_in + tip_lamports)
        },
{
    if report.profit < min_profit as i128 {
        return AttemptPlan::Skip;
    }
    let half: i128 = report.profit / 2;
    let tip: u64 = if half < 1 {
        1
    } else if half <= tip_ceiling as i128 {
        half as u64
    } else {
        tip_ceiling
    };
    if tip > u64::MAX - amount_in {
        return AttemptPlan::Skip;
    }
    let quote = merge_quotes(report.quote_buy, report.quote_sell, amount_in, tip);
    AttemptPlan::Execute { tip_lamports: tip, quote }
}

/// A relay tip held to `tip_ceiling`.
pub fn cap_tip(tip_lamports: u64, tip_ceiling: u64) -> (r: u64)
    ensures
        r == if tip_lamports <= tip_ceiling {
            tip_lamports
        } else {
            tip_ceiling
        },
{
    if tip_lamports <= tip_ceiling {
        tip_lamports
    } else {
        tip_ceiling
    }
}

/// A decay fraction outside (0, 1] leaves both amounts of a quote as quoted.
pub proof fn lemma_decay_outside_unit_interval_keeps_quote(q: Quote, decay: Fraction)
    requires
        !in_unit_interval(decay),
    ensures
        decayed(q, effective_decay(decay)) == q,
{
    lemma_scaled_by_one(q.out_amount as int);
    lemma_scaled_by_one(q.other_amount_threshold as int);
}

} // verus!
