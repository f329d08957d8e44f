use vstd::prelude::*;

verus! {

/// A 32-byte account address (a mint, a pool, a payer).
#[derive(Clone, Copy, Debug, Eq)]
pub struct Address {
    pub bytes: [u8; 32],
}

impl PartialEq for Address {
    fn eq(&self, o: &Address) -> (r: bool) {
        let mut i: usize = 0;
        while i < 32
            invariant
                i <= 32,
                forall|j: int| 0 <= j < i ==> self.bytes[j] == o.bytes[j],
            decreases 32 - i,
        {
            if self.bytes[i] != o.bytes[i] {
                return false;
            }
            i = i + 1;
        }
        assert(self.bytes =~= o.bytes);
        true
    }
}

impl vstd::std_specs::cmp::PartialEqSpecImpl for Address {
    open spec fn obeys_eq_spec() -> bool {
        true
    }

    open spec fn eq_spec(&self, o: &Address) -> bool {
        self.bytes == o.bytes
    }
}

/// A decimal number `mantissa * 10^(-scale)`.
#[derive(Clone, Copy, Debug, PartialEq, Eq, Structural)]
pub struct DecimalValue {
    pub mantissa: i128,
    pub scale: u32,
}

/// The decimal zero.
pub fn decimal_zero() -> (r: DecimalValue)
    ensures
        r.mantissa == 0,
        r.scale == 0,
{
    DecimalValue { mantissa: 0, scale: 0 }
}

/// One hop of a route: a swap on one pool, with the fee it charges.
#[derive(Clone, Debug)]
pub struct SwapHop {
    pub amm_key: Address,
    pub label: String,
    pub input_mint: Address,
    pub output_mint: Address,
    pub in_amount: u64,
    pub out_amount: u64,
    pub fee_amount: u64,
    pub fee_mint: Address,
    pub percent: u8,
}

/// A routed quote for one directed swap.
#[derive(Clone, Debug)]
pub struct Quote {
    pub input_mint: Address,
    pub output_mint: Address,
    pub in_amount: u64,
    pub out_amount: u64,
    /// The least output that is acceptable.
    pub other_amount_threshold: u64,
    pub slippage_bps: u16,
    pub price_impact_pct: DecimalValue,
    pub route_plan: Vec<SwapHop>,
}

/// Folds the two legs of a round trip into one quote: it starts where the buy leg
/// starts, ends in the sell leg's output mint, must return `amount_in + tip_lamports`,
/// has no price impact, and routes through the buy hops and then the sell hops.
pub fn merge_quotes(quote_buy: Quote, quote_sell: Quote, amount_in: u64, tip_lamports: u64) -> (r: Quote)
    requires
        amount_in + tip_lamports <= u64::MAX,
    ensures
        is_merge_of(r, quote_buy, quote_sell, amount_in as int + tip_lamports as int),
{
    let mut merged = quote_buy;
    let mut sell_hops = quote_sell.route_plan;
    merged.output_mint = quote_sell.output_mint;
    merged.out_amount = amount_in + tip_lamports;
    merged.other_amount_threshold = amount_in + tip_lamports;
    merged.price_impact_pct = decimal_zero();
    merged.route_plan.append(&mut sell_hops);
    merged
}

/// `r` is the round trip of `quote_buy` then `quote_sell` that must return `total`.
pub open spec fn is_merge_of(r: Quote, quote_buy: Quote, quote_sell: Quote, total: int) -> bool {
    &&& r.input_mint == quote_buy.input_mint
    &&& r.in_amount == quote_buy.in_amount
    &&& r.slippage_bps == quote_buy.slippage_bps
    &&& r.output_mint == quote_sell.output_mint
    &&& r.out_amount == total
    &&& r.other_amount_threshold == total
    &&& r.price_impact_pct == decimal_zero_spec()
    &&& r.route_plan@ == quote_buy.route_plan@ + quote_sell.route_plan@
}

/// The decimal zero, as a value.
pub open spec fn decimal_zero_spec() -> DecimalValue {
    DecimalValue { mantissa: 0, scale: 0 }
}

/// The sum of the fees of the hops of `hops` that are charged in `mint`.
pub open spec fn fee_sum(hops: Seq<SwapHop>, mint: Address) -> int
    decreases hops.len(),
{
    if hops.len() == 0 {
        0
    } else {
        let last = hops.last();
        fee_sum(hops.drop_last(), mint) + if last.fee_mint == mint {
            last.fee_amount as int
        } else {
            0
        }
    }
}

pub proof fn lemma_fee_sum_bound(hops: Seq<SwapHop>, mint: Address)
    ensures
        0 <= fee_sum(hops, mint) <= hops.len() * (u64::MAX as int),
    decreases hops.len(),
{
    if hops.len() > 0 {
        lemma_fee_sum_bound(hops.drop_last(), mint);
    }
}

/// The total fee, in `mint`, over the hops of a route.
pub fn fee_total(hops: &Vec<SwapHop>, mint: Address) -> (r: u128)
    ensures
        r as int == fee_sum(hops@, mint),
{
    let mut total: u128 = 0;
    let mut i: usize = 0;
    while i < hops.len()
        invariant
            i <= hops@.len(),
            total as int == fee_sum(hops@.subrange(0, i as int), mint),
        decreases hops@.len() - i,
    {
        let hop = &hops[i];
        proof {
            let pre = hops@.subrange(0, i as int);
            assert(hops@.subrange(0, i + 1).drop_last() == pre);
            lemma_fee_sum_bound(pre, mint);
            assert(i * (u64::MAX as int) <= usize::MAX as int * (u64::MAX as int)) by (nonlinear_arith)
                requires
                    i <= usize::MAX,
            ;
        }
        if hop.fee_mint == mint {
            total = total + hop.fee_amount as u128;
        }
        i = i + 1;
    }
    assert(hops@.subrange(0, hops@.len() as int) == hops@);
    total
}

} // verus!
