use vstd::prelude::*;

use crate::errors::CustomError;
use vstd::arithmetic::div_mod::{
    lemma_div_is_ordered, lemma_div_multiples_vanish, lemma_fundamental_div_mod,
    lemma_mod_division_less_than_divisor, lemma_multiply_divide_le,
};
use vstd::arithmetic::mul::{
    lemma_mul_inequality, lemma_mul_is_distributive_add, lemma_mul_is_distributive_add_other_way,
    lemma_mul_nonnegative,
};

verus! {

/// The payout a winning bet of `amount` is owed out of the combined pool
/// `pool` when the winning side's bets total `winning_total`: the floor of
/// the proportional share. Meaningful only for `winning_total > 0`.
pub open spec fn share(amount: int, pool: int, winning_total: int) -> int {
    amount * pool / winning_total
}

/// Sum of a sequence of bet amounts.
pub open spec fn amount_sum(amounts: Seq<u64>) -> int
    decreases amounts.len(),
{
    if amounts.len() == 0 {
        0
    } else {
        amounts[0] + amount_sum(amounts.drop_first())
    }
}

/// Sum of the shares owed to a sequence of winning bets.
pub open spec fn share_sum(amounts: Seq<u64>, pool: int, winning_total: int) -> int
    decreases amounts.len(),
{
    if amounts.len() == 0 {
        0
    } else {
        share(amounts[0] as int, pool, winning_total) + share_sum(
            amounts.drop_first(),
            pool,
            winning_total,
        )
    }
}

proof fn lemma_amount_sum_nonneg(amounts: Seq<u64>)
    ensures
        0 <= amount_sum(amounts),
    decreases amounts.len(),
{
    if amounts.len() > 0 {
        lemma_amount_sum_nonneg(amounts.drop_first());
    }
}

/// Floor division distributes over addition only up to rounding:
/// `a / w + b / w <= (a + b) / w` for non-negative numerators.
proof fn lemma_div_add_le(a: int, b: int, w: int)
    requires
        0 <= a,
        0 <= b,
        0 < w,
    ensures
        a / w + b / w <= (a + b) / w,
{
    lemma_fundamental_div_mod(a, w);
    lemma_fundamental_div_mod(b, w);
    lemma_mod_division_less_than_divisor(a, w);
    lemma_mod_division_less_than_divisor(b, w);
    lemma_mul_is_distributive_add(w, a / w, b / w);
    lemma_div_is_ordered(w * (a / w + b / w), a + b, w);
    lemma_div_multiples_vanish(a / w + b / w, w);
}

proof fn lemma_share_sum_le_weighted(amounts: Seq<u64>, pool: int, winning_total: int)
    requires
        0 < winning_total,
        0 <= pool,
    ensures
        share_sum(amounts, pool, winning_total) <= amount_sum(amounts) * pool / winning_total,
    decreases amounts.len(),
{
    if amounts.len() == 0 {
        assert(0 * pool == 0) by (nonlinear_arith);
    } else {
        let rest = amounts.drop_first();
        lemma_share_sum_le_weighted(rest, pool, winning_total);
        lemma_amount_sum_nonneg(rest);
        lemma_mul_nonnegative(amounts[0] as int, pool);
        lemma_mul_nonnegative(amount_sum(rest), pool);
        lemma_div_add_le(amounts[0] * pool, amount_sum(rest) * pool, winning_total);
        lemma_mul_is_distributive_add_other_way(pool, amounts[0] as int, amount_sum(rest));
        assert(amounts[0] * pool + amount_sum(rest) * pool == amount_sum(amounts) * pool);
    }
}

/// Law: the shares owed to winning bets never exceed the pool they are paid
/// from. Whenever the winning bets' amounts sum to at most the winning
/// side's recorded total, the floor shares of the combined pool sum to at
/// most that pool; the difference is rounding dust that stays in the vault.
pub proof fn lemma_share_sum_le_pool(amounts: Seq<u64>, pool: int, winning_total: int)
    requires
        0 < winning_total,
        0 <= pool,
        amount_sum(amounts) <= winning_total,
    ensures
        share_sum(amounts, pool, winning_total) <= pool,
{
    lemma_share_sum_le_weighted(amounts, pool, winning_total);
    lemma_amount_sum_nonneg(amounts);
    lemma_mul_inequality(amount_sum(amounts), winning_total, pool);
    lemma_multiply_divide_le(amount_sum(amounts) * pool, winning_total, pool);
}

/// Computes the floor share of one winning bet, doing the multiplication in
/// a width wide enough that it cannot overflow, and narrowing the quotient
/// back to the stored width. Fails exactly when the share does not fit.
pub fn compute_share(amount: u64, pool: u64, winning_total: u64) -> (r: Result<u64, CustomError>)
    requires
        winning_total > 0,
    ensures
        r is Ok <==> share(amount as int, pool as int, winning_total as int) <= u64::MAX,
        r matches Ok(v) ==> v == share(amount as int, pool as int, winning_total as int),
        r is Err ==> r == Err::<u64, CustomError>(CustomError::MathOverflow),
{
    proof {
        lemma_mul_inequality(amount as int, u64::MAX as int, pool as int);
        lemma_mul_inequality(pool as int, u64::MAX as int, u64::MAX as int);
        assert((amount as int) * (pool as int) <= (u64::MAX as int) * (u64::MAX as int)) by (
        nonlinear_arith)
            requires
                0 <= amount as int <= u64::MAX as int,
                0 <= pool as int <= u64::MAX as int,
        ;
    }
    let wide: u128 = (amount as u128) * (pool as u128);
    let quotient: u128 = wide / (winning_total as u128);
    proof {
        lemma_div_is_ordered(0, wide as int, winning_total as int);
    }
    if quotient > u64::MAX as u128 {
        Err(CustomError::MathOverflow)
    } else {
        Ok(quotient as u64)
    }
}

} // verus!
