//! Ratio arithmetic for share issuance, redemption and loan fees.
//!
//! All three ratio rules round down, so that rounding error always favours
//! the pool and its existing share holders, never the caller.

use vstd::arithmetic::div_mod::{
    lemma_div_is_ordered, lemma_div_multiples_vanish, lemma_div_pos_is_pos,
    lemma_fundamental_div_mod, lemma_mod_bound, lemma_multiply_divide_lt,
};
use vstd::arithmetic::mul::{
    lemma_mul_inequality, lemma_mul_is_commutative, lemma_mul_is_distributive_add,
    lemma_mul_nonnegative,
};
use vstd::prelude::*;

verus! {

/// Shares minted for depositing `amount` into a pool of `reserve` units with
/// `supply` shares outstanding: one share per unit on bootstrap, otherwise
/// the proportional amount rounded down.
pub open spec fn shares_for_deposit(amount: int, supply: int, reserve: int) -> int {
    if supply == 0 {
        amount
    } else {
        (amount * supply) / reserve
    }
}

/// Reserve released for redeeming `shares` of `supply` outstanding shares
/// against `reserve` units: the proportional amount rounded down.
pub open spec fn reserve_for_shares(shares: int, supply: int, reserve: int) -> int {
    (shares * reserve) / supply
}

/// The flash-loan fee on `principal` at the rate `fee_num / fee_den`,
/// rounded down.
pub open spec fn fee_amount(principal: int, fee_num: int, fee_den: int) -> int {
    (principal * fee_num) / fee_den
}

/// Computes `a * b / d` exactly on a 128-bit intermediate, so the product
/// cannot overflow; `None` when the quotient does not fit in a `u64`.
pub fn mul_div_u64(a: u64, b: u64, d: u64) -> (r: Option<u64>)
    requires
        d > 0,
    ensures
        r is Some <==> (a as int * b as int) / (d as int) <= u64::MAX,
        r matches Some(q) ==> q == (a as int * b as int) / (d as int),
{
    proof {
        assert((a as int) * (b as int) <= u128::MAX) by (nonlinear_arith)
            requires
                0 <= a <= u64::MAX,
                0 <= b <= u64::MAX;
    }
    let prod: u128 = (a as u128) * (b as u128);
    let q: u128 = prod / (d as u128);
    if q <= u64::MAX as u128 {
        Some(q as u64)
    } else {
        None
    }
}

/// The quotient of a floor division, multiplied back by the divisor, gives
/// back at most the dividend.
proof fn lemma_div_times_divisor_le(x: int, d: int)
    requires
        x >= 0,
        d > 0,
    ensures
        0 <= (x / d) * d <= x,
{
    lemma_fundamental_div_mod(x, d);
    lemma_mod_bound(x, d);
    lemma_div_pos_is_pos(x, d);
    lemma_mul_is_commutative(x / d, d);
    lemma_mul_nonnegative(x / d, d);
}

/// Rounding in `shares_for_deposit` never favours the depositor: on
/// bootstrap the mint is exactly one share per unit, and otherwise the
/// shares minted, valued at the pre-deposit ratio, never exceed the amount
/// paid in.
pub proof fn lemma_deposit_rounding_favors_pool(amount: u64, supply: u64, reserve: u64)
    requires
        supply == 0 <==> reserve == 0,
    ensures
        supply == 0 ==> shares_for_deposit(
            amount as int,
            supply as int,
            reserve as int,
        ) == amount,
        shares_for_deposit(amount as int, supply as int, reserve as int) * (reserve as int)
            <= (amount as int) * (supply as int),
{
    let a = amount as int;
    let s = supply as int;
    let r = reserve as int;
    if s == 0 {
        assert(shares_for_deposit(a, s, r) * r == 0);
        assert(a * s == 0);
    } else {
        lemma_mul_nonnegative(a, s);
        lemma_div_times_divisor_le(a * s, r);
    }
}

/// A deposit followed immediately by redeeming the minted shares releases
/// at most the deposited amount: rounding down on both legs means the round
/// trip can lose value to the pool, never gain it.
pub proof fn lemma_deposit_withdraw_round_trip(amount: u64, supply: u64, reserve: u64)
    requires
        amount > 0,
        supply == 0 <==> reserve == 0,
    ensures
        ({
            let m = shares_for_deposit(amount as int, supply as int, reserve as int);
            reserve_for_shares(m, supply + m, reserve + amount) <= amount
        }),
{
    let a = amount as int;
    let s = supply as int;
    let r = reserve as int;
    let m = shares_for_deposit(a, s, r);
    if s == 0 {
        assert(m == a);
        lemma_div_multiples_vanish(a, a);
        assert(reserve_for_shares(a, 0 + a, 0 + a) == (a * a) / a);
    } else {
        lemma_mul_nonnegative(a, s);
        lemma_div_pos_is_pos(a * s, r);
        lemma_div_times_divisor_le(a * s, r);
        assert(m * r <= a * s);
        // m * (r + a) == m * r + m * a <= a * s + a * m == a * (s + m)
        lemma_mul_is_distributive_add(m, r, a);
        lemma_mul_is_commutative(m, a);
        lemma_mul_is_distributive_add(a, s, m);
        assert(m * (r + a) <= a * (s + m));
        lemma_mul_is_commutative(a, s + m);
        lemma_div_is_ordered(m * (r + a), (s + m) * a, s + m);
        lemma_div_multiples_vanish(a, s + m);
        assert(reserve_for_shares(m, s + m, r + a) <= a);
    }
}

/// Redeeming at most the whole supply releases at most the whole reserve.
pub proof fn lemma_withdraw_within_reserve(shares: u64, supply: u64, reserve: u64)
    requires
        0 < supply,
        shares <= supply,
    ensures
        0 <= reserve_for_shares(shares as int, supply as int, reserve as int) <= reserve,
{
    let x = shares as int;
    let s = supply as int;
    let r = reserve as int;
    lemma_mul_nonnegative(x, r);
    lemma_div_pos_is_pos(x * r, s);
    lemma_mul_inequality(x, s, r);
    lemma_div_is_ordered(x * r, s * r, s);
    lemma_div_multiples_vanish(r, s);
}

/// Redeeming the whole supply releases the whole reserve, exactly.
pub proof fn lemma_withdraw_all(supply: u64, reserve: u64)
    requires
        0 < supply,
    ensures
        reserve_for_shares(supply as int, supply as int, reserve as int) == reserve,
{
    lemma_div_multiples_vanish(reserve as int, supply as int);
}

/// Redeeming strictly less than the whole supply leaves part of a nonzero
/// reserve in the pool.
pub proof fn lemma_withdraw_partial(shares: u64, supply: u64, reserve: u64)
    requires
        shares < supply,
        0 < reserve,
    ensures
        reserve_for_shares(shares as int, supply as int, reserve as int) < reserve,
{
    let x = shares as int;
    let s = supply as int;
    let r = reserve as int;
    assert(x * r < s * r) by (nonlinear_arith)
        requires
            0 <= x < s,
            0 < r;
    lemma_mul_is_commutative(s, r);
    lemma_multiply_divide_lt(x * r, s, r);
}

} // verus!
