//! The pool's price.

use vstd::prelude::*;

verus! {

/// The rate at which the pool pays one unit for one unit.
pub const PAR_RATE: u32 = 1_000_000;

/// The amount paid out for `amount_in` at `rate`: `amount_in * rate` over a
/// million, rounded toward zero.
pub open spec fn quoted(amount_in: int, rate: int) -> int {
    if amount_in * rate >= 0 {
        (amount_in * rate) / (PAR_RATE as int)
    } else {
        -((-(amount_in * rate)) / (PAR_RATE as int))
    }
}

/// Whether the pool can work out the amount paid for `amount_in` at `rate`: the
/// product has to fit the type of amounts.
pub open spec fn quotable(amount_in: int, rate: int) -> bool {
    i128::MIN <= amount_in * rate <= i128::MAX
}

/// The amount paid out for `amount_in` at `rate`, or nothing where working it
/// out would overflow: a millionth of the product, to under one unit and never
/// away from zero.
pub fn quote(amount_in: i128, rate: u32) -> (amount_out: Option<i128>)
    ensures
        amount_out is Some <==> quotable(amount_in as int, rate as int),
        amount_out matches Some(out) ==> out == quoted(amount_in as int, rate as int),
        amount_out is Some <==> i128::MIN <= amount_in * rate <= i128::MAX,
        amount_out matches Some(out) ==> {
            &&& amount_in >= 0 ==> out * 1_000_000 <= amount_in * rate < (out + 1) * 1_000_000
            &&& amount_in <= 0 ==> (out - 1) * 1_000_000 < amount_in * rate <= out * 1_000_000
        },
{
    proof {
        products_have_the_sign_of_the_amount(amount_in as int, rate as int);
    }
    match amount_in.checked_mul(rate as i128) {
        Some(product) => Some(product / (PAR_RATE as i128)),
        None => None,
    }
}

/// At a rate that is not negative, a product has the sign of the amount.
proof fn products_have_the_sign_of_the_amount(amount_in: int, rate: int)
    requires
        rate >= 0,
    ensures
        amount_in >= 0 ==> amount_in * rate >= 0,
        amount_in <= 0 ==> amount_in * rate <= 0,
{
    assert(amount_in >= 0 ==> amount_in * rate >= 0) by (nonlinear_arith)
        requires
            rate >= 0,
    ;
    assert(amount_in <= 0 ==> amount_in * rate <= 0) by (nonlinear_arith)
        requires
            rate >= 0,
    ;
}

/// A price can be worked out wherever the product of amount and rate fits, and
/// nowhere else.
pub proof fn quotable_where_the_product_fits(amount_in: i128, rate: u32)
    ensures
        quotable(amount_in as int, rate as int) <==> i128::MIN <= amount_in * rate <= i128::MAX,
{
}

/// There is one price: the amount `out` whose millionfold is nearest to the
/// product from the side of zero.
pub proof fn the_price_is_unique(amount_in: int, rate: int, out: int)
    requires
        rate >= 0,
    ensures
        amount_in >= 0 ==> (out == quoted(amount_in, rate) <==> out * 1_000_000 <= amount_in * rate
            < (out + 1) * 1_000_000),
        amount_in <= 0 ==> (out == quoted(amount_in, rate) <==> (out - 1) * 1_000_000 < amount_in
            * rate <= out * 1_000_000),
        quoted(-amount_in, rate) == -quoted(amount_in, rate),
{
    products_have_the_sign_of_the_amount(amount_in, rate);
    assert((-amount_in) * rate == -(amount_in * rate)) by (nonlinear_arith);
}

/// At par the pool pays what it takes.
pub proof fn par_pays_one_for_one(amount_in: int)
    ensures
        quoted(amount_in, PAR_RATE as int) == amount_in,
{
}

/// The pool never pays more than the exact price, and less by under one unit.
pub proof fn rounding_favours_the_pool(amount_in: int, rate: int)
    requires
        amount_in >= 0,
        rate >= 0,
    ensures
        quoted(amount_in, rate) >= 0,
        quoted(amount_in, rate) * PAR_RATE <= amount_in * rate,
        amount_in * rate < (quoted(amount_in, rate) + 1) * PAR_RATE,
{
    assert(amount_in * rate >= 0) by (nonlinear_arith)
        requires
            amount_in >= 0,
            rate >= 0,
    ;
}

/// Paying more in never pays less out.
pub proof fn more_in_is_no_less_out(amount_in: int, more: int, rate: int)
    requires
        amount_in <= more,
        rate >= 0,
    ensures
        quoted(amount_in, rate) <= quoted(more, rate),
{
    assert(amount_in * rate <= more * rate) by (nonlinear_arith)
        requires
            amount_in <= more,
            rate >= 0,
    ;
}

/// Splitting a swap in two never pays more than the whole, and costs at most
/// one unit.
pub proof fn splitting_never_pays(a: int, b: int, rate: int)
    requires
        a >= 0,
        b >= 0,
        rate >= 0,
    ensures
        quoted(a, rate) + quoted(b, rate) <= quoted(a + b, rate),
        quoted(a + b, rate) <= quoted(a, rate) + quoted(b, rate) + 1,
{
    assert(a * rate >= 0 && b * rate >= 0 && (a + b) * rate == a * rate + b * rate)
        by (nonlinear_arith)
        requires
            a >= 0,
            b >= 0,
            rate >= 0,
    ;
}

} // verus!
