//! What holds of arithmetic on numbers, whatever they are.
use crate::number::{
    clamped, difference, greater, is_finite, is_negative, is_nearest, lemma_middle,
    lemma_nearest_exact, lemma_passes_down, less, lesser, magnitude, nearest, nearest_byte,
    negated, one, passes, product, quotient, size_bits, sum, units, whole, zero, Num,
    INFINITY_BITS,
};
use vstd::arithmetic::power2::{lemma_pow2_adds, lemma_pow2_pos, pow2};
use vstd::prelude::*;

verus! {

/// A larger pattern has a larger size.
pub proof fn law_size_grows(j: nat, k: nat)
    requires
        j < k <= INFINITY_BITS,
    ensures
        magnitude(j) < magnitude(k),
    decreases k - j,
{
    lemma_middle((k - 1) as nat);
    if j < k - 1 {
        law_size_grows(j, (k - 1) as nat);
    }
}

/// A number lies below another just where its value does.
pub proof fn law_order_is_by_value(a: Num, b: Num)
    requires
        is_finite(a),
        is_finite(b),
    ensures
        less(a, b) <==> units(a) < units(b),
{
    let j = size_bits(a);
    let k = size_bits(b);
    if j < k {
        law_size_grows(j, k);
    }
    if k < j {
        law_size_grows(k, j);
    }
    if j > 0 {
        law_size_grows(0, j);
    }
    if k > 0 {
        law_size_grows(0, k);
    }
}

/// The smaller of two numbers is one of them, and neither lies below it.
pub proof fn law_lesser_is_the_least(a: Num, b: Num)
    requires
        is_finite(a),
        is_finite(b),
    ensures
        lesser(a, b) == a || lesser(a, b) == b,
        units(lesser(a, b)) <= units(a),
        units(lesser(a, b)) <= units(b),
{
    law_order_is_by_value(b, a);
}

/// The larger of two numbers is one of them, and neither lies above it.
pub proof fn law_greater_is_the_greatest(a: Num, b: Num)
    requires
        is_finite(a),
        is_finite(b),
    ensures
        greater(a, b) == a || greater(a, b) == b,
        units(greater(a, b)) >= units(a),
        units(greater(a, b)) >= units(b),
{
    law_order_is_by_value(a, b);
}

/// Where the sum of the values of two numbers is the value of a number, the sum
/// has that value.
pub proof fn law_sum_is_exact(a: Num, b: Num, r: Num)
    requires
        is_finite(a),
        is_finite(b),
        is_finite(r),
        units(r) == units(a) + units(b),
    ensures
        is_finite(sum(a, b)),
        units(sum(a, b)) == units(a) + units(b),
{
    let k = size_bits(r);
    lemma_nearest_exact(k, 1);
    assert(magnitude(k) * 1 == magnitude(k));
    if k > 0 {
        law_size_grows(0, k);
    }
}

/// Where the difference of the values of two numbers is the value of a number, the
/// difference has that value.
pub proof fn law_difference_is_exact(a: Num, b: Num, r: Num)
    requires
        is_finite(a),
        is_finite(b),
        is_finite(r),
        units(r) == units(a) - units(b),
    ensures
        is_finite(difference(a, b)),
        units(difference(a, b)) == units(a) - units(b),
{
    assert(units(negated(b)) == -units(b));
    law_sum_is_exact(a, negated(b), r);
}

/// Where the product of the values of two numbers is the value of a number, the
/// product has that value.
pub proof fn law_product_is_exact(a: Num, b: Num, r: Num)
    requires
        is_finite(a),
        is_finite(b),
        is_finite(r),
        units(r) * pow2(149) == units(a) * units(b),
    ensures
        is_finite(product(a, b)),
        units(product(a, b)) * pow2(149) == units(a) * units(b),
{
    let k = size_bits(r);
    let u = pow2(149);
    let x = magnitude(size_bits(a));
    let y = magnitude(size_bits(b));
    let z = magnitude(k);
    lemma_pow2_pos(149);
    assert(z * u == x * y) by (nonlinear_arith)
        requires
            units(r) == z || units(r) == -z,
            units(a) == x || units(a) == -x,
            units(b) == y || units(b) == -y,
            units(r) * u == units(a) * units(b),
            x >= 0,
            y >= 0,
            z >= 0,
            u > 0,
    ;
    lemma_nearest_exact(k, u);
    let p = product(a, b);
    assert(size_bits(p) == k);
    assert(units(p) * u == units(a) * units(b)) by (nonlinear_arith)
        requires
            is_negative(a) ==> units(a) == -x,
            !is_negative(a) ==> units(a) == x,
            is_negative(b) ==> units(b) == -y,
            !is_negative(b) ==> units(b) == y,
            is_negative(a) != is_negative(b) ==> units(p) == -z,
            is_negative(a) == is_negative(b) ==> units(p) == z,
            z * u == x * y,
    ;
}

/// Where the value of a number can be divided by a whole number, the quotient has
/// the value that comes out.
pub proof fn law_quotient_is_exact(a: Num, n: nat, r: Num)
    requires
        n > 0,
        is_finite(a),
        is_finite(r),
        units(r) * n == units(a),
    ensures
        is_finite(quotient(a, n)),
        units(quotient(a, n)) * n == units(a),
{
    let k = size_bits(r);
    let x = magnitude(size_bits(a));
    let z = magnitude(k);
    assert(z * n == x) by (nonlinear_arith)
        requires
            units(r) == z || units(r) == -z,
            units(a) == x || units(a) == -x,
            units(r) * n == units(a),
            x >= 0,
            z >= 0,
            n > 0,
    ;
    lemma_nearest_exact(k, n);
    let q = quotient(a, n);
    assert(size_bits(q) == k);
    assert(units(q) * n == units(a)) by (nonlinear_arith)
        requires
            is_negative(a) ==> units(a) == -x && units(q) == -z,
            !is_negative(a) ==> units(a) == x && units(q) == z,
            z * n == x,
    ;
}

/// A whole number that a number has as its value, is that number.
pub proof fn law_whole_is_exact(n: nat, r: Num)
    requires
        is_finite(r),
        units(r) == n * pow2(149),
    ensures
        is_finite(whole(n)),
        units(whole(n)) == n * pow2(149),
{
    let k = size_bits(r);
    lemma_pow2_adds(1, 149);
    vstd::arithmetic::power2::lemma2_to64();
    lemma_pow2_pos(149);
    let u = pow2(149);
    assert(n * u >= 0) by (nonlinear_arith);
    assert(magnitude(k) == n * u);
    assert(n * pow2(150) == 2 * (n * u)) by (nonlinear_arith)
        requires
            pow2(150) == 2 * u,
    ;
    lemma_nearest_exact(k, 1);
    assert(magnitude(k) * 1 == magnitude(k));
}

/// How far apart two values are.
pub open spec fn distance(a: int, b: int) -> int {
    if a < b {
        b - a
    } else {
        a - b
    }
}

/// No pattern of a finite number lies nearer to a ratio than the one that it is
/// rounded to.
proof fn lemma_none_is_nearer(twice: nat, d: nat, k: nat, j: nat)
    requires
        d > 0,
        is_nearest(twice, d, k),
        k < INFINITY_BITS,
        j < INFINITY_BITS,
    ensures
        distance(twice as int, 2 * (magnitude(k) * d) as int) <= distance(
            twice as int,
            2 * (magnitude(j) * d) as int,
        ),
{
    let m = magnitude(k);
    let n = magnitude(j);
    if j < k {
        let below = magnitude((k - 1) as nat);
        assert(passes(twice, d, (k - 1) as nat));
        lemma_middle((k - 1) as nat);
        if j < k - 1 {
            law_size_grows(j, (k - 1) as nat);
        }
        assert((below + m) * d >= n * d + m * d) by (nonlinear_arith)
            requires
                below >= n,
                d > 0,
        ;
        assert(m * d >= n * d) by (nonlinear_arith)
            requires
                m >= n,
                d > 0,
        ;
    } else if k < j {
        let above = magnitude(k + 1);
        assert(!passes(twice, d, k));
        lemma_middle(k);
        if k + 1 < j {
            law_size_grows(k + 1, j);
        }
        assert((m + above) * d <= m * d + n * d) by (nonlinear_arith)
            requires
                above <= n,
                d > 0,
        ;
        assert(m * d <= n * d) by (nonlinear_arith)
            requires
                m <= n,
                d > 0,
        ;
    }
}

pub(crate) proof fn lemma_there_is_a_nearest(twice: nat, d: nat, n: nat)
    requires
        d > 0,
        n < INFINITY_BITS,
        forall|j: nat| j < n ==> #[trigger] passes(twice, d, j),
    ensures
        exists|k: nat| is_nearest(twice, d, k),
    decreases INFINITY_BITS - n,
{
    if !passes(twice, d, n) {
        assert(is_nearest(twice, d, n));
    } else if n + 1 == INFINITY_BITS {
        assert(is_nearest(twice, d, INFINITY_BITS as nat));
    } else {
        assert forall|j: nat| j < n + 1 implies #[trigger] passes(twice, d, j) by {
            lemma_passes_down(twice, d, j, n);
        }
        lemma_there_is_a_nearest(twice, d, n + 1);
    }
}

/// No number lies nearer to the sum of the values of two numbers than their sum.
pub proof fn law_sum_is_nearest(a: Num, b: Num, r: Num)
    requires
        is_finite(a),
        is_finite(b),
        is_finite(r),
        is_finite(sum(a, b)),
    ensures
        distance(units(sum(a, b)), units(a) + units(b)) <= distance(
            units(r),
            units(a) + units(b),
        ),
{
    let total = units(a) + units(b);
    let twice = (if total < 0 { -2 * total } else { 2 * total }) as nat;
    lemma_there_is_a_nearest(twice, 1, 0);
    let k = nearest(twice, 1);
    let j = size_bits(r);
    assert(magnitude(j) * 1 == magnitude(j) && magnitude(k) * 1 == magnitude(k));
    if total != 0 {
        lemma_none_is_nearer(twice, 1, k, j);
        lemma_none_is_nearer(twice, 1, k, 0);
    }
}

/// A number from zero to one stays as it is; a smaller one becomes zero, a larger
/// one becomes one.
pub proof fn law_clamped_is_from_zero_to_one(a: Num)
    requires
        is_finite(a),
    ensures
        0 <= units(clamped(a)) <= units(one()),
        0 <= units(a) <= units(one()) ==> clamped(a) == a,
        units(a) < 0 ==> units(clamped(a)) == 0,
        units(one()) < units(a) ==> clamped(a) == one(),
{
    law_order_is_by_value(a, zero());
    law_order_is_by_value(one(), a);
    law_size_grows(0, size_bits(one()));
}

/// The byte of a number from 0 to 255 is the whole number nearest to it; a half
/// goes up.
pub proof fn law_byte_is_nearest(a: Num)
    requires
        is_finite(a),
        0 <= units(a) <= 255 * pow2(149),
    ensures
        -pow2(149) <= 2 * (nearest_byte(a) * pow2(149) - units(a)) <= pow2(149),
        2 * (nearest_byte(a) * pow2(149) - units(a)) != -pow2(149),
{
    lemma_pow2_pos(149);
    lemma_pow2_adds(1, 149);
    vstd::arithmetic::power2::lemma2_to64();
    let u = pow2(149);
    let m = magnitude(size_bits(a));
    if size_bits(a) > 0 {
        law_size_grows(0, size_bits(a));
    }
    assert(units(a) == m);
    let n = (2 * m + u) / (2 * u);
    assert(2 * m + u == (2 * u) * n + (2 * m + u) % (2 * u)) by {
        vstd::arithmetic::div_mod::lemma_fundamental_div_mod((2 * m + u) as int, (2 * u) as int);
    }
    assert(0 <= (2 * m + u) % (2 * u) < 2 * u);
    assert((2 * u) * n == 2 * (n * u)) by (nonlinear_arith);
    assert(n <= 255) by (nonlinear_arith)
        requires
            (2 * u) * n <= 2 * m + u,
            m <= 255 * u,
            u > 0,
    ;
    assert(nearest_byte(a) == if is_negative(a) { 0 } else { n });
    if is_negative(a) {
        assert(m == 0);
    }
}

} // verus!
