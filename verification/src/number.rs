//! Single-precision numbers, held by their IEEE 754 binary32 bit pattern.
//!
//! Every operation is stated exactly: the exact result is taken, and rounded to
//! the nearest representable number, ties going to the even pattern.
use crate::bignat::{BigNat, Side};
use vstd::arithmetic::power2::{lemma_pow2_pos, lemma_pow2_unfold, pow2};
use vstd::prelude::*;

verus! {

/// The pattern of positive infinity; finite magnitudes lie below it.
pub const INFINITY_BITS: u32 = 0x7f80_0000;

/// The weight of the sign bit.
pub const SIGN_BIT: u32 = 0x8000_0000;

/// The pattern used for every number that is not one.
pub const NAN_BITS: u32 = 0x7fc0_0000;

/// The pattern of one.
pub const ONE_BITS: u32 = 0x3f80_0000;

/// A binary32 number.
#[derive(Clone, Copy, PartialEq, Eq, Debug, Structural)]
pub struct Num {
    pub bits: u32,
}

impl DeepView for Num {
    type V = Num;

    open spec fn deep_view(&self) -> Num {
        *self
    }
}

/// The size of the finite pattern `k`, counted in units of `2^-149`. For the
/// pattern of infinity it is what the next power of two would be.
pub open spec fn magnitude(k: nat) -> nat {
    if k < 0x80_0000 {
        k
    } else {
        (0x80_0000 + k % 0x80_0000) * pow2((k / 0x80_0000 - 1) as nat)
    }
}

/// Whether the ratio `twice / (2 * d)` of units lies beyond the middle between
/// the patterns `k` and `k + 1`, a tie counting as beyond where `k` is odd.
pub open spec fn passes(twice: nat, d: nat, k: nat) -> bool {
    let middle = (magnitude(k) + magnitude(k + 1)) * d;
    twice > middle || (twice == middle && k % 2 == 1)
}

/// Whether `k` is the pattern nearest to the ratio `twice / (2 * d)` of units.
pub open spec fn is_nearest(twice: nat, d: nat, k: nat) -> bool {
    &&& k <= INFINITY_BITS
    &&& forall|j: nat| j < k ==> #[trigger] passes(twice, d, j)
    &&& k < INFINITY_BITS ==> !passes(twice, d, k)
}

/// The pattern nearest to the ratio `twice / (2 * d)` of units.
pub open spec fn nearest(twice: nat, d: nat) -> nat {
    choose|k: nat| is_nearest(twice, d, k)
}

proof fn lemma_nearest_unique(twice: nat, d: nat, k: nat)
    requires
        is_nearest(twice, d, k),
    ensures
        nearest(twice, d) == k,
{
    let m = nearest(twice, d);
    assert(is_nearest(twice, d, m));
    if m < k {
        assert(passes(twice, d, m));
    }
    if k < m {
        assert(passes(twice, d, k));
    }
}

/// The middle above `k` as an odd number shifted left.
pub(crate) proof fn lemma_middle(k: nat)
    requires
        k < INFINITY_BITS,
    ensures
        k < 0x80_0000 ==> magnitude(k) + magnitude(k + 1) == 2 * k + 1,
        k >= 0x80_0000 ==> magnitude(k) + magnitude(k + 1) == (2 * (0x80_0000 + k % 0x80_0000) + 1)
            * pow2((k / 0x80_0000 - 1) as nat),
        magnitude(k) < magnitude(k + 1),
{
    vstd::arithmetic::power2::lemma2_to64();
    if k < 0x80_0000 {
        if k + 1 == 0x80_0000 {
            assert(0x80_0000nat * pow2(0) == 0x80_0000);
        }
    } else {
        let f = k % 0x80_0000;
        let e = k / 0x80_0000;
        let p = pow2((e - 1) as nat);
        lemma_pow2_pos((e - 1) as nat);
        if f + 1 < 0x80_0000 {
            assert((k + 1) / 0x80_0000 == e && (k + 1) % 0x80_0000 == f + 1);
            assert((0x80_0000 + f) * p + (0x80_0000 + (f + 1)) * p == (2 * (0x80_0000 + f) + 1) * p)
                by (nonlinear_arith);
            assert((0x80_0000 + f) * p < (0x80_0000 + (f + 1)) * p) by (nonlinear_arith)
                requires
                    p > 0,
            ;
        } else {
            assert((k + 1) / 0x80_0000 == e + 1 && (k + 1) % 0x80_0000 == 0);
            lemma_pow2_unfold(e);
            assert(pow2(e) == 2 * p);
            assert((0x80_0000 + f) * p + 0x80_0000 * (2 * p) == (2 * (0x80_0000 + f) + 1) * p)
                by (nonlinear_arith)
                requires
                    f + 1 == 0x80_0000,
            ;
            assert((0x80_0000 + f) * p < 0x80_0000 * (2 * p)) by (nonlinear_arith)
                requires
                    p > 0,
                    f + 1 == 0x80_0000,
            ;
        }
    }
}

pub(crate) proof fn lemma_passes_down(twice: nat, d: nat, j: nat, k: nat)
    requires
        j <= k < INFINITY_BITS,
        d > 0,
        passes(twice, d, k),
    ensures
        passes(twice, d, j),
    decreases k - j,
{
    if j < k {
        lemma_middle(k);
        lemma_middle((k - 1) as nat);
        let lo = magnitude((k - 1) as nat) + magnitude(k);
        let hi = magnitude(k) + magnitude(k + 1);
        assert(lo * d < hi * d) by (nonlinear_arith)
            requires
                lo < hi,
                d > 0,
        ;
        assert(passes(twice, d, (k - 1) as nat));
        lemma_passes_down(twice, d, j, (k - 1) as nat);
    }
}

/// A ratio beyond every middle rounds to infinity.
pub(crate) proof fn lemma_nearest_infinite(twice: nat, d: nat)
    requires
        d > 0,
        passes(twice, d, (INFINITY_BITS - 1) as nat),
    ensures
        nearest(twice, d) == INFINITY_BITS,
{
    assert forall|j: nat| j < INFINITY_BITS implies #[trigger] passes(twice, d, j) by {
        lemma_passes_down(twice, d, j, (INFINITY_BITS - 1) as nat);
    }
    lemma_nearest_unique(twice, d, INFINITY_BITS as nat);
}

/// Nearest to a ratio that a pattern has itself, is that pattern.
pub(crate) proof fn lemma_nearest_exact(k: nat, d: nat)
    requires
        k < INFINITY_BITS,
        d > 0,
    ensures
        nearest(2 * (magnitude(k) * d), d) == k,
{
    let twice = 2 * (magnitude(k) * d);
    let m = magnitude(k);
    let above = magnitude(k + 1);
    lemma_middle(k);
    assert((m + above) * d > 2 * (m * d)) by (nonlinear_arith)
        requires
            m < above,
            d > 0,
    ;
    if k > 0 {
        let below = magnitude((k - 1) as nat);
        lemma_middle((k - 1) as nat);
        assert((below + m) * d < 2 * (m * d)) by (nonlinear_arith)
            requires
                below < m,
                d > 0,
        ;
        assert(passes(twice, d, (k - 1) as nat));
        assert forall|j: nat| j < k implies #[trigger] passes(twice, d, j) by {
            lemma_passes_down(twice, d, j, (k - 1) as nat);
        }
    }
    lemma_nearest_unique(twice, d, k);
}

/// The last middle lies below `2^278` units.
pub(crate) proof fn lemma_last_middle()
    ensures
        magnitude((INFINITY_BITS - 1) as nat) + magnitude(INFINITY_BITS as nat) < pow2(278),
{
    let k = (INFINITY_BITS - 1) as nat;
    lemma_middle(k);
    assert(k / 0x80_0000 == 254 && k % 0x80_0000 == 0x7f_ffff);
    vstd::arithmetic::power2::lemma_pow2_adds(25, 253);
    vstd::arithmetic::power2::lemma2_to64();
    let p = pow2(253);
    lemma_pow2_pos(253);
    assert(0x1ff_ffff * p < 0x200_0000 * p) by (nonlinear_arith)
        requires
            p > 0,
    ;
}

/// A ratio at or below the first middle rounds to zero.
pub(crate) proof fn lemma_nearest_nothing(twice: nat, d: nat)
    requires
        twice <= d,
    ensures
        nearest(twice, d) == 0,
{
    lemma_middle(0);
    assert((magnitude(0) + magnitude(1)) * d == d) by (nonlinear_arith)
        requires
            magnitude(0) + magnitude(1) == 1,
    ;
    assert(!passes(twice, d, 0));
    lemma_nearest_unique(twice, d, 0);
}

/// The size of the pattern `k` as a number.
fn magnitude_of(k: u32) -> (r: BigNat)
    requires
        k <= INFINITY_BITS,
    ensures
        r@ == magnitude(k as nat),
{
    if k < 0x80_0000 {
        BigNat::from_u32(k)
    } else {
        let mut r = BigNat::from_u32(0x80_0000 + k % 0x80_0000);
        r.shift_left(k / 0x80_0000 - 1);
        r
    }
}

/// Whether `(twice - twice_off) / (2 * d)` passes the middle above `k`.
fn test_passes(twice: &BigNat, twice_off: &BigNat, d: &BigNat, k: u32) -> (r: bool)
    requires
        twice_off@ <= twice@,
        k < INFINITY_BITS,
    ensures
        r == passes((twice@ - twice_off@) as nat, d@, k as nat),
{
    proof {
        lemma_middle(k as nat);
    }
    let mut middle = d.copy();
    if k < 0x80_0000 {
        middle.mul_add(2 * k + 1, 0);
    } else {
        middle.mul_add(2 * (0x80_0000 + k % 0x80_0000) + 1, 0);
        middle.shift_left(k / 0x80_0000 - 1);
        proof {
            let m = 2 * (0x80_0000 + k as int % 0x80_0000) + 1;
            let p = pow2((k as nat / 0x80_0000 - 1) as nat) as int;
            assert((d@ * m) * p == (m * p) * d@) by (nonlinear_arith);
        }
    }
    assert(middle@ == (magnitude(k as nat) + magnitude(k as nat + 1)) * d@) by {
        assert(d@ * (2 * k + 1) == (2 * k + 1) * d@) by (nonlinear_arith);
    }
    let bound = middle.plus(twice_off);
    match twice.side_of(&bound) {
        Side::Above => true,
        Side::Equal => k % 2 == 1,
        Side::Below => false,
    }
}

/// The pattern nearest to `(twice - twice_off) / (2 * d)` units.
pub fn round_ratio(twice: &BigNat, twice_off: &BigNat, d: &BigNat) -> (r: u32)
    requires
        twice_off@ <= twice@,
        d@ > 0,
    ensures
        r == nearest((twice@ - twice_off@) as nat, d@),
        r <= INFINITY_BITS,
{
    let ghost t = (twice@ - twice_off@) as nat;
    let mut lo: u32 = 0;
    let mut hi: u32 = INFINITY_BITS;
    while lo < hi
        invariant
            lo <= hi <= INFINITY_BITS,
            d@ > 0,
            twice_off@ <= twice@,
            t == twice@ - twice_off@,
            forall|j: nat| j < lo ==> #[trigger] passes(t, d@, j),
            hi < INFINITY_BITS ==> !passes(t, d@, hi as nat),
        decreases hi - lo,
    {
        let mid: u32 = lo + (hi - lo) / 2;
        if test_passes(twice, twice_off, d, mid) {
            proof {
                assert forall|j: nat| j < mid + 1 implies #[trigger] passes(t, d@, j) by {
                    lemma_passes_down(t, d@, j, mid as nat);
                }
            }
            lo = mid + 1;
        } else {
            hi = mid;
        }
    }
    proof {
        lemma_nearest_unique(t, d@, lo as nat);
    }
    lo
}

/// Whether the sign bit is set.
pub open spec fn is_negative(a: Num) -> bool {
    a.bits >= SIGN_BIT
}

/// The pattern without its sign bit.
pub open spec fn size_bits(a: Num) -> nat {
    if a.bits >= SIGN_BIT {
        (a.bits - SIGN_BIT) as nat
    } else {
        a.bits as nat
    }
}

/// Whether `a` is neither infinite nor out of the number line.
pub open spec fn is_finite(a: Num) -> bool {
    size_bits(a) < INFINITY_BITS
}

/// Whether `a` is not a number.
pub open spec fn is_nan(a: Num) -> bool {
    size_bits(a) > INFINITY_BITS
}

/// Whether `a` is one of the infinities.
pub open spec fn is_infinite(a: Num) -> bool {
    size_bits(a) == INFINITY_BITS
}

/// The exact value of a finite number, in units of `2^-149`.
pub open spec fn units(a: Num) -> int {
    if is_negative(a) {
        -(magnitude(size_bits(a)) as int)
    } else {
        magnitude(size_bits(a)) as int
    }
}

/// The number with a given sign and size pattern.
pub open spec fn signed(negative: bool, k: nat) -> Num {
    Num {
        bits: if negative {
            (SIGN_BIT + k) as u32
        } else {
            k as u32
        },
    }
}

/// Not a number.
pub open spec fn nan() -> Num {
    Num { bits: NAN_BITS }
}

/// Positive zero.
pub open spec fn zero() -> Num {
    Num { bits: 0 }
}

/// One.
pub open spec fn one() -> Num {
    Num { bits: ONE_BITS }
}

/// `a` with its sign turned.
pub open spec fn negated(a: Num) -> Num {
    signed(!is_negative(a), size_bits(a))
}

/// The rounded sum.
pub open spec fn sum(a: Num, b: Num) -> Num {
    if is_nan(a) || is_nan(b) {
        nan()
    } else if is_infinite(a) {
        if is_infinite(b) && is_negative(a) != is_negative(b) {
            nan()
        } else {
            a
        }
    } else if is_infinite(b) {
        b
    } else {
        let total = units(a) + units(b);
        if total == 0 {
            signed(is_negative(a) && is_negative(b), 0)
        } else if total < 0 {
            signed(true, nearest((-2 * total) as nat, 1))
        } else {
            signed(false, nearest((2 * total) as nat, 1))
        }
    }
}

/// The rounded difference.
pub open spec fn difference(a: Num, b: Num) -> Num {
    sum(a, negated(b))
}

/// The rounded product.
pub open spec fn product(a: Num, b: Num) -> Num {
    if is_nan(a) || is_nan(b) {
        nan()
    } else if is_infinite(a) || is_infinite(b) {
        if size_bits(a) == 0 || size_bits(b) == 0 {
            nan()
        } else {
            signed(is_negative(a) != is_negative(b), INFINITY_BITS as nat)
        }
    } else {
        signed(
            is_negative(a) != is_negative(b),
            nearest(2 * (magnitude(size_bits(a)) * magnitude(size_bits(b))), pow2(149)),
        )
    }
}

/// The rounded quotient by a positive whole number.
pub open spec fn quotient(a: Num, n: nat) -> Num {
    if is_nan(a) {
        nan()
    } else if is_infinite(a) {
        a
    } else {
        signed(is_negative(a), nearest(2 * magnitude(size_bits(a)), n))
    }
}

/// A whole number that orders all numbers but those that are not one.
pub open spec fn rank(a: Num) -> int {
    if is_negative(a) {
        -(size_bits(a) as int)
    } else {
        size_bits(a) as int
    }
}

/// `a < b`; false where either is not a number.
pub open spec fn less(a: Num, b: Num) -> bool {
    !is_nan(a) && !is_nan(b) && rank(a) < rank(b)
}

/// `a <= b`; false where either is not a number.
pub open spec fn at_most(a: Num, b: Num) -> bool {
    !is_nan(a) && !is_nan(b) && rank(a) <= rank(b)
}

/// The smaller of the two; what is not a number gives way.
pub open spec fn lesser(a: Num, b: Num) -> Num {
    if is_nan(a) || less(b, a) {
        b
    } else {
        a
    }
}

/// The larger of the two; what is not a number gives way.
pub open spec fn greater(a: Num, b: Num) -> Num {
    if is_nan(a) || less(a, b) {
        b
    } else {
        a
    }
}

/// The number nearest to the whole number `n`.
pub open spec fn whole(n: nat) -> Num {
    signed(false, nearest(n * pow2(150), 1))
}

/// `a` where it lies from zero to one, else the nearer of the two.
pub open spec fn clamped(a: Num) -> Num {
    if less(a, zero()) {
        zero()
    } else if less(one(), a) {
        one()
    } else {
        a
    }
}

/// The whole number from 0 to 255 that is nearest to `a`, halves going up; 0
/// where `a` is not a number.
pub open spec fn nearest_byte(a: Num) -> u8 {
    if is_nan(a) || is_negative(a) {
        0
    } else {
        let n = (2 * magnitude(size_bits(a)) + pow2(149)) / pow2(150);
        if n > 255 {
            255
        } else {
            n as u8
        }
    }
}

/// The number with a given sign and size pattern.
fn with_sign(negative: bool, k: u32) -> (r: Num)
    requires
        k < SIGN_BIT,
    ensures
        r == signed(negative, k as nat),
{
    if negative {
        Num { bits: SIGN_BIT + k }
    } else {
        Num { bits: k }
    }
}

impl Num {
    /// Positive zero.
    pub fn zero() -> (r: Num)
        ensures
            r == zero(),
    {
        Num { bits: 0 }
    }

    /// One.
    pub fn one() -> (r: Num)
        ensures
            r == one(),
    {
        Num { bits: ONE_BITS }
    }

    /// Whether the sign bit is set.
    pub fn is_negative(self) -> (r: bool)
        ensures
            r == is_negative(self),
    {
        self.bits >= SIGN_BIT
    }

    /// The pattern without its sign bit.
    pub fn size_bits(self) -> (r: u32)
        ensures
            r == size_bits(self),
            r < SIGN_BIT,
    {
        if self.bits >= SIGN_BIT {
            self.bits - SIGN_BIT
        } else {
            self.bits
        }
    }

    /// Whether the number is neither infinite nor out of the number line.
    pub fn is_finite(self) -> (r: bool)
        ensures
            r == is_finite(self),
    {
        self.size_bits() < INFINITY_BITS
    }

    /// Whether `self < other`.
    pub fn less(self, other: Num) -> (r: bool)
        ensures
            r == less(self, other),
    {
        let a: u32 = self.size_bits();
        let b: u32 = other.size_bits();
        if a > INFINITY_BITS || b > INFINITY_BITS {
            false
        } else if self.is_negative() {
            if other.is_negative() {
                b < a
            } else {
                a > 0 || b > 0
            }
        } else {
            !other.is_negative() && a < b
        }
    }

    /// Whether `self <= other`.
    pub fn at_most(self, other: Num) -> (r: bool)
        ensures
            r == at_most(self, other),
    {
        let a: u32 = self.size_bits();
        let b: u32 = other.size_bits();
        if a > INFINITY_BITS || b > INFINITY_BITS {
            false
        } else if self.is_negative() {
            !other.is_negative() || b <= a
        } else if other.is_negative() {
            a == 0 && b == 0
        } else {
            a <= b
        }
    }

    /// The number with its sign turned.
    pub fn negated(self) -> (r: Num)
        ensures
            r == negated(self),
    {
        with_sign(!self.is_negative(), self.size_bits())
    }

    /// The rounded sum.
    pub fn plus(self, other: Num) -> (r: Num)
        ensures
            r == sum(self, other),
    {
        let a: u32 = self.size_bits();
        let b: u32 = other.size_bits();
        if a > INFINITY_BITS || b > INFINITY_BITS {
            return Num { bits: NAN_BITS };
        }
        if a == INFINITY_BITS {
            if b == INFINITY_BITS && self.is_negative() != other.is_negative() {
                return Num { bits: NAN_BITS };
            }
            return self;
        }
        if b == INFINITY_BITS {
            return other;
        }
        let mut x = magnitude_of(a);
        let mut y = magnitude_of(b);
        let unit = BigNat::from_u32(1);
        let nothing = BigNat::from_u32(0);
        x.mul_add(2, 0);
        y.mul_add(2, 0);
        if self.is_negative() == other.is_negative() {
            let both = x.plus(&y);
            let k: u32 = round_ratio(&both, &nothing, &unit);
            proof {
                if units(self) + units(other) == 0 {
                    assert(both@ == 0);
                    lemma_nearest_nothing(0, 1);
                }
            }
            with_sign(self.is_negative(), k)
        } else {
            match x.side_of(&y) {
                Side::Equal => Num { bits: 0 },
                Side::Above => {
                    let k: u32 = round_ratio(&x, &y, &unit);
                    with_sign(self.is_negative(), k)
                },
                Side::Below => {
                    let k: u32 = round_ratio(&y, &x, &unit);
                    with_sign(other.is_negative(), k)
                },
            }
        }
    }

    /// The rounded difference.
    pub fn minus(self, other: Num) -> (r: Num)
        ensures
            r == difference(self, other),
    {
        self.plus(other.negated())
    }

    /// The rounded product.
    pub fn times(self, other: Num) -> (r: Num)
        ensures
            r == product(self, other),
    {
        let a: u32 = self.size_bits();
        let b: u32 = other.size_bits();
        if a > INFINITY_BITS || b > INFINITY_BITS {
            return Num { bits: NAN_BITS };
        }
        let negative: bool = self.is_negative() != other.is_negative();
        if a == INFINITY_BITS || b == INFINITY_BITS {
            if a == 0 || b == 0 {
                return Num { bits: NAN_BITS };
            }
            return with_sign(negative, INFINITY_BITS);
        }
        let mut x = magnitude_of(a);
        let nothing = BigNat::from_u32(0);
        let mut unit = BigNat::from_u32(1);
        unit.shift_left(149);
        let ghost m = magnitude(a as nat);
        let ghost n = magnitude(b as nat);
        proof {
            lemma_pow2_pos(149);
        }
        if b < 0x80_0000 {
            x.mul_add(b, 0);
            proof {
                assert(x@ == m * n);
            }
        } else {
            x.mul_add(0x80_0000 + b % 0x80_0000, 0);
            x.shift_left(b / 0x80_0000 - 1);
            proof {
                let s = 0x80_0000 + b as int % 0x80_0000;
                let p = pow2((b as nat / 0x80_0000 - 1) as nat) as int;
                assert((m * s) * p == m * (s * p)) by (nonlinear_arith);
                assert(x@ == m * n);
            }
        }
        x.mul_add(2, 0);
        let k: u32 = round_ratio(&x, &nothing, &unit);
        with_sign(negative, k)
    }

    /// The rounded quotient by a positive whole number.
    pub fn divided_by(self, n: u32) -> (r: Num)
        requires
            n > 0,
        ensures
            r == quotient(self, n as nat),
    {
        let a: u32 = self.size_bits();
        if a > INFINITY_BITS {
            return Num { bits: NAN_BITS };
        }
        if a == INFINITY_BITS {
            return self;
        }
        let mut x = magnitude_of(a);
        x.mul_add(2, 0);
        let nothing = BigNat::from_u32(0);
        let whole = BigNat::from_u32(n);
        let k: u32 = round_ratio(&x, &nothing, &whole);
        with_sign(self.is_negative(), k)
    }

    /// The smaller of the two; what is not a number gives way.
    pub fn lesser(self, other: Num) -> (r: Num)
        ensures
            r == lesser(self, other),
    {
        if self.size_bits() > INFINITY_BITS || other.less(self) {
            other
        } else {
            self
        }
    }

    /// The larger of the two; what is not a number gives way.
    pub fn greater(self, other: Num) -> (r: Num)
        ensures
            r == greater(self, other),
    {
        if self.size_bits() > INFINITY_BITS || self.less(other) {
            other
        } else {
            self
        }
    }

    /// The number nearest to `n`.
    pub fn whole(n: u32) -> (r: Num)
        ensures
            r == whole(n as nat),
    {
        let mut twice = BigNat::from_u32(n);
        twice.shift_left(150);
        let k: u32 = round_ratio(&twice, &BigNat::from_u32(0), &BigNat::from_u32(1));
        with_sign(false, k)
    }

    /// The number where it lies from zero to one, else the nearer of the two.
    pub fn clamped(self) -> (r: Num)
        ensures
            r == clamped(self),
    {
        if self.less(Num::zero()) {
            Num::zero()
        } else if Num::one().less(self) {
            Num::one()
        } else {
            self
        }
    }

    /// The whole number from 0 to 255 that is nearest to the number.
    pub fn nearest_byte(self) -> (r: u8)
        ensures
            r == nearest_byte(self),
    {
        let k: u32 = self.size_bits();
        if k > INFINITY_BITS || self.is_negative() {
            return 0;
        }
        let mut twice = magnitude_of(k);
        twice.mul_add(2, 0);
        let ghost t = twice@;
        let ghost u = pow2(149);
        proof {
            lemma_pow2_pos(149);
            lemma_pow2_unfold(150);
        }
        let mut r: u8 = 0;
        assert(2 * r * u == 0) by (nonlinear_arith)
            requires
                r == 0,
        ;
        while r < 255
            invariant_except_break
                twice@ == t,
                u == pow2(149),
                u > 0,
                r <= 255,
                2 * r * u <= t + u,
            ensures
                u == pow2(149),
                u > 0,
                r <= 255,
                2 * r * u <= t + u,
                r == 255 || t + u < 2 * (r + 1) * u,
            decreases 255 - r,
        {
            let mut bound = BigNat::from_u32(2 * (r as u32) + 1);
            bound.shift_left(149);
            match twice.side_of(&bound) {
                Side::Below => {
                    assert(t + u < 2 * (r + 1) * u) by (nonlinear_arith)
                        requires
                            t < (2 * r + 1) * u,
                    ;
                    break;
                },
                _ => {
                    assert(2 * (r + 1) * u <= t + u) by (nonlinear_arith)
                        requires
                            t >= (2 * r + 1) * u,
                    ;
                    r = r + 1;
                },
            }
        }
        proof {
            let n = (t + u) / (2 * u);
            vstd::arithmetic::div_mod::lemma_fundamental_div_mod((t + u) as int, (2 * u) as int);
            let m = (t + u) % (2 * u);
            assert(n >= r) by (nonlinear_arith)
                requires
                    t + u == 2 * u * n + m,
                    m < 2 * u,
                    2 * r * u <= t + u,
                    u > 0,
            ;
            if r < 255 {
                assert(n < r + 1) by (nonlinear_arith)
                    requires
                        t + u == 2 * u * n + m,
                        m >= 0,
                        t + u < 2 * (r + 1) * u,
                        u > 0,
                ;
            }
        }
        r
    }
}

} // verus!
