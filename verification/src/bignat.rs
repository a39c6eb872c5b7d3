//! Natural numbers of any size, as far as exact decimal rounding needs them.
use vstd::arithmetic::power::{lemma_pow_positive, pow};
use vstd::arithmetic::power2::{lemma_pow2_adds, pow2};
use vstd::prelude::*;

verus! {

/// One more than the largest limb.
pub open spec fn limb_base() -> nat {
    0x1_0000_0000
}

/// The number that little-endian limbs stand for.
pub open spec fn limbs_value(limbs: Seq<u32>) -> nat
    decreases limbs.len(),
{
    if limbs.len() == 0 {
        0
    } else {
        limbs[0] as nat + limb_base() * limbs_value(limbs.skip(1))
    }
}

/// Limb `i`, or zero beyond the end.
pub open spec fn limb_at(limbs: Seq<u32>, i: int) -> nat {
    if 0 <= i < limbs.len() {
        limbs[i] as nat
    } else {
        0
    }
}

/// The value of the limbs from `i` on; zero beyond the end.
spec fn value_from(limbs: Seq<u32>, i: int) -> nat {
    if 0 <= i <= limbs.len() {
        limbs_value(limbs.skip(i))
    } else {
        0
    }
}

proof fn lemma_value_from_step(limbs: Seq<u32>, i: int)
    requires
        0 <= i,
    ensures
        value_from(limbs, i) == limb_at(limbs, i) + limb_base() * value_from(limbs, i + 1),
{
    if i < limbs.len() {
        let tail = limbs.skip(i);
        assert(tail[0] == limbs[i]);
        assert(tail.skip(1) =~= limbs.skip(i + 1));
    } else if i == limbs.len() {
        assert(limbs.skip(i).len() == 0);
    }
}

/// The value of the limbs before `i`, built upwards.
spec fn value_below(limbs: Seq<u32>, i: int) -> nat
    decreases i,
{
    if i <= 0 {
        0
    } else {
        value_below(limbs, i - 1) + limb_at(limbs, i - 1) * pow(
            limb_base() as int,
            (i - 1) as nat,
        ) as nat
    }
}

proof fn lemma_split(limbs: Seq<u32>, i: int)
    requires
        0 <= i <= limbs.len(),
    ensures
        limbs_value(limbs) == value_below(limbs, i) + pow(limb_base() as int, i as nat)
            * value_from(limbs, i),
    decreases i,
{
    let b = limb_base() as int;
    if i == 0 {
        assert(limbs.skip(0) =~= limbs);
        vstd::arithmetic::power::lemma_pow0(b);
        assert(1 * value_from(limbs, 0) == value_from(limbs, 0));
    } else {
        lemma_split(limbs, i - 1);
        lemma_value_from_step(limbs, i - 1);
        let p = pow(b, (i - 1) as nat);
        lemma_pow_positive(b, (i - 1) as nat);
        let x = limb_at(limbs, i - 1) as int;
        let v = value_from(limbs, i) as int;
        reveal(pow);
        assert(pow(b, i as nat) == b * p);
        assert(p * (x + b * v) == x * p + (b * p) * v) by (nonlinear_arith);
    }
}

proof fn lemma_value_below_same(a: Seq<u32>, b: Seq<u32>, i: int)
    requires
        forall|j: int| 0 <= j < i ==> limb_at(a, j) == limb_at(b, j),
    ensures
        value_below(a, i) == value_below(b, i),
    decreases i,
{
    if i > 0 {
        lemma_value_below_same(a, b, i - 1);
        assert(limb_at(a, i - 1) == limb_at(b, i - 1));
    }
}

/// A natural number of any size.
pub struct BigNat {
    limbs: Vec<u32>,
}

impl View for BigNat {
    type V = nat;

    closed spec fn view(&self) -> nat {
        limbs_value(self.limbs@)
    }
}

/// The three outcomes of a comparison.
#[derive(Clone, Copy, PartialEq, Eq, Structural)]
pub enum Side {
    Below,
    Equal,
    Above,
}

/// How `a` stands to `b`.
pub open spec fn side(a: nat, b: nat) -> Side {
    if a < b {
        Side::Below
    } else if a == b {
        Side::Equal
    } else {
        Side::Above
    }
}

impl BigNat {
    /// The number `n`.
    pub fn from_u32(n: u32) -> (r: BigNat)
        ensures
            r@ == n,
    {
        let mut limbs: Vec<u32> = Vec::new();
        limbs.push(n);
        proof {
            reveal_with_fuel(limbs_value, 2);
            assert(limbs@.skip(1).len() == 0);
        }
        BigNat { limbs }
    }

    /// Replaces `self` by `self * factor + addend`.
    pub fn mul_add(&mut self, factor: u32, addend: u32)
        ensures
            final(self)@ == old(self)@ * factor + addend,
    {
        let ghost start = self.limbs@;
        let ghost b = limb_base() as int;
        let mut carry: u32 = addend;
        let mut i: usize = 0;
        let n: usize = self.limbs.len();
        proof {
            assert(start.skip(0) =~= start);
            vstd::arithmetic::power::lemma_pow0(b);
        }
        assert(value_below(self.limbs@, 0) + pow(b, 0nat) * (value_from(start, 0) * factor + carry)
            == limbs_value(start) * factor + addend) by {
            assert(1 * (value_from(start, 0) * factor + carry) == value_from(start, 0) * factor
                + carry);
        }
        while i < n
            invariant
                i <= n,
                n == self.limbs@.len(),
                n == start.len(),
                b == limb_base(),
                forall|j: int| i <= j < n ==> self.limbs@[j] == start[j],
                value_below(self.limbs@, i as int) + pow(b, i as nat) * (value_from(start, i as int)
                    * factor + carry) == limbs_value(start) * factor + addend,
            decreases n - i,
        {
            let x: u32 = self.limbs[i];
            proof {
                assert(x * factor + carry <= 0xffff_ffff * 0xffff_ffff + 0xffff_ffff)
                    by (nonlinear_arith)
                    requires
                        0 <= x <= 0xffff_ffff,
                        0 <= factor <= 0xffff_ffff,
                        0 <= carry <= 0xffff_ffff,
                ;
                assert(x * factor <= 0xffff_ffff * 0xffff_ffff) by (nonlinear_arith)
                    requires
                        0 <= x <= 0xffff_ffff,
                        0 <= factor <= 0xffff_ffff,
                ;
            }
            let t: u64 = (x as u64) * (factor as u64) + (carry as u64);
            let lo: u32 = (t % 0x1_0000_0000) as u32;
            let hi: u32 = (t / 0x1_0000_0000) as u32;
            let ghost before = self.limbs@;
            self.limbs.set(i, lo);
            proof {
                let p = pow(b, i as nat);
                lemma_value_below_same(before, self.limbs@, i as int);
                lemma_value_from_step(start, i as int);
                assert(
                    value_below(self.limbs@, i + 1) == value_below(before, i as int) + lo * p
                ) by {
                    lemma_pow_positive(b, i as nat);
                }
                reveal(pow);
                assert(pow(b, (i + 1) as nat) == b * p);
                let v = value_from(start, i + 1) as int;
                assert(lo * p + (b * p) * (v * factor + hi) == p * ((x + b * v) * factor + carry))
                    by (nonlinear_arith)
                    requires
                        lo + b * hi == x * factor + carry,
                ;
            }
            carry = hi;
            i = i + 1;
        }
        let ghost before = self.limbs@;
        self.limbs.push(carry);
        proof {
            lemma_split(self.limbs@, n as int);
            lemma_value_below_same(before, self.limbs@, n as int);
            lemma_value_from_step(self.limbs@, n as int);
            lemma_value_from_step(start, n as int);
            assert(value_from(start, n as int) == 0) by {
                assert(start.skip(n as int).len() == 0);
            }
            assert(value_from(self.limbs@, n + 1) == 0) by {
                assert(self.limbs@.skip(n + 1).len() == 0);
            }
            assert(value_from(self.limbs@, n as int) == carry);
            assert(value_from(start, n as int) * factor + carry == carry) by (nonlinear_arith)
                requires
                    value_from(start, n as int) == 0,
            ;
        }
    }

    /// Replaces `self` by `self * 2^count`.
    pub fn shift_left(&mut self, count: u32)
        ensures
            final(self)@ == old(self)@ * pow2(count as nat),
    {
        let ghost start = self@;
        let mut left: u32 = count;
        proof {
            vstd::arithmetic::power2::lemma2_to64();
            assert(start * 1 == start);
        }
        while left >= 16
            invariant
                left <= count,
                self@ == start * pow2((count - left) as nat),
            decreases left,
        {
            let ghost before = self@;
            self.mul_add(0x1_0000, 0);
            proof {
                vstd::arithmetic::power2::lemma2_to64();
                lemma_pow2_adds((count - left) as nat, 16);
                let p = pow2((count - left) as nat) as int;
                assert((start * p) * 0x1_0000 == start * (p * 0x1_0000)) by (nonlinear_arith);
            }
            left = left - 16;
        }
        while left > 0
            invariant
                left <= count,
                self@ == start * pow2((count - left) as nat),
            decreases left,
        {
            self.mul_add(2, 0);
            proof {
                vstd::arithmetic::power2::lemma2_to64();
                lemma_pow2_adds((count - left) as nat, 1);
                let p = pow2((count - left) as nat) as int;
                assert((start * p) * 2 == start * (p * 2)) by (nonlinear_arith);
            }
            left = left - 1;
        }
    }

    /// Limb `i`, or zero beyond the end.
    fn limb(&self, i: usize) -> (r: u32)
        ensures
            r == limb_at(self.limbs@, i as int),
    {
        if i < self.limbs.len() {
            self.limbs[i]
        } else {
            0
        }
    }

    /// How `self` stands to `other`.
    pub fn side_of(&self, other: &BigNat) -> (r: Side)
        ensures
            r == side(self@, other@),
    {
        let a: usize = self.limbs.len();
        let b: usize = other.limbs.len();
        let mut i: usize = if a < b { b } else { a };
        let mut r: Side = Side::Equal;
        proof {
            if i == a {
                assert(self.limbs@.skip(i as int).len() == 0);
            }
            if i == b {
                assert(other.limbs@.skip(i as int).len() == 0);
            }
        }
        while i > 0
            invariant
                r == side(value_from(self.limbs@, i as int), value_from(other.limbs@, i as int)),
            decreases i,
        {
            i = i - 1;
            proof {
                lemma_value_from_step(self.limbs@, i as int);
                lemma_value_from_step(other.limbs@, i as int);
            }
            let x: u32 = self.limb(i);
            let y: u32 = other.limb(i);
            if r == Side::Equal {
                if x < y {
                    r = Side::Below;
                } else if x > y {
                    r = Side::Above;
                }
            }
        }
        proof {
            assert(self.limbs@.skip(0) =~= self.limbs@);
            assert(other.limbs@.skip(0) =~= other.limbs@);
        }
        r
    }

    /// The sum of `self` and `other`.
    pub fn plus(&self, other: &BigNat) -> (r: BigNat)
        ensures
            r@ == self@ + other@,
    {
        let ghost b = limb_base() as int;
        let a_len: usize = self.limbs.len();
        let b_len: usize = other.limbs.len();
        let n: usize = if a_len < b_len { b_len } else { a_len };
        let mut out: Vec<u32> = Vec::new();
        let mut carry: u32 = 0;
        let mut i: usize = 0;
        proof {
            assert(self.limbs@.skip(0) =~= self.limbs@);
            assert(other.limbs@.skip(0) =~= other.limbs@);
            vstd::arithmetic::power::lemma_pow0(b);
        }
        while i < n
            invariant
                i <= n,
                a_len <= n,
                b_len <= n,
                a_len == self.limbs@.len(),
                b_len == other.limbs@.len(),
                out@.len() == i,
                carry <= 1,
                b == limb_base(),
                value_below(out@, i as int) + pow(b, i as nat) * (value_from(
                    self.limbs@,
                    i as int,
                ) + value_from(other.limbs@, i as int) + carry) == self@ + other@,
            decreases n - i,
        {
            let x: u32 = self.limb(i);
            let y: u32 = other.limb(i);
            let t: u64 = (x as u64) + (y as u64) + (carry as u64);
            let lo: u32 = (t % 0x1_0000_0000) as u32;
            let hi: u32 = (t / 0x1_0000_0000) as u32;
            let ghost before = out@;
            out.push(lo);
            proof {
                let p = pow(b, i as nat);
                lemma_pow_positive(b, i as nat);
                lemma_value_below_same(before, out@, i as int);
                lemma_value_from_step(self.limbs@, i as int);
                lemma_value_from_step(other.limbs@, i as int);
                assert(value_below(out@, i + 1) == value_below(before, i as int) + lo * p);
                reveal(pow);
                assert(pow(b, (i + 1) as nat) == b * p);
                let u = value_from(self.limbs@, i + 1) as int;
                let v = value_from(other.limbs@, i + 1) as int;
                assert(lo * p + (b * p) * (u + v + hi) == p * ((x + b * u) + (y + b * v) + carry))
                    by (nonlinear_arith)
                    requires
                        lo + b * hi == x + y + carry,
                ;
            }
            carry = hi;
            i = i + 1;
        }
        let ghost before = out@;
        out.push(carry);
        proof {
            lemma_split(out@, n as int);
            lemma_value_below_same(before, out@, n as int);
            lemma_value_from_step(out@, n as int);
            assert(out@.skip(n + 1).len() == 0);
            if n == a_len {
                assert(self.limbs@.skip(n as int).len() == 0);
            }
            if n == b_len {
                assert(other.limbs@.skip(n as int).len() == 0);
            }
            assert(value_from(out@, n as int) == carry);
        }
        BigNat { limbs: out }
    }

    /// A second number of the same value.
    pub fn copy(&self) -> (r: BigNat)
        ensures
            r@ == self@,
    {
        let mut limbs: Vec<u32> = Vec::new();
        let mut i: usize = 0;
        while i < self.limbs.len()
            invariant
                i <= self.limbs@.len(),
                limbs@ == self.limbs@.take(i as int),
            decreases self.limbs@.len() - i,
        {
            limbs.push(self.limbs[i]);
            i = i + 1;
        }
        assert(limbs@ =~= self.limbs@);
        BigNat { limbs }
    }
}

} // verus!
