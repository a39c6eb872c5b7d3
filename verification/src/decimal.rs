//! The written form of numbers, and the binary32 number each one names.
use crate::bignat::BigNat;
use crate::number::{nearest, round_ratio, signed, INFINITY_BITS, NAN_BITS, Num, SIGN_BIT};
use crate::text::chars_of;
use vstd::arithmetic::power::{lemma_pow_positive, pow};
use vstd::arithmetic::power2::pow2;
use vstd::prelude::*;

verus! {

/// Whether `c` is one of the ten ASCII digits.
pub open spec fn is_digit(c: char) -> bool {
    '0' <= c <= '9'
}

/// What the digit `c` counts.
pub open spec fn digit_value(c: char) -> nat {
    (c as int - '0' as int) as nat
}

/// The length of the run of digits that `s` starts with.
pub open spec fn digit_run(s: Seq<char>) -> nat
    decreases s.len(),
{
    if s.len() > 0 && is_digit(s[0]) {
        1 + digit_run(s.skip(1))
    } else {
        0
    }
}

/// The whole number that a row of digits writes.
pub open spec fn digits_value(s: Seq<char>) -> nat
    decreases s.len(),
{
    if s.len() == 0 {
        0
    } else {
        digits_value(s.drop_last()) * 10 + digit_value(s.last())
    }
}

/// `c` with an ASCII capital made small.
pub open spec fn small(c: char) -> char {
    if 'A' <= c <= 'Z' {
        (c as int + 32) as char
    } else {
        c
    }
}

/// Whether `s` is `word` but for ASCII case.
pub open spec fn same_word(s: Seq<char>, word: Seq<char>) -> bool {
    &&& s.len() == word.len()
    &&& forall|i: int| 0 <= i < s.len() ==> small(#[trigger] s[i]) == word[i]
}

/// Whether `s` starts with a sign.
pub open spec fn has_sign(s: Seq<char>) -> bool {
    s.len() > 0 && (s[0] == '-' || s[0] == '+')
}

/// `s` without a leading sign.
pub open spec fn without_sign(s: Seq<char>) -> Seq<char> {
    if has_sign(s) {
        s.skip(1)
    } else {
        s
    }
}

/// Whether `s` starts with a minus sign.
pub open spec fn has_minus(s: Seq<char>) -> bool {
    s.len() > 0 && s[0] == '-'
}

/// Whether `s` is one digit or more, and nothing else.
pub open spec fn is_digits(s: Seq<char>) -> bool {
    s.len() > 0 && digit_run(s) == s.len()
}

/// The power of ten that an exponent part writes: nothing, or `e` and a whole
/// number with an optional sign.
pub open spec fn exponent_part(s: Seq<char>) -> Option<int> {
    if s.len() == 0 {
        Some(0)
    } else if s[0] == 'e' || s[0] == 'E' {
        let digits = without_sign(s.skip(1));
        if !is_digits(digits) {
            None
        } else if has_minus(s.skip(1)) {
            Some(-(digits_value(digits) as int))
        } else {
            Some(digits_value(digits) as int)
        }
    } else {
        None
    }
}

/// The digits of a decimal, as a whole number, and the power of ten that goes
/// with them: digits on either side of an optional point, then an exponent.
pub open spec fn decimal_parts(s: Seq<char>) -> Option<(nat, int)> {
    let whole = s.take(digit_run(s) as int);
    let rest = s.skip(digit_run(s) as int);
    let fraction = if rest.len() > 0 && rest[0] == '.' {
        rest.skip(1).take(digit_run(rest.skip(1)) as int)
    } else {
        Seq::empty()
    };
    let tail = if rest.len() > 0 && rest[0] == '.' {
        rest.skip(1).skip(digit_run(rest.skip(1)) as int)
    } else {
        rest
    };
    if whole.len() + fraction.len() == 0 {
        None
    } else {
        match exponent_part(tail) {
            None => None,
            Some(e) => Some((digits_value(whole + fraction), e - fraction.len())),
        }
    }
}

/// The pattern nearest to `digits * 10^exponent`.
pub open spec fn decimal_bits(digits: nat, exponent: int) -> nat {
    if exponent >= 0 {
        nearest((digits * pow(10, exponent as nat)) as nat * pow2(150), 1)
    } else {
        nearest(digits * pow2(150), pow(10, (-exponent) as nat) as nat)
    }
}

/// The number that `s` writes: a decimal, `inf`, `infinity` or `nan`, with an
/// optional sign; letters in either case.
pub open spec fn written_number(s: Seq<char>) -> Option<Num> {
    let body = without_sign(s);
    let negative = has_minus(s);
    if same_word(body, seq!['n', 'a', 'n']) {
        Some(signed(negative, NAN_BITS as nat))
    } else if same_word(body, seq!['i', 'n', 'f']) || same_word(
        body,
        seq!['i', 'n', 'f', 'i', 'n', 'i', 't', 'y'],
    ) {
        Some(signed(negative, INFINITY_BITS as nat))
    } else {
        match decimal_parts(body) {
            None => None,
            Some((digits, exponent)) => Some(signed(negative, decimal_bits(digits, exponent))),
        }
    }
}

proof fn lemma_digit_run_bound(s: Seq<char>)
    ensures
        digit_run(s) <= s.len(),
        forall|i: int| 0 <= i < digit_run(s) ==> is_digit(#[trigger] s[i]),
        digit_run(s) < s.len() ==> !is_digit(s[digit_run(s) as int]),
    decreases s.len(),
{
    if s.len() > 0 && is_digit(s[0]) {
        lemma_digit_run_bound(s.skip(1));
        assert forall|i: int| 0 <= i < digit_run(s) implies is_digit(#[trigger] s[i]) by {
            if i > 0 {
                assert(s.skip(1)[i - 1] == s[i]);
            }
        }
    }
}

pub(crate) proof fn lemma_digit_run_exact(s: Seq<char>, n: nat)
    requires
        n <= s.len(),
        forall|i: int| 0 <= i < n ==> is_digit(#[trigger] s[i]),
        n < s.len() ==> !is_digit(s[n as int]),
    ensures
        digit_run(s) == n,
    decreases s.len(),
{
    if n > 0 {
        assert(is_digit(s[0]));
        assert forall|i: int| 0 <= i < n - 1 implies is_digit(#[trigger] s.skip(1)[i]) by {
            assert(s.skip(1)[i] == s[i + 1]);
        }
        lemma_digit_run_exact(s.skip(1), (n - 1) as nat);
    }
}

/// A text is all digits exactly when its run of digits is all of it.
pub(crate) proof fn lemma_digit_run(s: Seq<char>)
    ensures
        digit_run(s) == s.len() <==> forall|i: int| 0 <= i < s.len() ==> is_digit(#[trigger] s[i]),
{
    lemma_digit_run_bound(s);
    if forall|i: int| 0 <= i < s.len() ==> is_digit(#[trigger] s[i]) {
        lemma_digit_run_exact(s, s.len());
    }
}

/// Where the run of digits that starts at `from` ends.
fn run_end(s: &Vec<char>, from: usize) -> (r: usize)
    requires
        from <= s@.len(),
    ensures
        from <= r <= s@.len(),
        digit_run(s@.skip(from as int)) == r - from,
{
    let mut i: usize = from;
    while i < s.len() && s[i] >= '0' && s[i] <= '9'
        invariant
            from <= i <= s@.len(),
            forall|j: int| from <= j < i ==> is_digit(#[trigger] s@[j]),
        decreases s@.len() - i,
    {
        i = i + 1;
    }
    proof {
        let t = s@.skip(from as int);
        assert forall|j: int| 0 <= j < i - from implies is_digit(#[trigger] t[j]) by {
            assert(t[j] == s@[from + j]);
        }
        lemma_digit_run_exact(t, (i - from) as nat);
    }
    i
}

/// Whether the characters from `from` on are `word` but for ASCII case.
fn is_word(s: &Vec<char>, from: usize, word: &Vec<char>) -> (r: bool)
    requires
        from <= s@.len(),
    ensures
        r == same_word(s@.skip(from as int), word@),
{
    if s.len() - from != word.len() {
        return false;
    }
    let ghost t = s@.skip(from as int);
    let n: usize = s.len();
    let mut i: usize = 0;
    while i < word.len()
        invariant
            i <= word@.len(),
            n == s@.len(),
            from + word@.len() == n,
            t == s@.skip(from as int),
            forall|j: int| 0 <= j < i ==> small(#[trigger] t[j]) == word@[j],
        decreases word@.len() - i,
    {
        let c: char = s[from + i];
        let low: char = if c >= 'A' && c <= 'Z' {
            let n: u8 = c as u8;
            (n + 32u8) as char
        } else {
            c
        };
        assert(t[i as int] == c);
        assert(low == small(c));
        if low != word[i] {
            return false;
        }
        i = i + 1;
    }
    true
}

proof fn lemma_pow_step(b: int, n: nat)
    ensures
        pow(b, n + 1) == pow(b, n) * b,
{
    reveal(pow);
    assert(b * pow(b, n) == pow(b, n) * b) by (nonlinear_arith);
}

/// Appends the digits from `from` to `to` to those already in `value`.
fn take_digits(value: &mut BigNat, s: &Vec<char>, from: usize, to: usize, Ghost(seen): Ghost<
    Seq<char>,
>)
    requires
        from <= to <= s@.len(),
        forall|j: int| from <= j < to ==> is_digit(#[trigger] s@[j]),
        old(value)@ == digits_value(seen),
    ensures
        final(value)@ == digits_value(seen + s@.subrange(from as int, to as int)),
{
    let mut i: usize = from;
    assert(seen + s@.subrange(from as int, from as int) =~= seen);
    while i < to
        invariant
            from <= i <= to <= s@.len(),
            forall|j: int| from <= j < to ==> is_digit(#[trigger] s@[j]),
            value@ == digits_value(seen + s@.subrange(from as int, i as int)),
        decreases to - i,
    {
        let c: char = s[i];
        assert(is_digit(s@[i as int]));
        let d: u32 = (c as u32) - 48;
        value.mul_add(10, d);
        proof {
            let next = seen + s@.subrange(from as int, i + 1);
            assert(next.drop_last() =~= seen + s@.subrange(from as int, i as int));
            assert(next.last() == c);
        }
        i = i + 1;
    }
}

/// Ten to the power `n`.
fn power_of_ten(n: u128) -> (r: BigNat)
    ensures
        r@ == pow(10, n as nat),
{
    let mut r = BigNat::from_u32(1);
    let mut i: u128 = 0;
    proof {
        vstd::arithmetic::power::lemma_pow0(10);
    }
    while i < n
        invariant
            i <= n,
            r@ == pow(10, i as nat),
        decreases n - i,
    {
        r.mul_add(10, 0);
        proof {
            lemma_pow_step(10, i as nat);
        }
        i = i + 1;
    }
    r
}

proof fn lemma_digits_bound(s: Seq<char>)
    requires
        forall|i: int| 0 <= i < s.len() ==> is_digit(#[trigger] s[i]),
    ensures
        digits_value(s) < pow(10, s.len()),
    decreases s.len(),
{
    if s.len() == 0 {
        vstd::arithmetic::power::lemma_pow0(10);
    } else {
        lemma_digits_bound(s.drop_last());
        lemma_pow_step(10, (s.len() - 1) as nat);
        assert(is_digit(s.last()));
    }
}

/// A thousand outweighs nine doublings.
proof fn lemma_thousands(n: nat)
    ensures
        pow(10, 3 * n) >= pow2(9 * n),
    decreases n,
{
    vstd::arithmetic::power2::lemma2_to64();
    if n == 0 {
        vstd::arithmetic::power::lemma_pow0(10);
    } else {
        let m = (n - 1) as nat;
        lemma_thousands(m);
        lemma_pow_step(10, 3 * m);
        lemma_pow_step(10, 3 * m + 1);
        lemma_pow_step(10, 3 * m + 2);
        vstd::arithmetic::power2::lemma_pow2_adds(9 * m, 9);
        assert(pow(10, 3 * n) == pow(10, 3 * m) * 1000);
        assert(pow2(9 * n) == pow2(9 * m) * 512);
    }
}

/// From ten to the forty-sixth on, a number is out of range.
proof fn lemma_too_large(digits: nat, exponent: nat)
    requires
        digits >= 1,
        exponent >= 46,
    ensures
        decimal_bits(digits, exponent as int) == INFINITY_BITS,
{
    let t = pow(10, exponent);
    lemma_thousands(15);
    vstd::arithmetic::power::lemma_pow_increases(10, 45, exponent);
    assert(t >= pow2(135));
    let twice = (digits * t) as nat * pow2(150);
    vstd::arithmetic::power2::lemma_pow2_adds(135, 150);
    vstd::arithmetic::power2::lemma_pow2_strictly_increases(278, 285);
    assert(digits * t >= t) by (nonlinear_arith)
        requires
            digits >= 1,
            t >= 0,
    ;
    lemma_pow_positive(10, exponent);
    assert((digits * t) * pow2(150) >= pow2(135) * pow2(150)) by (nonlinear_arith)
        requires
            digits * t >= pow2(135),
    ;
    assert(twice >= pow2(285));
    crate::number::lemma_last_middle();
    crate::number::lemma_nearest_infinite(twice, 1);
}

/// Below ten to the minus fifty-first, a number rounds to nothing.
proof fn lemma_too_small(digits: nat, count: nat, exponent: nat)
    requires
        digits < pow(10, count),
        exponent >= count + 51,
    ensures
        decimal_bits(digits, -(exponent as int)) == 0,
{
    lemma_thousands(17);
    vstd::arithmetic::power2::lemma_pow2_strictly_increases(150, 153);
    vstd::arithmetic::power::lemma_pow_adds(10, count, 51);
    vstd::arithmetic::power::lemma_pow_increases(10, count + 51, exponent);
    lemma_pow_positive(10, exponent);
    let c = pow(10, count);
    let k = pow(10, 51);
    assert(digits * pow2(150) <= c * k) by (nonlinear_arith)
        requires
            digits < c,
            pow2(150) <= k,
            0 <= pow2(150),
    ;
    crate::number::lemma_nearest_nothing(digits * pow2(150), pow(10, exponent) as nat);
}

/// The pattern nearest to `digits * 10^exponent`, where `digits` has at most
/// `count` places.
fn scale(digits: &BigNat, exponent: i128, count: usize) -> (r: u32)
    requires
        digits@ < pow(10, count as nat),
        -0x1000_0000_0000_0000_0000_0000 <= exponent <= 0x1000_0000_0000_0000_0000_0000,
    ensures
        r == decimal_bits(digits@, exponent as int),
        r <= INFINITY_BITS,
{
    let nothing = BigNat::from_u32(0);
    if exponent >= 46 {
        if let crate::bignat::Side::Equal = digits.side_of(&nothing) {
            proof {
                let t = pow(10, exponent as nat);
                assert((0 * t) * pow2(150) == 0) by (nonlinear_arith);
                crate::number::lemma_nearest_nothing(0, 1);
            }
            return 0;
        }
        proof {
            lemma_too_large(digits@, exponent as nat);
        }
        return INFINITY_BITS;
    }
    if exponent <= -((count as i128) + 51) {
        proof {
            lemma_too_small(digits@, count as nat, (-exponent) as nat);
        }
        return 0;
    }
    if exponent >= 0 {
        let mut n = digits.copy();
        let e: usize = exponent as usize;
        let mut i: usize = 0;
        proof {
            vstd::arithmetic::power::lemma_pow0(10);
            assert(digits@ * 1 == digits@);
        }
        while i < e
            invariant
                i <= e,
                n@ == digits@ * pow(10, i as nat),
            decreases e - i,
        {
            n.mul_add(10, 0);
            proof {
                lemma_pow_step(10, i as nat);
                let p = pow(10, i as nat);
                assert((digits@ * p) * 10 == digits@ * (p * 10)) by (nonlinear_arith);
            }
            i = i + 1;
        }
        n.shift_left(150);
        let unit = BigNat::from_u32(1);
        round_ratio(&n, &nothing, &unit)
    } else {
        let mut n = digits.copy();
        n.shift_left(150);
        let e: u128 = (-exponent) as u128;
        let d = power_of_ten(e);
        proof {
            lemma_pow_positive(10, e as nat);
        }
        round_ratio(&n, &nothing, &d)
    }
}

/// A bound that no written exponent in use comes near.
const EXPONENT_CAP: u128 = 0x1_0000_0000_0000_0000_0000;

/// The whole number written by the digits from `from` to the end, cut off at
/// the cap.
fn exponent_size(s: &Vec<char>, from: usize) -> (r: u128)
    requires
        from <= s@.len(),
        forall|j: int| from <= j < s@.len() ==> is_digit(#[trigger] s@[j]),
    ensures
        r <= 10 * EXPONENT_CAP + 9,
        r < EXPONENT_CAP ==> r == digits_value(s@.skip(from as int)),
        r >= EXPONENT_CAP ==> digits_value(s@.skip(from as int)) >= EXPONENT_CAP,
{
    let mut r: u128 = 0;
    let mut i: usize = from;
    let ghost t = s@.skip(from as int);
    assert(t.take(0).len() == 0);
    while i < s.len()
        invariant
            from <= i <= s@.len(),
            t == s@.skip(from as int),
            forall|j: int| from <= j < s@.len() ==> is_digit(#[trigger] s@[j]),
            r <= 10 * EXPONENT_CAP + 9,
            r < EXPONENT_CAP ==> r == digits_value(t.take(i - from)),
            r >= EXPONENT_CAP ==> digits_value(t.take(i - from)) >= EXPONENT_CAP,
        decreases s@.len() - i,
    {
        let c: char = s[i];
        assert(is_digit(s@[i as int]));
        proof {
            let next = t.take(i + 1 - from);
            assert(next.drop_last() =~= t.take(i - from));
            assert(next.last() == c);
        }
        if r < EXPONENT_CAP {
            r = r * 10 + ((c as u32) - 48) as u128;
        }
        i = i + 1;
    }
    assert(t.take(s@.len() - from) =~= t);
    r
}

/// The exponent part from `from` on: its sign and its size.
fn read_exponent(s: &Vec<char>, from: usize) -> (r: Option<(bool, u128)>)
    requires
        from <= s@.len(),
    ensures
        match exponent_part(s@.skip(from as int)) {
            None => r is None,
            Some(e) => r matches Some((negative, size)) && size <= 10 * EXPONENT_CAP + 9 && (if size
                < EXPONENT_CAP {
                e == (if negative {
                    -(size as int)
                } else {
                    size as int
                })
            } else {
                if negative {
                    e <= -(EXPONENT_CAP as int)
                } else {
                    e >= EXPONENT_CAP
                }
            }),
        },
{
    let ghost t = s@.skip(from as int);
    if from == s.len() {
        return Some((false, 0));
    }
    assert(t[0] == s@[from as int]);
    if s[from] != 'e' && s[from] != 'E' {
        return None;
    }
    let ghost u = t.skip(1);
    assert(u =~= s@.skip(from + 1));
    let mut start: usize = from + 1;
    let mut negative: bool = false;
    if start < s.len() && (s[start] == '-' || s[start] == '+') {
        negative = s[start] == '-';
        start = start + 1;
        assert(u.skip(1) =~= s@.skip(start as int));
    }
    assert(without_sign(u) == s@.skip(start as int));
    let ghost w = without_sign(u);
    let end: usize = run_end(s, start);
    if end == start || end != s.len() {
        return None;
    }
    proof {
        lemma_digit_run_bound(w);
        assert forall|j: int| start <= j < s@.len() implies is_digit(#[trigger] s@[j]) by {
            assert(w[j - start] == s@[j]);
        }
    }
    Some((negative, exponent_size(s, start)))
}

/// Whether all characters from `from` to `to` are digits.
spec fn all_digits(s: Seq<char>, from: int, to: int) -> bool {
    forall|j: int| from <= j < to ==> is_digit(#[trigger] s[j])
}

proof fn lemma_run_is_digits(s: Seq<char>, from: int, to: int)
    requires
        0 <= from <= to <= s.len(),
        digit_run(s.skip(from)) == to - from,
    ensures
        all_digits(s, from, to),
{
    let t = s.skip(from);
    lemma_digit_run_bound(t);
    assert forall|j: int| from <= j < to implies is_digit(#[trigger] s[j]) by {
        assert(t[j - from] == s[j]);
    }
}

/// The pattern of the decimal whose digits stand in two runs of `s`, the second
/// behind the point, with the exponent part after them.
fn assemble(s: &Vec<char>, from: usize, whole_end: usize, start: usize, end: usize) -> (r: Option<
    u32,
>)
    requires
        from <= whole_end <= start <= end <= s@.len(),
        all_digits(s@, from as int, whole_end as int),
        all_digits(s@, start as int, end as int),
    ensures
        match exponent_part(s@.skip(end as int)) {
            None => r is None,
            Some(e) => r matches Some(k) && k <= INFINITY_BITS && k == decimal_bits(
                digits_value(
                    s@.subrange(from as int, whole_end as int) + s@.subrange(
                        start as int,
                        end as int,
                    ),
                ),
                e - (end - start),
            ),
        },
{
    match read_exponent(s, end) {
        None => None,
        Some((negative, size)) => {
            let ghost whole = s@.subrange(from as int, whole_end as int);
            let ghost fraction = s@.subrange(start as int, end as int);
            let mut digits = BigNat::from_u32(0);
            take_digits(&mut digits, s, from, whole_end, Ghost(Seq::empty()));
            assert(Seq::<char>::empty() + whole =~= whole);
            take_digits(&mut digits, s, start, end, Ghost(whole));
            let places: usize = end - start;
            let count: usize = (whole_end - from) + places;
            proof {
                let all = whole + fraction;
                assert forall|j: int| 0 <= j < all.len() implies is_digit(#[trigger] all[j]) by {
                    if j < whole.len() {
                        assert(all[j] == s@[from + j]);
                    } else {
                        assert(all[j] == s@[start + j - whole.len()]);
                    }
                }
                lemma_digits_bound(all);
            }
            let exponent: i128 = if negative {
                -(size as i128) - (places as i128)
            } else {
                (size as i128) - (places as i128)
            };
            let r: u32 = scale(&digits, exponent, count);
            proof {
                let e = exponent_part(s@.skip(end as int))->Some_0;
                if size >= EXPONENT_CAP {
                    lemma_capped(digits@, count as nat, exponent as int, e - places);
                }
            }
            Some(r)
        },
    }
}

/// The pattern of the decimal that stands from `from` on.
fn read_decimal(s: &Vec<char>, from: usize) -> (r: Option<u32>)
    requires
        from <= s@.len(),
    ensures
        match decimal_parts(s@.skip(from as int)) {
            None => r is None,
            Some((digits, exponent)) => r matches Some(k) && k <= INFINITY_BITS && k
                == decimal_bits(digits, exponent),
        },
{
    let ghost t = s@.skip(from as int);
    let whole_end: usize = run_end(s, from);
    let ghost rest = t.skip(digit_run(t) as int);
    assert(rest =~= s@.skip(whole_end as int));
    assert(t.take(digit_run(t) as int) =~= s@.subrange(from as int, whole_end as int));
    proof {
        lemma_run_is_digits(s@, from as int, whole_end as int);
    }
    if whole_end < s.len() && s[whole_end] == '.' {
        let start: usize = whole_end + 1;
        let ghost after = rest.skip(1);
        assert(after =~= s@.skip(start as int));
        let end: usize = run_end(s, start);
        assert(after.skip(digit_run(after) as int) =~= s@.skip(end as int));
        assert(after.take(digit_run(after) as int) =~= s@.subrange(start as int, end as int));
        proof {
            lemma_run_is_digits(s@, start as int, end as int);
        }
        if whole_end == from && start == end {
            return None;
        }
        assemble(s, from, whole_end, start, end)
    } else {
        assert(s@.subrange(whole_end as int, whole_end as int) =~= Seq::<char>::empty());
        if whole_end == from {
            return None;
        }
        assemble(s, from, whole_end, whole_end, whole_end)
    }
}

/// Beyond the cap, every exponent gives the same pattern.
proof fn lemma_capped(digits: nat, count: nat, a: int, b: int)
    requires
        digits < pow(10, count),
        (a >= 46 && b >= 46) || (a <= -(count + 51) && b <= -(count + 51)),
    ensures
        decimal_bits(digits, a) == decimal_bits(digits, b),
{
    if a >= 46 {
        if digits == 0 {
            let t = pow(10, a as nat);
            let u = pow(10, b as nat);
            assert(digits * t == 0 && digits * u == 0) by (nonlinear_arith)
                requires
                    digits == 0,
            ;
        } else {
            lemma_too_large(digits, a as nat);
            lemma_too_large(digits, b as nat);
        }
    } else {
        lemma_too_small(digits, count, (-a) as nat);
        lemma_too_small(digits, count, (-b) as nat);
    }
}

/// The number with a given sign and size pattern.
fn sign(negative: bool, k: u32) -> (r: Num)
    requires
        k < SIGN_BIT,
    ensures
        r == signed(negative, k as nat),
{
    if negative {
        Num { bits: SIGN_BIT + k }
    } else {
        Num { bits: k }
    }
}

/// Reads the number that `s` writes.
pub fn parse_number(s: &str) -> (r: Option<Num>)
    ensures
        r == written_number(s@),
{
    let chars: Vec<char> = chars_of(s);
    let negative: bool = chars.len() > 0 && chars[0] == '-';
    let from: usize = if chars.len() > 0 && (chars[0] == '-' || chars[0] == '+') {
        1
    } else {
        0
    };
    assert(chars@.skip(0) =~= chars@);
    let nan: Vec<char> = vec!['n', 'a', 'n'];
    let inf: Vec<char> = vec!['i', 'n', 'f'];
    let infinity: Vec<char> = vec!['i', 'n', 'f', 'i', 'n', 'i', 't', 'y'];
    assert(nan@ =~= seq!['n', 'a', 'n']);
    assert(inf@ =~= seq!['i', 'n', 'f']);
    assert(infinity@ =~= seq!['i', 'n', 'f', 'i', 'n', 'i', 't', 'y']);
    if is_word(&chars, from, &nan) {
        return Some(sign(negative, NAN_BITS));
    }
    if is_word(&chars, from, &inf) || is_word(&chars, from, &infinity) {
        return Some(sign(negative, INFINITY_BITS));
    }
    match read_decimal(&chars, from) {
        None => None,
        Some(k) => Some(sign(negative, k)),
    }
}

} // verus!
