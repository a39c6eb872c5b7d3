//! What holds of every text that is split, trimmed or read as a number.
use crate::decimal::{
    decimal_parts, digits_value, has_minus, has_sign, is_digit, lemma_digit_run,
    lemma_digit_run_exact, small, written_number,
};
use crate::geometry::{
    empty_extent, extent, holds, law_extent_holds_anchors, written_bounds, written_insets,
    written_matrix, written_point, PathAnchor,
};
use crate::number::{
    is_finite, lemma_nearest_exact, less, magnitude, nearest, negated,
    signed, size_bits, units, whole, Num, INFINITY_BITS,
};
use crate::number_laws::law_size_grows;
use crate::reading_laws::is_tight;
use crate::text::{
    decimal, digit, is_space, numbers, numbers_among, separates, trimmed, trimmed_end,
    trimmed_start, word_len, words, written_i32, written_u32,
};
use crate::xml::{events_of, first_value, unified_lines, EventView};
use vstd::arithmetic::power::{lemma_pow_positive, pow};
use vstd::arithmetic::power2::{lemma_pow2_adds, lemma_pow2_pos, pow2};
use vstd::prelude::*;

verus! {

/// Whether a text has something in it and nothing that separates words.
pub open spec fn is_word(s: Seq<char>, ascii: bool) -> bool {
    s.len() > 0 && forall|i: int| 0 <= i < s.len() ==> !separates(#[trigger] s[i], ascii)
}

proof fn lemma_word_len_is(s: Seq<char>, ascii: bool, n: nat)
    requires
        n <= s.len(),
        forall|i: int| 0 <= i < n ==> !separates(#[trigger] s[i], ascii),
        n < s.len() ==> separates(s[n as int], ascii),
    ensures
        word_len(s, ascii) == n,
    decreases s.len(),
{
    if n > 0 {
        assert(!separates(s[0], ascii));
        let rest = s.skip(1);
        assert forall|i: int| 0 <= i < n - 1 implies !separates(#[trigger] rest[i], ascii) by {
            assert(rest[i] == s[i + 1]);
        }
        lemma_word_len_is(rest, ascii, (n - 1) as nat);
    }
}

proof fn lemma_word_len_bound(s: Seq<char>, ascii: bool)
    ensures
        word_len(s, ascii) <= s.len(),
        forall|i: int| 0 <= i < word_len(s, ascii) ==> !separates(#[trigger] s[i], ascii),
        word_len(s, ascii) < s.len() ==> separates(s[word_len(s, ascii) as int], ascii),
    decreases s.len(),
{
    if s.len() > 0 && !separates(s[0], ascii) {
        let rest = s.skip(1);
        lemma_word_len_bound(rest, ascii);
        assert forall|i: int| 0 <= i < word_len(s, ascii) implies !separates(
            #[trigger] s[i],
            ascii,
        ) by {
            if i > 0 {
                assert(rest[i - 1] == s[i]);
            }
        }
    }
}

/// A text without a separator is one word.
pub proof fn law_word_stays_whole(s: Seq<char>, ascii: bool)
    requires
        is_word(s, ascii),
    ensures
        words(s, ascii) == seq![s],
{
    lemma_word_len_is(s, ascii, s.len());
    assert(s.take(s.len() as int) =~= s);
    assert(s.skip(s.len() as int) =~= Seq::empty());
    assert(words(s.skip(s.len() as int), ascii) =~= Seq::empty());
    assert(words(s, ascii) =~= seq![s]);
}

/// What stands before a separator and what stands behind it are split each on its
/// own, and nothing else comes of it.
pub proof fn law_separator_splits(a: Seq<char>, c: char, b: Seq<char>, ascii: bool)
    requires
        separates(c, ascii),
    ensures
        words(a + seq![c] + b, ascii) == words(a, ascii) + words(b, ascii),
    decreases a.len(),
{
    let s = a + seq![c] + b;
    if a.len() == 0 {
        assert(s[0] == c);
        assert(s.skip(1) =~= b);
        assert(words(a, ascii) =~= Seq::empty());
        assert(words(s, ascii) =~= words(b, ascii));
        assert(words(a, ascii) + words(b, ascii) =~= words(b, ascii));
    } else if separates(a[0], ascii) {
        assert(s[0] == a[0]);
        assert(s.skip(1) =~= a.skip(1) + seq![c] + b);
        law_separator_splits(a.skip(1), c, b, ascii);
    } else {
        assert(s[0] == a[0]);
        lemma_word_len_bound(a, ascii);
        let n = word_len(a, ascii);
        assert forall|i: int| 0 <= i < n implies !separates(#[trigger] s[i], ascii) by {
            assert(s[i] == a[i]);
        }
        assert(s[n as int] == if n < a.len() { a[n as int] } else { c });
        lemma_word_len_is(s, ascii, n);
        assert(s.take(n as int) =~= a.take(n as int));
        assert(s.skip(n as int) =~= a.skip(n as int) + seq![c] + b);
        law_separator_splits(a.skip(n as int), c, b, ascii);
        assert(words(s, ascii) =~= words(a, ascii) + words(b, ascii));
    }
}

/// Every word has something in it and no separator.
pub proof fn law_words_are_words(s: Seq<char>, ascii: bool, i: int)
    requires
        0 <= i < words(s, ascii).len(),
    ensures
        is_word(words(s, ascii)[i], ascii),
    decreases s.len(),
{
    if separates(s[0], ascii) {
        law_words_are_words(s.skip(1), ascii, i);
    } else {
        lemma_word_len_bound(s, ascii);
        let n = word_len(s, ascii) as int;
        if i == 0 {
            assert(words(s, ascii)[0] == s.take(n));
            assert forall|j: int| 0 <= j < n implies !separates(
                #[trigger] s.take(n)[j],
                ascii,
            ) by {
                assert(s.take(n)[j] == s[j]);
            }
        } else {
            law_words_are_words(s.skip(n), ascii, i - 1);
            assert(words(s, ascii)[i] == words(s.skip(n), ascii)[i - 1]);
        }
    }
}

proof fn lemma_numbers_add(a: Seq<Seq<char>>, b: Seq<Seq<char>>)
    ensures
        numbers_among(a + b) == numbers_among(a) + numbers_among(b),
    decreases b.len(),
{
    if b.len() == 0 {
        assert(a + b =~= a);
        assert(numbers_among(a) + numbers_among(b) =~= numbers_among(a));
    } else {
        assert((a + b).drop_last() =~= a + b.drop_last());
        assert((a + b).last() == b.last());
        lemma_numbers_add(a, b.drop_last());
        assert(numbers_among(a + b) =~= numbers_among(a) + numbers_among(b));
    }
}

/// The numbers before a separator and those behind it are read each on their own,
/// in order.
pub proof fn law_numbers_stand_in_order(a: Seq<char>, c: char, b: Seq<char>, ascii: bool)
    requires
        separates(c, ascii),
    ensures
        numbers(a + seq![c] + b, ascii) == numbers(a, ascii) + numbers(b, ascii),
{
    law_separator_splits(a, c, b, ascii);
    lemma_numbers_add(words(a, ascii), words(b, ascii));
}

/// A word that writes a number is that number; another is none.
pub proof fn law_word_is_its_number(s: Seq<char>, ascii: bool)
    requires
        is_word(s, ascii),
    ensures
        numbers(s, ascii) == match written_number(s) {
            Some(n) => seq![n],
            None => Seq::empty(),
        },
{
    law_word_stays_whole(s, ascii);
    let w = words(s, ascii);
    assert(w.drop_last() =~= Seq::empty());
    assert(numbers_among(w.drop_last()) =~= Seq::empty());
    assert(numbers(s, ascii) =~= match written_number(s) {
        Some(n) => seq![n],
        None => Seq::empty(),
    });
}

/// Words behind one another, with a space between each two.
pub open spec fn spaced(items: Seq<Seq<char>>) -> Seq<char>
    decreases items.len(),
{
    if items.len() == 0 {
        Seq::empty()
    } else if items.len() == 1 {
        items[0]
    } else {
        spaced(items.drop_last()) + seq![' '] + items.last()
    }
}

/// Whether the words write the numbers.
pub open spec fn write(items: Seq<Seq<char>>, values: Seq<Num>) -> bool {
    &&& items.len() == values.len()
    &&& forall|i: int|
        0 <= i < items.len() ==> is_word(#[trigger] items[i], false) && written_number(items[i])
            == Some(values[i])
}

/// Words that write numbers are read as these numbers, in order.
pub proof fn law_written_numbers_are_read(items: Seq<Seq<char>>, values: Seq<Num>)
    requires
        write(items, values),
    ensures
        words(spaced(items), false) == items,
        numbers(spaced(items), false) == values,
    decreases items.len(),
{
    if items.len() == 0 {
        assert(words(spaced(items), false) =~= items);
        assert(numbers(spaced(items), false) =~= values);
    } else {
        let last = items.last();
        assert(is_word(items[items.len() - 1], false));
        law_word_stays_whole(last, false);
        law_word_is_its_number(last, false);
        if items.len() == 1 {
            assert(words(spaced(items), false) =~= items);
            assert(numbers(spaced(items), false) =~= values);
        } else {
            let front = items.drop_last();
            assert forall|i: int| 0 <= i < front.len() implies is_word(
                #[trigger] front[i],
                false,
            ) && written_number(front[i]) == Some(values.drop_last()[i]) by {
                assert(front[i] == items[i]);
            }
            law_written_numbers_are_read(front, values.drop_last());
            assert(separates(' ', false));
            law_separator_splits(spaced(front), ' ', last, false);
            law_numbers_stand_in_order(spaced(front), ' ', last, false);
            assert(words(spaced(items), false) =~= items);
            assert(numbers(spaced(items), false) =~= values);
        }
    }
}

/// A box is written by its top, left, bottom and right side, in this order.
pub proof fn law_bounds_are_written_from_the_top(items: Seq<Seq<char>>, values: Seq<Num>)
    requires
        write(items, values),
    ensures
        written_bounds(spaced(items)) is Some <==> items.len() == 4,
        written_bounds(spaced(items)) matches Some(b) ==> {
            &&& b.top == values[0]
            &&& b.left == values[1]
            &&& b.bottom == values[2]
            &&& b.right == values[3]
        },
{
    law_written_numbers_are_read(items, values);
}

/// Insets are written by the top, left, bottom and right one, in this order.
pub proof fn law_insets_are_written_from_the_top(items: Seq<Seq<char>>, values: Seq<Num>)
    requires
        write(items, values),
    ensures
        written_insets(spaced(items)) is Some <==> items.len() == 4,
        written_insets(spaced(items)) matches Some(b) ==> {
            &&& b.top == values[0]
            &&& b.left == values[1]
            &&& b.bottom == values[2]
            &&& b.right == values[3]
        },
{
    law_written_numbers_are_read(items, values);
}

/// A transform is written column by column, the shift last.
pub proof fn law_matrix_is_written_by_columns(items: Seq<Seq<char>>, values: Seq<Num>)
    requires
        write(items, values),
    ensures
        written_matrix(spaced(items)) is Some <==> items.len() == 6,
        written_matrix(spaced(items)) matches Some(m) ==> {
            &&& m.a == values[0]
            &&& m.b == values[1]
            &&& m.c == values[2]
            &&& m.d == values[3]
            &&& m.tx == values[4]
            &&& m.ty == values[5]
        },
{
    law_written_numbers_are_read(items, values);
}

/// A point is written by how far right it lies, then how far down.
pub proof fn law_point_is_written_across_first(items: Seq<Seq<char>>, values: Seq<Num>)
    requires
        write(items, values),
    ensures
        written_point(spaced(items)) is Some <==> items.len() >= 2,
        written_point(spaced(items)) matches Some(p) ==> p.0 == values[0] && p.1 == values[1],
{
    law_written_numbers_are_read(items, values);
    if items.len() >= 2 {
        assert(written_number(items[0]) == Some(values[0]));
        assert(written_number(items[1]) == Some(values[1]));
    }
}

/// Whether a text is spaces alone.
pub open spec fn is_blank(s: Seq<char>) -> bool {
    forall|i: int| 0 <= i < s.len() ==> is_space(#[trigger] s[i])
}

/// Whether a text neither starts nor ends with a space.
pub open spec fn is_bare(s: Seq<char>) -> bool {
    s.len() > 0 ==> !is_space(s[0]) && !is_space(s.last())
}

/// A text between spaces is trimmed to itself.
pub proof fn law_trimming_takes_the_spaces(before: Seq<char>, s: Seq<char>, behind: Seq<char>)
    requires
        is_blank(before),
        is_blank(behind),
        is_bare(s),
    ensures
        trimmed(before + s + behind) == s,
    decreases before.len() + behind.len(),
{
    let t = before + s + behind;
    if before.len() > 0 {
        assert(is_space(before[0]));
        assert(t[0] == before[0]);
        let less = before.skip(1);
        assert forall|i: int| 0 <= i < less.len() implies is_space(#[trigger] less[i]) by {
            assert(less[i] == before[i + 1]);
        }
        assert(t.skip(1) =~= less + s + behind);
        law_trimming_takes_the_spaces(less, s, behind);
    } else if s.len() == 0 {
        assert(t =~= behind);
        lemma_blank_is_trimmed(behind);
        assert(trimmed(t) =~= s);
    } else {
        assert(t =~= s + behind);
        assert(t[0] == s[0]);
        assert(trimmed_start(t) == t);
        lemma_end_is_trimmed(s, behind);
    }
}

proof fn lemma_blank_is_trimmed(s: Seq<char>)
    requires
        is_blank(s),
    ensures
        trimmed_start(s).len() == 0,
    decreases s.len(),
{
    if s.len() > 0 {
        assert(is_space(s[0]));
        let rest = s.skip(1);
        assert forall|i: int| 0 <= i < rest.len() implies is_space(#[trigger] rest[i]) by {
            assert(rest[i] == s[i + 1]);
        }
        lemma_blank_is_trimmed(rest);
    }
}

proof fn lemma_end_is_trimmed(s: Seq<char>, behind: Seq<char>)
    requires
        s.len() > 0,
        !is_space(s.last()),
        is_blank(behind),
    ensures
        trimmed_end(s + behind) == s,
    decreases behind.len(),
{
    let t = s + behind;
    if behind.len() > 0 {
        assert(is_space(behind[behind.len() - 1]));
        assert(t.last() == behind.last());
        let less = behind.drop_last();
        assert forall|i: int| 0 <= i < less.len() implies is_space(#[trigger] less[i]) by {
            assert(less[i] == behind[i]);
        }
        assert(t.drop_last() =~= s + less);
        lemma_end_is_trimmed(s, less);
    } else {
        assert(t =~= s);
    }
}

pub(crate) proof fn lemma_decimal_is_digits(n: nat)
    ensures
        decimal(n).len() > 0,
        forall|i: int| 0 <= i < decimal(n).len() ==> is_digit(#[trigger] decimal(n)[i]),
        digits_value(decimal(n)) == n,
    decreases n,
{
    let s = decimal(n);
    if n >= 10 {
        lemma_decimal_is_digits(n / 10);
        assert(s.drop_last() =~= decimal(n / 10));
        assert(s.last() == digit(n % 10));
    } else {
        assert(s.drop_last() =~= Seq::empty());
        assert(digits_value(s.drop_last()) == 0);
        assert(s.last() == digit(n));
    }
}

/// A whole number that is written in decimal is read as itself.
pub proof fn law_decimal_is_read_back(n: nat)
    ensures
        n <= u32::MAX ==> written_u32(decimal(n)) == Some(n as u32),
        n <= i32::MAX ==> written_i32(decimal(n)) == Some(n as i32),
        n <= 0x8000_0000 ==> written_i32(seq!['-'] + decimal(n)) == Some((-n) as i32),
        n > u32::MAX ==> written_u32(decimal(n)) is None,
{
    let s = decimal(n);
    lemma_decimal_is_digits(n);
    lemma_digit_run(s);
    assert(is_digit(s[0]));
    let t = seq!['-'] + s;
    assert(t[0] == '-');
    assert(t.skip(1) =~= s);
}

/// A whole number that is written in decimal is read as the number nearest to it.
pub proof fn law_decimal_names_its_number(n: nat)
    ensures
        written_number(decimal(n)) == Some(whole(n)),
{
    let s = decimal(n);
    lemma_decimal_is_digits(n);
    lemma_digit_run(s);
    assert(is_digit(s[0]) && small(s[0]) == s[0]);
    assert(s.take(s.len() as int) =~= s);
    assert(s.skip(s.len() as int) =~= Seq::empty());
    assert(s + Seq::<char>::empty() =~= s);
    assert(decimal_parts(s) == Some((n, 0int)));
    vstd::arithmetic::power::lemma_pow0(10);
    let t = pow(10, 0);
    assert(n * t == n) by (nonlinear_arith)
        requires
            t == 1,
    ;
    assert(seq!['n', 'a', 'n'][0] == 'n' && seq!['i', 'n', 'f'][0] == 'i');
    assert(seq!['i', 'n', 'f', 'i', 'n', 'i', 't', 'y'][0] == 'i');
}

/// A minus turns the sign of what is written behind it.
pub proof fn law_minus_turns_the_sign(s: Seq<char>)
    requires
        !has_sign(s),
    ensures
        written_number(seq!['-'] + s) == match written_number(s) {
            Some(n) => Some(negated(n)),
            None => None,
        },
{
    let t = seq!['-'] + s;
    assert(t[0] == '-');
    assert(t.skip(1) =~= s);
    if let Some((digits, exponent)) = decimal_parts(s) {
        lemma_bits_are_bounded(digits, exponent);
    }
}

proof fn lemma_bits_are_bounded(digits: nat, exponent: int)
    ensures
        crate::decimal::decimal_bits(digits, exponent) <= INFINITY_BITS,
{
    if exponent >= 0 {
        let x = (digits * pow(10, exponent as nat)) as nat * pow2(150);
        crate::number_laws::lemma_there_is_a_nearest(x, 1, 0);
    } else {
        lemma_pow_positive(10, (-exponent) as nat);
        let x = digits * pow2(150);
        crate::number_laws::lemma_there_is_a_nearest(
            x,
            pow(10, (-exponent) as nat) as nat,
            0,
        );
    }
}

/// A number that is written with a point has the value of its digits, each digit
/// behind the point counting a tenth of the one before it, where that is the value
/// of a number.
pub proof fn law_decimal_point_divides(w: Seq<char>, f: Seq<char>, r: Num)
    requires
        w.len() + f.len() > 0,
        forall|i: int| 0 <= i < w.len() ==> is_digit(#[trigger] w[i]),
        forall|i: int| 0 <= i < f.len() ==> is_digit(#[trigger] f[i]),
        is_finite(r),
        units(r) * pow(10, f.len()) == digits_value(w + f) * pow2(149),
    ensures
        written_number(w + seq!['.'] + f) matches Some(x) && is_finite(x) && units(x) == units(r),
{
    let s = w + seq!['.'] + f;
    assert(s[w.len() as int] == '.');
    assert forall|i: int| 0 <= i < w.len() implies is_digit(#[trigger] s[i]) by {
        assert(s[i] == w[i]);
    }
    lemma_digit_run_exact(s, w.len());
    let rest = s.skip(w.len() as int);
    assert(rest[0] == '.');
    assert(rest.skip(1) =~= f);
    lemma_digit_run_exact(f, f.len());
    assert(f.take(f.len() as int) =~= f);
    assert(f.skip(f.len() as int) =~= Seq::empty());
    assert(s.take(w.len() as int) =~= w);
    let n = digits_value(w + f);
    let e = -(f.len() as int);
    assert(decimal_parts(s) == Some((n, e)));
    assert(s[0] == if w.len() > 0 { w[0] } else { '.' });
    assert(w.len() > 0 ==> is_digit(w[0]));
    assert(!has_sign(s) && !has_minus(s));
    assert(small(s[0]) == s[0]);
    assert(seq!['n', 'a', 'n'][0] == 'n' && seq!['i', 'n', 'f'][0] == 'i');
    assert(seq!['i', 'n', 'f', 'i', 'n', 'i', 't', 'y'][0] == 'i');
    lemma_pow_positive(10, f.len());
    let d = pow(10, f.len()) as nat;
    let k = size_bits(r);
    lemma_pow2_pos(149);
    lemma_pow2_adds(1, 149);
    vstd::arithmetic::power2::lemma2_to64();
    let u = pow2(149);
    if k > 0 {
        law_size_grows(0, k);
    }
    let m = magnitude(k);
    assert(m * d == n * u) by (nonlinear_arith)
        requires
            units(r) == m || units(r) == -m,
            units(r) * d == n * u,
            m >= 0,
            n >= 0,
            u > 0,
            d > 0,
    ;
    assert(units(r) == m) by (nonlinear_arith)
        requires
            units(r) == m || units(r) == -m,
            units(r) * d == n * u,
            m >= 0,
            n >= 0,
            u > 0,
            d > 0,
    ;
    assert(n * (2 * u) == 2 * (m * d)) by (nonlinear_arith)
        requires
            m * d == n * u,
    ;
    lemma_nearest_exact(k, d);
    vstd::arithmetic::power::lemma_pow0(10);
    if f.len() == 0 {
        assert(d == 1);
        let t = pow(10, 0);
        assert(t == 1);
        assert(n * t == n) by (nonlinear_arith)
            requires
                t == 1,
        ;
        assert(crate::decimal::decimal_bits(n, 0) == nearest(n * pow2(150), 1));
    }
    assert(crate::decimal::decimal_bits(n, e) == k);
    assert(written_number(s) == Some(signed(false, k)));
}

/// Unified lines have no carriage return.
pub proof fn law_unified_lines_have_no_return(s: Seq<char>, i: int)
    requires
        0 <= i < unified_lines(s).len(),
    ensures
        unified_lines(s)[i] != '\r',
    decreases s.len(),
{
    if s.len() > 0 {
        let n: int = if s[0] == '\r' && s.len() > 1 && s[1] == '\n' {
            2
        } else {
            1
        };
        if i > 0 {
            law_unified_lines_have_no_return(s.skip(n), i - 1);
        }
    }
}

/// A text without a carriage return stays as it is.
pub proof fn law_unified_lines_keep_the_rest(s: Seq<char>)
    requires
        forall|i: int| 0 <= i < s.len() ==> #[trigger] s[i] != '\r',
    ensures
        unified_lines(s) == s,
    decreases s.len(),
{
    if s.len() > 0 {
        let rest = s.skip(1);
        assert(s[0] != '\r');
        assert forall|i: int| 0 <= i < rest.len() implies #[trigger] rest[i] != '\r' by {
            assert(rest[i] == s[i + 1]);
        }
        law_unified_lines_keep_the_rest(rest);
        assert(seq![s[0]] + rest =~= s);
    }
}

/// A carriage return, with the line feed behind it where there is one, is one line
/// feed; what stands before and behind is unified on its own.
pub proof fn law_return_is_a_line_feed(a: Seq<char>, b: Seq<char>)
    ensures
        unified_lines(a + seq!['\r', '\n'] + b) == unified_lines(a) + seq!['\n'] + unified_lines(b),
        b.len() == 0 || b[0] != '\n' ==> unified_lines(a + seq!['\r'] + b) == unified_lines(a)
            + seq!['\n'] + unified_lines(b),
    decreases a.len(),
{
    let s = a + seq!['\r', '\n'] + b;
    let t = a + seq!['\r'] + b;
    if a.len() == 0 {
        assert(s[0] == '\r' && s[1] == '\n' && s.skip(2) =~= b);
        assert(t[0] == '\r' && t.skip(1) =~= b);
        assert(b.len() > 0 ==> t[1] == b[0]);
        assert(unified_lines(a) =~= Seq::empty());
        assert(seq!['\n'] + unified_lines(b) =~= unified_lines(a) + seq!['\n'] + unified_lines(b));
    } else {
        let n: int = if a[0] == '\r' && a.len() > 1 && a[1] == '\n' {
            2
        } else {
            1
        };
        let rest = a.skip(n);
        assert(s[0] == a[0] && t[0] == a[0]);
        assert(s[1] == if a.len() > 1 { a[1] } else { '\r' });
        assert(t[1] == if a.len() > 1 { a[1] } else { '\r' });
        assert(s.skip(n) =~= rest + seq!['\r', '\n'] + b);
        assert(t.skip(n) =~= rest + seq!['\r'] + b);
        law_return_is_a_line_feed(rest, b);
        let head = if a[0] == '\r' {
            seq!['\n']
        } else {
            seq![a[0]]
        };
        assert(unified_lines(a) == head + unified_lines(rest));
        assert(head + (unified_lines(rest) + seq!['\n'] + unified_lines(b)) =~= (head
            + unified_lines(rest)) + seq!['\n'] + unified_lines(b));
    }
}

/// The first attribute with a name gives its value; attributes that cannot be read
/// are passed over.
pub proof fn law_first_attribute_stands(
    attributes: Seq<Option<(Seq<u8>, Seq<u8>)>>,
    key: Seq<u8>,
    k: int,
)
    requires
        0 <= k < attributes.len(),
        attributes[k] matches Some((name, _)) && name == key,
        forall|i: int|
            0 <= i < k ==> (#[trigger] attributes[i] matches Some((name, _)) ==> name != key),
    ensures
        first_value(attributes, key) == match attributes[k] {
            Some((_, value)) => Some(value),
            None => None,
        },
    decreases k,
{
    if k > 0 {
        let rest = attributes.skip(1);
        assert(attributes[0] matches Some((name, _)) ==> name != key);
        assert forall|i: int| 0 <= i < k - 1 implies (#[trigger] rest[i] matches Some(
            (name, _),
        ) ==> name != key) by {
            assert(rest[i] == attributes[i + 1]);
        }
        assert(rest[k - 1] == attributes[k]);
        law_first_attribute_stands(rest, key, k - 1);
    }
}

/// Where no attribute has a name, there is no value.
pub proof fn law_unstated_attribute_is_none(
    attributes: Seq<Option<(Seq<u8>, Seq<u8>)>>,
    key: Seq<u8>,
)
    requires
        forall|i: int|
            0 <= i < attributes.len() ==> (#[trigger] attributes[i] matches Some((name, _))
                ==> name != key),
    ensures
        first_value(attributes, key) is None,
    decreases attributes.len(),
{
    if attributes.len() > 0 {
        let rest = attributes.skip(1);
        assert(attributes[0] matches Some((name, _)) ==> name != key);
        assert forall|i: int| 0 <= i < rest.len() implies (#[trigger] rest[i] matches Some(
            (name, _),
        ) ==> name != key) by {
            assert(rest[i] == attributes[i + 1]);
        }
        law_unstated_attribute_is_none(rest, key);
    }
}

/// The events of a document are all that come before its end, in order; a document
/// that cannot be read before its end has none.
pub proof fn law_events_are_all_before_the_end(outcomes: Seq<Option<EventView>>, n: int)
    requires
        0 <= n < outcomes.len(),
        outcomes[n] is None || outcomes[n] == Some(EventView::Eof),
        forall|i: int|
            0 <= i < n ==> #[trigger] outcomes[i] is Some && outcomes[i] != Some(EventView::Eof),
    ensures
        outcomes[n] is None ==> events_of(outcomes) is None,
        outcomes[n] is Some ==> (events_of(outcomes) matches Some(events) && {
            &&& events.len() == n
            &&& forall|i: int| 0 <= i < n ==> Some(#[trigger] events[i]) == outcomes[i]
        }),
    decreases n,
{
    if n > 0 {
        let rest = outcomes.skip(1);
        assert(outcomes[0] is Some && outcomes[0] != Some(EventView::Eof));
        assert forall|i: int| 0 <= i < n - 1 implies #[trigger] rest[i] is Some && rest[i] != Some(
            EventView::Eof,
        ) by {
            assert(rest[i] == outcomes[i + 1]);
        }
        assert(rest[n - 1] == outcomes[n]);
        law_events_are_all_before_the_end(rest, n - 1);
        if outcomes[n] is Some {
            let events = events_of(outcomes)->0;
            let more = events_of(rest)->0;
            assert(events == seq![outcomes[0]->0] + more);
            assert forall|i: int| 0 <= i < n implies Some(#[trigger] events[i]) == outcomes[i] by {
                if i > 0 {
                    assert(events[i] == more[i - 1]);
                    assert(rest[i - 1] == outcomes[i]);
                }
            }
        }
    }
}

/// The box round a path whose points are all numbers is the smallest: it holds every
/// point, and each of its sides runs through one.
pub proof fn law_extent_is_tight(anchors: Seq<PathAnchor>)
    requires
        anchors.len() > 0,
        forall|i: int|
            0 <= i < anchors.len() ==> is_finite((#[trigger] anchors[i]).anchor.0) && is_finite(
                anchors[i].anchor.1,
            ),
    ensures
        forall|i: int|
            0 <= i < anchors.len() ==> holds(extent(anchors), (#[trigger] anchors[i]).anchor),
        is_tight(extent(anchors), anchors),
    decreases anchors.len(),
{
    assert forall|i: int| 0 <= i < anchors.len() implies holds(
        extent(anchors),
        (#[trigger] anchors[i]).anchor,
    ) by {
        law_extent_holds_anchors(anchors, i);
    }
    let front = anchors.drop_last();
    let last = anchors.len() - 1;
    assert(is_finite(anchors[last].anchor.0) && is_finite(anchors[last].anchor.1));
    if front.len() > 0 {
        assert forall|i: int| 0 <= i < front.len() implies is_finite(
            (#[trigger] front[i]).anchor.0,
        ) && is_finite(front[i].anchor.1) by {
            assert(front[i] == anchors[i]);
        }
        law_extent_is_tight(front);
        let a = extent(front);
        let l = choose|i: int| 0 <= i < front.len() && a.left == (#[trigger] front[i]).anchor.0;
        let r = choose|i: int| 0 <= i < front.len() && a.right == (#[trigger] front[i]).anchor.0;
        let t = choose|i: int| 0 <= i < front.len() && a.top == (#[trigger] front[i]).anchor.1;
        let m = choose|i: int| 0 <= i < front.len() && a.bottom == (#[trigger] front[i]).anchor.1;
        assert(front[l] == anchors[l] && front[r] == anchors[r]);
        assert(front[t] == anchors[t] && front[m] == anchors[m]);
    } else {
        let e = empty_extent();
        let p = anchors[last].anchor;
        assert(extent(front) == e);
        assert(size_bits(e.top) == INFINITY_BITS && size_bits(e.bottom) == INFINITY_BITS);
        assert(less(p.0, e.left) && less(e.right, p.0));
        assert(less(p.1, e.top) && less(e.bottom, p.1));
    }
}

} // verus!
