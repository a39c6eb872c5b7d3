//! Reading and cutting text, character by character.
use crate::decimal::{
    digits_value, has_minus, is_digit, is_digits, parse_number, without_sign, written_number,
};
use crate::number::Num;
use vstd::prelude::*;

verus! {

/// The characters of `s`, one by one.
pub fn chars_of(s: &str) -> (r: Vec<char>)
    ensures
        r@ == s@,
{
    let mut r: Vec<char> = Vec::new();
    for c in it: s.chars()
        invariant
            r@ == it.seq().take(it.index()),
            it.seq() == s@,
    {
        r.push(c);
    }
    assert(s@.take(s@.len() as int) =~= s@);
    r
}

/// `String::push`: appends one character.
pub assume_specification[ String::push ](s: &mut String, c: char)
    ensures
        final(s)@ == old(s)@.push(c),
;

/// The characters from `from` to `to`, as a text of their own.
pub fn text_between(s: &Vec<char>, from: usize, to: usize) -> (r: String)
    requires
        from <= to <= s@.len(),
    ensures
        r@ == s@.subrange(from as int, to as int),
{
    let mut r = String::new();
    let mut i: usize = from;
    assert(s@.subrange(from as int, from as int) =~= Seq::<char>::empty());
    while i < to
        invariant
            from <= i <= to <= s@.len(),
            r@ == s@.subrange(from as int, i as int),
        decreases to - i,
    {
        r.push(s[i]);
        assert(s@.subrange(from as int, i as int).push(s@[i as int]) =~= s@.subrange(
            from as int,
            i + 1,
        ));
        i = i + 1;
    }
    r
}

/// Whether `c` is white space: the characters with the Unicode property
/// `White_Space`.
pub open spec fn is_space(c: char) -> bool {
    let n = c as u32;
    ||| 0x9 <= n <= 0xd
    ||| n == 0x20
    ||| n == 0x85
    ||| n == 0xa0
    ||| n == 0x1680
    ||| 0x2000 <= n <= 0x200a
    ||| n == 0x2028
    ||| n == 0x2029
    ||| n == 0x202f
    ||| n == 0x205f
    ||| n == 0x3000
}

/// Whether `c` is white space among the ASCII characters; the vertical tab is
/// not counted.
pub open spec fn is_ascii_space(c: char) -> bool {
    c == ' ' || c == '\t' || c == '\n' || c == '\r' || c as u32 == 0xc
}

/// Whether `c` separates words; `ascii` leaves all but ASCII white space to the
/// words.
pub open spec fn separates(c: char, ascii: bool) -> bool {
    if ascii {
        is_ascii_space(c)
    } else {
        is_space(c)
    }
}

/// Whether `c` separates words.
pub fn test_separates(c: char, ascii: bool) -> (r: bool)
    ensures
        r == separates(c, ascii),
{
    let n: u32 = c as u32;
    if ascii {
        n == 0x20 || n == 0x9 || n == 0xa || n == 0xd || n == 0xc
    } else {
        (n >= 0x9 && n <= 0xd) || n == 0x20 || n == 0x85 || n == 0xa0 || n == 0x1680 || (n >= 0x2000
            && n <= 0x200a) || n == 0x2028 || n == 0x2029 || n == 0x202f || n == 0x205f || n
            == 0x3000
    }
}

/// The length of the word that `s` starts with.
pub open spec fn word_len(s: Seq<char>, ascii: bool) -> nat
    decreases s.len(),
{
    if s.len() == 0 || separates(s[0], ascii) {
        0
    } else {
        1 + word_len(s.skip(1), ascii)
    }
}

/// The words of `s`: its longest stretches without white space.
pub open spec fn words(s: Seq<char>, ascii: bool) -> Seq<Seq<char>>
    decreases s.len(),
{
    if s.len() == 0 {
        Seq::empty()
    } else if separates(s[0], ascii) {
        words(s.skip(1), ascii)
    } else {
        let n = word_len(s, ascii) as int;
        if 0 < n <= s.len() {
            seq![s.take(n)] + words(s.skip(n), ascii)
        } else {
            Seq::empty()
        }
    }
}

proof fn lemma_word_len(s: Seq<char>, ascii: bool, n: nat)
    requires
        n <= s.len(),
        forall|i: int| 0 <= i < n ==> !separates(#[trigger] s[i], ascii),
        n < s.len() ==> separates(s[n as int], ascii),
    ensures
        word_len(s, ascii) == n,
    decreases n,
{
    if n > 0 {
        assert(!separates(s[0], ascii));
        assert forall|i: int| 0 <= i < n - 1 implies !separates(#[trigger] s.skip(1)[i], ascii) by {
            assert(s.skip(1)[i] == s[i + 1]);
        }
        lemma_word_len(s.skip(1), ascii, (n - 1) as nat);
    }
}

/// The words of `s`.
pub fn split_words(s: &str, ascii: bool) -> (r: Vec<String>)
    ensures
        r.deep_view() == words(s@, ascii),
{
    let chars: Vec<char> = chars_of(s);
    let ghost t = chars@;
    let mut r: Vec<String> = Vec::new();
    let mut i: usize = 0;
    assert(t.skip(0) =~= t);
    assert(r.deep_view() + words(t, ascii) =~= words(t, ascii));
    while i < chars.len()
        invariant
            i <= t.len(),
            t == chars@,
            r.deep_view() + words(t.skip(i as int), ascii) == words(t, ascii),
        decreases t.len() - i,
    {
        let ghost rest = t.skip(i as int);
        assert(rest[0] == t[i as int]);
        if test_separates(chars[i], ascii) {
            assert(rest.skip(1) =~= t.skip(i + 1));
            i = i + 1;
        } else {
            let mut j: usize = i + 1;
            while j < chars.len() && !test_separates(chars[j], ascii)
                invariant
                    i < j <= t.len(),
                    t == chars@,
                    forall|k: int| i <= k < j ==> !separates(#[trigger] t[k], ascii),
                decreases t.len() - j,
            {
                j = j + 1;
            }
            proof {
                assert forall|k: int| 0 <= k < j - i implies !separates(
                    #[trigger] rest[k],
                    ascii,
                ) by {
                    assert(rest[k] == t[i + k]);
                }
                lemma_word_len(rest, ascii, (j - i) as nat);
                assert(rest.skip(j - i) =~= t.skip(j as int));
                assert(rest.take(j - i) =~= t.subrange(i as int, j as int));
            }
            let word: String = text_between(&chars, i, j);
            let ghost before = r.deep_view();
            r.push(word);
            proof {
                assert(r.deep_view() =~= before.push(t.subrange(i as int, j as int)));
                assert(before + (seq![t.subrange(i as int, j as int)] + words(
                    t.skip(j as int),
                    ascii,
                )) =~= r.deep_view() + words(t.skip(j as int), ascii));
            }
            i = j;
        }
    }
    assert(r.deep_view() + words(t.skip(i as int), ascii) =~= r.deep_view());
    r
}

/// The numbers among `items`, in order; what is not a number is left out.
pub open spec fn numbers_among(items: Seq<Seq<char>>) -> Seq<Num>
    decreases items.len(),
{
    if items.len() == 0 {
        Seq::empty()
    } else {
        let before = numbers_among(items.drop_last());
        match written_number(items.last()) {
            None => before,
            Some(n) => before.push(n),
        }
    }
}

/// The numbers that `s` lists between white space.
pub open spec fn numbers(s: Seq<char>, ascii: bool) -> Seq<Num> {
    numbers_among(words(s, ascii))
}

/// Reads the numbers that `s` lists between white space.
pub fn parse_numbers(s: &str, ascii: bool) -> (r: Vec<Num>)
    ensures
        r@ == numbers(s@, ascii),
{
    let items: Vec<String> = split_words(s, ascii);
    let ghost all = items.deep_view();
    let mut r: Vec<Num> = Vec::new();
    let mut i: usize = 0;
    assert(all.take(0).len() == 0);
    while i < items.len()
        invariant
            i <= items@.len(),
            all == items.deep_view(),
            r@ == numbers_among(all.take(i as int)),
        decreases items@.len() - i,
    {
        assert(all.take(i + 1).drop_last() =~= all.take(i as int));
        assert(all.take(i + 1).last() == items@[i as int]@);
        if let Some(n) = parse_number(items[i].as_str()) {
            r.push(n);
        }
        i = i + 1;
    }
    assert(all.take(items@.len() as int) =~= all);
    r
}

/// `s` without the white space at its start.
pub open spec fn trimmed_start(s: Seq<char>) -> Seq<char>
    decreases s.len(),
{
    if s.len() > 0 && is_space(s[0]) {
        trimmed_start(s.skip(1))
    } else {
        s
    }
}

/// `s` without the white space at its end.
pub open spec fn trimmed_end(s: Seq<char>) -> Seq<char>
    decreases s.len(),
{
    if s.len() > 0 && is_space(s.last()) {
        trimmed_end(s.drop_last())
    } else {
        s
    }
}

/// `s` without the white space around it.
pub open spec fn trimmed(s: Seq<char>) -> Seq<char> {
    trimmed_end(trimmed_start(s))
}

/// Cuts the white space around `s` off.
pub fn trim(s: &str) -> (r: String)
    ensures
        r@ == trimmed(s@),
{
    let chars: Vec<char> = chars_of(s);
    let ghost t = chars@;
    let mut from: usize = 0;
    assert(t.skip(0) =~= t);
    while from < chars.len() && test_separates(chars[from], false)
        invariant
            from <= t.len(),
            t == chars@,
            trimmed_start(t) == trimmed_start(t.skip(from as int)),
        decreases t.len() - from,
    {
        assert(t.skip(from as int)[0] == t[from as int]);
        assert(t.skip(from as int).skip(1) =~= t.skip(from + 1));
        from = from + 1;
    }
    let ghost u = t.skip(from as int);
    assert(from < t.len() ==> u[0] == t[from as int]);
    assert(trimmed_start(t) == u);
    let mut to: usize = chars.len();
    assert(t.subrange(from as int, to as int) =~= u);
    while to > from && test_separates(chars[to - 1], false)
        invariant
            from <= to <= t.len(),
            t == chars@,
            trimmed_end(u) == trimmed_end(t.subrange(from as int, to as int)),
        decreases to,
    {
        let ghost v = t.subrange(from as int, to as int);
        assert(v.last() == t[to - 1]);
        assert(v.drop_last() =~= t.subrange(from as int, to - 1));
        to = to - 1;
    }
    proof {
        let v = t.subrange(from as int, to as int);
        if to > from {
            assert(v.last() == t[to - 1]);
        }
        assert(trimmed_end(v) == v);
    }
    text_between(&chars, from, to)
}

/// Whether `s` starts with `prefix`.
pub open spec fn starts_with(s: Seq<char>, prefix: Seq<char>) -> bool {
    prefix.len() <= s.len() && s.take(prefix.len() as int) == prefix
}

/// Whether `s`, from its first character that is not white space on, starts
/// with `prefix`.
pub fn starts_after_space(s: &str, prefix: &str) -> (r: bool)
    ensures
        r == starts_with(trimmed_start(s@), prefix@),
{
    let chars: Vec<char> = chars_of(s);
    let wanted: Vec<char> = chars_of(prefix);
    let ghost t = chars@;
    let mut from: usize = 0;
    assert(t.skip(0) =~= t);
    while from < chars.len() && test_separates(chars[from], false)
        invariant
            from <= t.len(),
            t == chars@,
            trimmed_start(t) == trimmed_start(t.skip(from as int)),
        decreases t.len() - from,
    {
        assert(t.skip(from as int)[0] == t[from as int]);
        assert(t.skip(from as int).skip(1) =~= t.skip(from + 1));
        from = from + 1;
    }
    let ghost u = t.skip(from as int);
    assert(from < t.len() ==> u[0] == t[from as int]);
    assert(trimmed_start(t) == u);
    let n: usize = chars.len();
    if n - from < wanted.len() {
        return false;
    }
    let mut i: usize = 0;
    while i < wanted.len()
        invariant
            i <= wanted@.len(),
            n == chars@.len(),
            from + wanted@.len() <= n,
            u == chars@.skip(from as int),
            trimmed_start(s@) == u,
            wanted@ == prefix@,
            forall|j: int| 0 <= j < i ==> u[j] == wanted@[j],
        decreases wanted@.len() - i,
    {
        assert(u[i as int] == chars@[from + i]);
        if chars[from + i] != wanted[i] {
            assert(u.take(wanted@.len() as int)[i as int] != wanted@[i as int]);
            return false;
        }
        i = i + 1;
    }
    assert(u.take(wanted@.len() as int) =~= wanted@);
    true
}

/// Whether `s` and `t` hold the same characters.
pub fn same_text(s: &str, t: &str) -> (r: bool)
    ensures
        r == (s@ == t@),
{
    let a: Vec<char> = chars_of(s);
    let b: Vec<char> = chars_of(t);
    if a.len() != b.len() {
        return false;
    }
    let mut i: usize = 0;
    while i < a.len()
        invariant
            i <= a@.len(),
            a@.len() == b@.len(),
            a@ == s@,
            b@ == t@,
            forall|j: int| 0 <= j < i ==> a@[j] == b@[j],
        decreases a@.len() - i,
    {
        if a[i] != b[i] {
            return false;
        }
        i = i + 1;
    }
    assert(a@ =~= b@);
    true
}

/// Whether `a` and `b` hold the same bytes.
pub fn same_bytes(a: &[u8], b: &[u8]) -> (r: bool)
    ensures
        r == (a@ == b@),
{
    if a.len() != b.len() {
        return false;
    }
    let mut i: usize = 0;
    while i < a.len()
        invariant
            i <= a@.len(),
            a@.len() == b@.len(),
            forall|j: int| 0 <= j < i ==> a@[j] == b@[j],
        decreases a@.len() - i,
    {
        if a[i] != b[i] {
            return false;
        }
        i = i + 1;
    }
    assert(a@ =~= b@);
    true
}

/// The truth value that `s` writes: `true` or `false`.
pub open spec fn written_bool(s: Seq<char>) -> Option<bool> {
    if s == "true"@ {
        Some(true)
    } else if s == "false"@ {
        Some(false)
    } else {
        None
    }
}

/// Reads a truth value.
pub fn parse_bool(s: &str) -> (r: Option<bool>)
    ensures
        r == written_bool(s@),
{
    if same_text(s, "true") {
        Some(true)
    } else if same_text(s, "false") {
        Some(false)
    } else {
        None
    }
}

/// The number that `s` writes as a plain whole number: digits, with an optional
/// plus sign.
pub open spec fn written_u32(s: Seq<char>) -> Option<u32> {
    let body = without_sign(s);
    if has_minus(s) || !is_digits(body) || digits_value(body) > u32::MAX {
        None
    } else {
        Some(digits_value(body) as u32)
    }
}

/// The number that `s` writes as a whole number: digits, with an optional sign.
pub open spec fn written_i32(s: Seq<char>) -> Option<i32> {
    let body = without_sign(s);
    if !is_digits(body) {
        None
    } else if has_minus(s) {
        if digits_value(body) <= 0x8000_0000 {
            Some((-(digits_value(body) as int)) as i32)
        } else {
            None
        }
    } else if digits_value(body) <= i32::MAX {
        Some(digits_value(body) as i32)
    } else {
        None
    }
}

proof fn lemma_is_digits(s: Seq<char>)
    ensures
        is_digits(s) == (
            s.len() > 0 && forall|i: int| 0 <= i < s.len() ==> is_digit(#[trigger] s[i])
        ),
{
    crate::decimal::lemma_digit_run(s);
}

proof fn lemma_digits_grow(s: Seq<char>, n: int)
    requires
        0 <= n <= s.len(),
    ensures
        digits_value(s.take(n)) <= digits_value(s),
    decreases s.len() - n,
{
    if n == s.len() {
        assert(s.take(n) =~= s);
    } else {
        lemma_digits_grow(s, n + 1);
        assert(s.take(n + 1).drop_last() =~= s.take(n));
    }
}

/// The value of the digits from `from` on, where it stays below `2^32`.
fn read_digits(s: &Vec<char>, from: usize) -> (r: Option<u32>)
    requires
        from <= s@.len(),
    ensures
        r == (if is_digits(s@.skip(from as int)) && digits_value(s@.skip(from as int)) <= u32::MAX {
            Some(digits_value(s@.skip(from as int)) as u32)
        } else {
            None
        }),
{
    let ghost t = s@.skip(from as int);
    proof {
        lemma_is_digits(t);
    }
    if from == s.len() {
        return None;
    }
    let mut value: u32 = 0;
    let mut i: usize = from;
    assert(t.take(0).len() == 0);
    while i < s.len()
        invariant
            from <= i <= s@.len(),
            t == s@.skip(from as int),
            is_digits(t) == (t.len() > 0 && forall|j: int|
                0 <= j < t.len() ==> is_digit(#[trigger] t[j])),
            forall|j: int| 0 <= j < i - from ==> is_digit(#[trigger] t[j]),
            value == digits_value(t.take(i - from)),
        decreases s@.len() - i,
    {
        let c: char = s[i];
        assert(t[i - from] == c);
        if !(c >= '0' && c <= '9') {
            return None;
        }
        let d: u32 = (c as u32) - 48;
        proof {
            assert(t.take(i - from + 1).drop_last() =~= t.take(i - from));
            assert(t.take(i - from + 1).last() == c);
            lemma_digits_grow(t, i - from + 1);
        }
        let wide: u64 = (value as u64) * 10 + (d as u64);
        if wide > 0xffff_ffff {
            return None;
        }
        value = wide as u32;
        i = i + 1;
    }
    assert(t.take(s@.len() - from) =~= t);
    Some(value)
}

/// Reads a whole number that is not negative.
pub fn parse_u32(s: &str) -> (r: Option<u32>)
    ensures
        r == written_u32(s@),
{
    let chars: Vec<char> = chars_of(s);
    assert(chars@.skip(0) =~= chars@);
    if chars.len() > 0 && chars[0] == '-' {
        None
    } else if chars.len() > 0 && chars[0] == '+' {
        read_digits(&chars, 1)
    } else {
        read_digits(&chars, 0)
    }
}

/// Reads a whole number.
pub fn parse_i32(s: &str) -> (r: Option<i32>)
    ensures
        r == written_i32(s@),
{
    let chars: Vec<char> = chars_of(s);
    assert(chars@.skip(0) =~= chars@);
    let negative: bool = chars.len() > 0 && chars[0] == '-';
    let from: usize = if chars.len() > 0 && (chars[0] == '-' || chars[0] == '+') {
        1
    } else {
        0
    };
    match read_digits(&chars, from) {
        None => None,
        Some(n) => if negative {
            if n <= 0x8000_0000 {
                Some((-(n as i64)) as i32)
            } else {
                None
            }
        } else if n <= 0x7fff_ffff {
            Some(n as i32)
        } else {
            None
        },
    }
}

/// The digit of a value below ten.
pub open spec fn digit(d: nat) -> char {
    if d == 0 {
        '0'
    } else if d == 1 {
        '1'
    } else if d == 2 {
        '2'
    } else if d == 3 {
        '3'
    } else if d == 4 {
        '4'
    } else if d == 5 {
        '5'
    } else if d == 6 {
        '6'
    } else if d == 7 {
        '7'
    } else if d == 8 {
        '8'
    } else {
        '9'
    }
}

/// `n` in decimal.
pub open spec fn decimal(n: nat) -> Seq<char>
    decreases n,
{
    if n < 10 {
        seq![digit(n)]
    } else {
        decimal(n / 10).push(digit(n % 10))
    }
}

fn digit_of(d: u64) -> (r: char)
    requires
        d < 10,
    ensures
        r == digit(d as nat),
{
    if d == 0 {
        '0'
    } else if d == 1 {
        '1'
    } else if d == 2 {
        '2'
    } else if d == 3 {
        '3'
    } else if d == 4 {
        '4'
    } else if d == 5 {
        '5'
    } else if d == 6 {
        '6'
    } else if d == 7 {
        '7'
    } else if d == 8 {
        '8'
    } else {
        '9'
    }
}

/// Writes `n` in decimal.
pub fn write_decimal(n: u64) -> (r: String)
    ensures
        r@ == decimal(n as nat),
    decreases n,
{
    let mut r: String = if n < 10 {
        String::new()
    } else {
        write_decimal(n / 10)
    };
    r.push(digit_of(n % 10));
    assert(n < 10 ==> r@ =~= seq![digit(n as nat)]);
    r
}

/// Two whole numbers that are written the same are the same.
pub proof fn law_decimal_is_injective(a: nat, b: nat)
    requires
        decimal(a) == decimal(b),
    ensures
        a == b,
    decreases a,
{
    assert(decimal(a).last() == digit(a % 10));
    assert(decimal(b).last() == digit(b % 10));
    if a >= 10 && b >= 10 {
        assert(decimal(a).drop_last() =~= decimal(a / 10));
        assert(decimal(b).drop_last() =~= decimal(b / 10));
        law_decimal_is_injective(a / 10, b / 10);
    } else {
        lemma_decimal_len(a);
        lemma_decimal_len(b);
    }
}

proof fn lemma_decimal_len(n: nat)
    ensures
        n < 10 ==> decimal(n).len() == 1,
        n >= 10 ==> decimal(n).len() > 1,
{
    if n >= 10 {
        assert(decimal(n / 10).len() >= 1);
    }
}

} // verus!
