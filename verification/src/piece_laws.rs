//! What holds of the smaller pieces that are read: names of cells, contours, boxes,
//! bytes and features.
use crate::encoding::{cleaned, is_padding};
use crate::geometry::{holds, Bounds, Point};
use crate::number::{is_finite, is_nan, product, units, Num};
use crate::number_laws::{law_difference_is_exact, law_sum_is_exact};
use crate::shapes::turned_end;
use crate::spread::{canonical_contours, real_contours};
use crate::story::{flowed, grown};
use crate::story_model::{before_colon, coords_in};
use crate::text::decimal;
use crate::text_attrs::{no_otf_features, otf_merged, OtfFeaturesView};
use crate::text_laws::{law_decimal_is_read_back, lemma_decimal_is_digits};
use vstd::prelude::*;

verus! {

proof fn lemma_before_colon(s: Seq<char>, n: nat)
    requires
        n <= s.len(),
        forall|i: int| 0 <= i < n ==> #[trigger] s[i] != ':',
        n < s.len() ==> s[n as int] == ':',
    ensures
        before_colon(s) == n,
    decreases s.len(),
{
    if n > 0 {
        let rest = s.skip(1);
        assert(s[0] != ':');
        assert forall|i: int| 0 <= i < n - 1 implies #[trigger] rest[i] != ':' by {
            assert(rest[i] == s[i + 1]);
        }
        lemma_before_colon(rest, (n - 1) as nat);
    }
}

/// The name of a cell states its column, then its row.
pub proof fn law_cell_is_named_by_column_and_row(column: u32, row: u32)
    ensures
        coords_in(decimal(column as nat) + seq![':'] + decimal(row as nat)) == Some((column, row)),
{
    let a = decimal(column as nat);
    let b = decimal(row as nat);
    let s = a + seq![':'] + b;
    lemma_decimal_is_digits(column as nat);
    lemma_decimal_is_digits(row as nat);
    assert forall|i: int| 0 <= i < a.len() implies #[trigger] s[i] != ':' by {
        assert(s[i] == a[i]);
        assert(crate::decimal::is_digit(a[i]));
    }
    assert(s[a.len() as int] == ':');
    lemma_before_colon(s, a.len());
    assert(s.take(a.len() as int) =~= a);
    assert(s.skip(a.len() as int + 1) =~= b);
    law_decimal_is_read_back(column as nat);
    law_decimal_is_read_back(row as nat);
}

/// A name without a colon states no cell.
pub proof fn law_name_without_colon_is_no_cell(s: Seq<char>)
    requires
        forall|i: int| 0 <= i < s.len() ==> #[trigger] s[i] != ':',
    ensures
        coords_in(s) is None,
{
    lemma_before_colon(s, s.len());
}

/// The contours with where they start and whether they are open.
pub open spec fn contours(starts: Seq<usize>, opens: Seq<bool>) -> Seq<(usize, bool)> {
    Seq::new(starts.len(), |i: int| (starts[i], i < opens.len() && opens[i]))
}

proof fn lemma_real_contours(starts: Seq<usize>, opens: Seq<bool>, points: nat, n: nat)
    requires
        n <= starts.len(),
    ensures
        ({
            let (s, o) = real_contours(starts, opens, points, n);
            let kept = contours(starts, opens).take(n as int).filter(
                |c: (usize, bool)| c.0 < points,
            );
            &&& s.len() == kept.len()
            &&& o.len() == kept.len()
            &&& forall|i: int| 0 <= i < kept.len() ==> (#[trigger] kept[i]).0 == s[i] && kept[i].1
                == o[i]
        }),
    decreases n,
{
    reveal(Seq::filter);
    let all = contours(starts, opens);
    if n > 0 {
        lemma_real_contours(starts, opens, points, (n - 1) as nat);
        assert(all.take(n as int).drop_last() =~= all.take(n - 1));
        assert(all.take(n as int).last() == all[n - 1]);
    }
}

/// Of the contours of a path, those that start at one of its points are kept, in
/// order, each with its start and with whether it is open. A single one is left
/// unsaid, but for being open.
pub proof fn law_real_contours_are_kept(starts: Seq<usize>, opens: Seq<bool>, points: nat)
    ensures
        ({
            let (s, o) = canonical_contours(starts, opens, points);
            let kept = contours(starts, opens).filter(|c: (usize, bool)| c.0 < points);
            if kept.len() > 1 {
                &&& s.len() == kept.len()
                &&& o.len() == kept.len()
                &&& forall|i: int|
                    0 <= i < kept.len() ==> (#[trigger] kept[i]).0 == s[i] && kept[i].1 == o[i]
            } else {
                &&& s.len() == 0
                &&& o.len() > 0 <==> kept.len() == 1 && kept[0].1
                &&& o.len() > 0 ==> o.len() == 1 && o[0]
            }
        }),
{
    lemma_real_contours(starts, opens, points, starts.len());
    let all = contours(starts, opens);
    assert(all.take(starts.len() as int) =~= all);
    let kept = all.filter(|c: (usize, bool)| c.0 < points);
    if kept.len() > 0 {
        let first = kept[0];
    }
}

/// The box of an anchored item grows to hold each point of its path, and no farther:
/// it holds what it held and the point, and each of its sides was there or runs
/// through the point.
pub proof fn law_anchored_box_grows(b: Bounds, p: Point, q: Point)
    requires
        !is_nan(p.0),
        !is_nan(p.1),
        !is_nan(b.left),
        !is_nan(b.right),
        !is_nan(b.top),
        !is_nan(b.bottom),
        holds(b, q),
    ensures
        ({
            let after = grown(Some(b), true, p);
            &&& holds(after, p)
            &&& holds(after, q)
            &&& after.left == b.left || after.left == p.0
            &&& after.right == b.right || after.right == p.0
            &&& after.top == b.top || after.top == p.1
            &&& after.bottom == b.bottom || after.bottom == p.1
        }),
{
}

/// Text flows in order and in full: only the separators of lines and of paragraphs
/// are changed, each into a line feed.
pub proof fn law_text_flows_in_full(s: Seq<char>, i: int)
    requires
        0 <= i < s.len(),
    ensures
        flowed(s).len() == s.len(),
        s[i] != '\u{2028}' && s[i] != '\u{2029}' ==> flowed(s)[i] == s[i],
        s[i] == '\u{2028}' || s[i] == '\u{2029}' ==> flowed(s)[i] == '\n',
{
}

/// The content of an image is all its bytes but the padding, in order.
pub proof fn law_only_padding_is_taken_out(raw: Seq<u8>)
    ensures
        cleaned(raw) == raw.filter(|b: u8| !is_padding(b)),
    decreases raw.len(),
{
    reveal(Seq::filter);
    if raw.len() > 0 {
        law_only_padding_is_taken_out(raw.drop_last());
    }
}

/// The end of a gradient lies the length away from its start, to the right by the
/// cosine and up by the sine of its direction, where numbers can say it.
pub proof fn law_gradient_runs_along_its_direction(
    start: Point,
    length: Num,
    sin: Num,
    cos: Num,
    x: Num,
    y: Num,
)
    requires
        is_finite(start.0),
        is_finite(start.1),
        is_finite(product(length, cos)),
        is_finite(product(length, sin)),
        is_finite(x),
        is_finite(y),
        units(x) == units(start.0) + units(product(length, cos)),
        units(y) == units(start.1) - units(product(length, sin)),
    ensures
        ({
            let end = turned_end(start, length, sin, cos);
            &&& units(end.0) - units(start.0) == units(product(length, cos))
            &&& units(start.1) - units(end.1) == units(product(length, sin))
        }),
{
    law_sum_is_exact(start.0, product(length, cos), x);
    law_difference_is_exact(start.1, product(length, sin), y);
}

/// Whether features state everything.
pub open spec fn states_all(f: OtfFeaturesView) -> bool {
    &&& f.fraction is Some
    &&& f.ordinal is Some
    &&& f.swash is Some
    &&& f.discretionary_ligatures is Some
    &&& f.slashed_zero is Some
    &&& f.titling is Some
    &&& f.contextual_alternates is Some
    &&& f.figure_style is Some
    &&& f.stylistic_sets is Some
}

/// What is stated above stands; what is left open is taken from below, and only
/// there. Merging three is the same in whichever order it is done.
pub proof fn law_features_are_merged_from_above(
    a: OtfFeaturesView,
    b: OtfFeaturesView,
    c: OtfFeaturesView,
)
    ensures
        otf_merged(a, no_otf_features()) == a,
        otf_merged(no_otf_features(), a) == a,
        states_all(a) ==> otf_merged(a, b) == a,
        otf_merged(otf_merged(a, b), c) == otf_merged(a, otf_merged(b, c)),
{
}

} // verus!
