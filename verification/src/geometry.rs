//! Points, boxes and affine transforms.
use crate::decimal::{parse_number, written_number};
use crate::number::{
    at_most, difference, is_nan, less, product, rank, sum, zero, INFINITY_BITS, Num, SIGN_BIT,
};
use crate::text::{numbers, parse_numbers, split_words, words};
use vstd::prelude::*;

verus! {

/// A point: its x and its y.
pub type Point = (Num, Num);

/// A box in points; y grows downwards.
#[derive(Clone, Copy, Debug, PartialEq, Eq)]
pub struct Bounds {
    pub top: Num,
    pub left: Num,
    pub bottom: Num,
    pub right: Num,
}

impl DeepView for Bounds {
    type V = Bounds;

    open spec fn deep_view(&self) -> Bounds {
        *self
    }
}

/// The box of no size at the origin.
pub open spec fn zero_bounds() -> Bounds {
    Bounds { top: zero(), left: zero(), bottom: zero(), right: zero() }
}

impl Bounds {
    /// The box of no size at the origin.
    pub fn zero() -> (r: Bounds)
        ensures
            r == zero_bounds(),
    {
        Bounds { top: Num::zero(), left: Num::zero(), bottom: Num::zero(), right: Num::zero() }
    }

    /// How wide the box is.
    pub fn width(&self) -> (r: Num)
        ensures
            r == difference(self.right, self.left),
    {
        self.right.minus(self.left)
    }

    /// How high the box is.
    pub fn height(&self) -> (r: Num)
        ensures
            r == difference(self.bottom, self.top),
    {
        self.bottom.minus(self.top)
    }
}

/// The distances from the four sides of a box.
#[derive(Clone, Copy, Debug, PartialEq, Eq)]
pub struct Insets {
    pub top: Num,
    pub left: Num,
    pub bottom: Num,
    pub right: Num,
}

impl DeepView for Insets {
    type V = Insets;

    open spec fn deep_view(&self) -> Insets {
        *self
    }
}

/// No distance on any side.
pub open spec fn no_insets() -> Insets {
    Insets { top: zero(), left: zero(), bottom: zero(), right: zero() }
}

impl Insets {
    /// No distance on any side.
    pub fn zero() -> (r: Insets)
        ensures
            r == no_insets(),
    {
        Insets { top: Num::zero(), left: Num::zero(), bottom: Num::zero(), right: Num::zero() }
    }
}

/// An affine transform: it takes the point `(x, y)` to
/// `(a * x + c * y + tx, b * x + d * y + ty)`.
#[derive(Clone, Copy, Debug, PartialEq, Eq)]
pub struct Matrix {
    pub a: Num,
    pub b: Num,
    pub c: Num,
    pub d: Num,
    pub tx: Num,
    pub ty: Num,
}

impl DeepView for Matrix {
    type V = Matrix;

    open spec fn deep_view(&self) -> Matrix {
        *self
    }
}

/// A point of a path, with the directions that the curve has on either side.
#[derive(Clone, Copy, Debug, PartialEq, Eq)]
pub struct PathAnchor {
    pub anchor: Point,
    pub left: Point,
    pub right: Point,
}

impl DeepView for PathAnchor {
    type V = PathAnchor;

    open spec fn deep_view(&self) -> PathAnchor {
        *self
    }
}

/// The box that `s` writes as four numbers: top, left, bottom, right. What is
/// not a number is passed over.
pub open spec fn written_bounds(s: Seq<char>) -> Option<Bounds> {
    let n = numbers(s, false);
    if n.len() == 4 {
        Some(Bounds { top: n[0], left: n[1], bottom: n[2], right: n[3] })
    } else {
        None
    }
}

/// Reads a box.
pub fn parse_bounds(s: &str) -> (r: Option<Bounds>)
    ensures
        r == written_bounds(s@),
{
    let n: Vec<Num> = parse_numbers(s, false);
    if n.len() == 4 {
        Some(Bounds { top: n[0], left: n[1], bottom: n[2], right: n[3] })
    } else {
        None
    }
}

/// The distances that `s` writes as four numbers: top, left, bottom, right.
pub open spec fn written_insets(s: Seq<char>) -> Option<Insets> {
    let n = numbers(s, false);
    if n.len() == 4 {
        Some(Insets { top: n[0], left: n[1], bottom: n[2], right: n[3] })
    } else {
        None
    }
}

/// Reads four distances.
pub fn parse_insets(s: &str) -> (r: Option<Insets>)
    ensures
        r == written_insets(s@),
{
    let n: Vec<Num> = parse_numbers(s, false);
    if n.len() == 4 {
        Some(Insets { top: n[0], left: n[1], bottom: n[2], right: n[3] })
    } else {
        None
    }
}

/// The transform that `s` writes as six numbers.
pub open spec fn written_matrix(s: Seq<char>) -> Option<Matrix> {
    let n = numbers(s, false);
    if n.len() == 6 {
        Some(Matrix { a: n[0], b: n[1], c: n[2], d: n[3], tx: n[4], ty: n[5] })
    } else {
        None
    }
}

/// Reads a transform.
pub fn parse_matrix(s: &str) -> (r: Option<Matrix>)
    ensures
        r == written_matrix(s@),
{
    let n: Vec<Num> = parse_numbers(s, false);
    if n.len() == 6 {
        Some(Matrix { a: n[0], b: n[1], c: n[2], d: n[3], tx: n[4], ty: n[5] })
    } else {
        None
    }
}

/// The point that the first two words of `s` write.
pub open spec fn written_point(s: Seq<char>) -> Option<Point> {
    let w = words(s, false);
    if w.len() < 2 {
        None
    } else {
        match (written_number(w[0]), written_number(w[1])) {
            (Some(x), Some(y)) => Some((x, y)),
            _ => None,
        }
    }
}

/// Reads a point.
pub fn parse_xy_pair(s: &str) -> (r: Option<Point>)
    ensures
        r == written_point(s@),
{
    let w: Vec<String> = split_words(s, false);
    assert(w.deep_view().len() == w@.len());
    if w.len() < 2 {
        return None;
    }
    assert(w.deep_view()[0] == w@[0]@ && w.deep_view()[1] == w@[1]@);
    match (parse_number(w[0].as_str()), parse_number(w[1].as_str())) {
        (Some(x), Some(y)) => Some((x, y)),
        _ => None,
    }
}

/// The transform that applies `n` first and `m` after it.
pub open spec fn composed(m: Matrix, n: Matrix) -> Matrix {
    Matrix {
        a: sum(product(m.a, n.a), product(m.c, n.b)),
        b: sum(product(m.b, n.a), product(m.d, n.b)),
        c: sum(product(m.a, n.c), product(m.c, n.d)),
        d: sum(product(m.b, n.c), product(m.d, n.d)),
        tx: sum(sum(product(m.a, n.tx), product(m.c, n.ty)), m.tx),
        ty: sum(sum(product(m.b, n.tx), product(m.d, n.ty)), m.ty),
    }
}

/// Composes two transforms: `n` applies first, then `m`.
pub fn compose_matrix(m: &Matrix, n: &Matrix) -> (r: Matrix)
    ensures
        r == composed(*m, *n),
{
    Matrix {
        a: m.a.times(n.a).plus(m.c.times(n.b)),
        b: m.b.times(n.a).plus(m.d.times(n.b)),
        c: m.a.times(n.c).plus(m.c.times(n.d)),
        d: m.b.times(n.c).plus(m.d.times(n.d)),
        tx: m.a.times(n.tx).plus(m.c.times(n.ty)).plus(m.tx),
        ty: m.b.times(n.tx).plus(m.d.times(n.ty)).plus(m.ty),
    }
}

/// The two transforms as one, where a missing one changes nothing.
pub open spec fn joined(outer: Option<Matrix>, inner: Option<Matrix>) -> Option<Matrix> {
    match (outer, inner) {
        (None, x) => x,
        (x, None) => x,
        (Some(m), Some(n)) => Some(composed(m, n)),
    }
}

/// All transforms of `groups`, outermost first, as one.
pub open spec fn group_transform(groups: Seq<Option<Matrix>>) -> Option<Matrix>
    decreases groups.len(),
{
    if groups.len() == 0 {
        None
    } else {
        joined(group_transform(groups.drop_last()), groups.last())
    }
}

/// The transform of an item inside `groups`, outermost first: the item's own
/// applies first, then those of the groups from the inside out.
pub open spec fn transform_in_groups(
    groups: Seq<Option<Matrix>>,
    own: Option<Matrix>,
) -> Option<Matrix> {
    joined(group_transform(groups), own)
}

/// The transform of an item inside `groups`.
pub fn effective_item_transform(groups: &Vec<Option<Matrix>>, own: Option<Matrix>) -> (r: Option<
    Matrix,
>)
    ensures
        r == transform_in_groups(groups@, own),
{
    let mut all: Option<Matrix> = None;
    let mut i: usize = 0;
    assert(groups@.take(0).len() == 0);
    while i < groups.len()
        invariant
            i <= groups@.len(),
            all == group_transform(groups@.take(i as int)),
        decreases groups@.len() - i,
    {
        assert(groups@.take(i + 1).drop_last() =~= groups@.take(i as int));
        assert(groups@.take(i + 1).last() == groups@[i as int]);
        all = match (all, groups[i]) {
            (None, x) => x,
            (x, None) => x,
            (Some(m), Some(n)) => Some(compose_matrix(&m, &n)),
        };
        i = i + 1;
    }
    assert(groups@.take(groups@.len() as int) =~= groups@);
    match (all, own) {
        (None, x) => x,
        (x, None) => x,
        (Some(m), Some(n)) => Some(compose_matrix(&m, &n)),
    }
}

/// Where no group and no item states a transform, there is none.
pub proof fn law_no_transform_stays_none(groups: Seq<Option<Matrix>>)
    requires
        forall|i: int| 0 <= i < groups.len() ==> #[trigger] groups[i] is None,
    ensures
        transform_in_groups(groups, None) is None,
    decreases groups.len(),
{
    if groups.len() > 0 {
        assert(groups.last() is None);
        law_no_transform_stays_none(groups.drop_last());
    }
}

/// A group without a transform changes nothing for the items in it, wherever it
/// stands in the nesting.
pub proof fn law_plain_group_is_transparent(
    outer: Seq<Option<Matrix>>,
    inner: Seq<Option<Matrix>>,
    own: Option<Matrix>,
)
    ensures
        transform_in_groups(outer.push(None) + inner, own) == transform_in_groups(
            outer + inner,
            own,
        ),
    decreases inner.len(),
{
    if inner.len() == 0 {
        assert(outer.push(None) + inner =~= outer.push(None));
        assert(outer + inner =~= outer);
        assert(outer.push(None).drop_last() =~= outer);
    } else {
        let a = outer.push(None) + inner;
        let b = outer + inner;
        assert(a.drop_last() =~= outer.push(None) + inner.drop_last());
        assert(b.drop_last() =~= outer + inner.drop_last());
        law_plain_group_is_transparent(outer, inner.drop_last(), None);
    }
}

/// The box that holds nothing: it lies beyond every number on each side.
pub open spec fn empty_extent() -> Bounds {
    Bounds {
        top: Num { bits: INFINITY_BITS },
        left: Num { bits: INFINITY_BITS },
        bottom: Num { bits: (SIGN_BIT + INFINITY_BITS) as u32 },
        right: Num { bits: (SIGN_BIT + INFINITY_BITS) as u32 },
    }
}

/// `b` widened to hold the point `p`.
pub open spec fn widened(b: Bounds, p: Point) -> Bounds {
    Bounds {
        top: if less(p.1, b.top) {
            p.1
        } else {
            b.top
        },
        left: if less(p.0, b.left) {
            p.0
        } else {
            b.left
        },
        bottom: if less(b.bottom, p.1) {
            p.1
        } else {
            b.bottom
        },
        right: if less(b.right, p.0) {
            p.0
        } else {
            b.right
        },
    }
}

/// The smallest box round all anchors; directions do not count.
pub open spec fn extent(anchors: Seq<PathAnchor>) -> Bounds
    decreases anchors.len(),
{
    if anchors.len() == 0 {
        empty_extent()
    } else {
        widened(extent(anchors.drop_last()), anchors.last().anchor)
    }
}

/// Widens `b` to hold the point `p`.
pub fn widen(b: Bounds, p: Point) -> (r: Bounds)
    ensures
        r == widened(b, p),
{
    Bounds {
        top: if p.1.less(b.top) {
            p.1
        } else {
            b.top
        },
        left: if p.0.less(b.left) {
            p.0
        } else {
            b.left
        },
        bottom: if b.bottom.less(p.1) {
            p.1
        } else {
            b.bottom
        },
        right: if b.right.less(p.0) {
            p.0
        } else {
            b.right
        },
    }
}

/// The smallest box round all anchors.
pub fn bounds_from_anchors(anchors: &Vec<PathAnchor>) -> (r: Bounds)
    ensures
        r == extent(anchors@),
{
    let mut r = Bounds {
        top: Num { bits: INFINITY_BITS },
        left: Num { bits: INFINITY_BITS },
        bottom: Num { bits: SIGN_BIT + INFINITY_BITS },
        right: Num { bits: SIGN_BIT + INFINITY_BITS },
    };
    let mut i: usize = 0;
    assert(anchors@.take(0).len() == 0);
    while i < anchors.len()
        invariant
            i <= anchors@.len(),
            r == extent(anchors@.take(i as int)),
        decreases anchors@.len() - i,
    {
        assert(anchors@.take(i + 1).drop_last() =~= anchors@.take(i as int));
        assert(anchors@.take(i + 1).last() == anchors@[i as int]);
        r = widen(r, anchors[i].anchor);
        i = i + 1;
    }
    assert(anchors@.take(anchors@.len() as int) =~= anchors@);
    r
}

/// Whether the point `p` lies in the box `b`.
pub open spec fn holds(b: Bounds, p: Point) -> bool {
    &&& at_most(b.left, p.0)
    &&& at_most(p.0, b.right)
    &&& at_most(b.top, p.1)
    &&& at_most(p.1, b.bottom)
}

proof fn lemma_extent_is_number(anchors: Seq<PathAnchor>)
    ensures
        !is_nan(extent(anchors).top),
        !is_nan(extent(anchors).left),
        !is_nan(extent(anchors).bottom),
        !is_nan(extent(anchors).right),
        anchors.len() == 0 ==> extent(anchors) == empty_extent(),
    decreases anchors.len(),
{
    if anchors.len() > 0 {
        lemma_extent_is_number(anchors.drop_last());
    }
}

/// The box round a path holds every anchor whose coordinates are numbers.
pub proof fn law_extent_holds_anchors(anchors: Seq<PathAnchor>, i: int)
    requires
        0 <= i < anchors.len(),
        !is_nan(anchors[i].anchor.0),
        !is_nan(anchors[i].anchor.1),
    ensures
        holds(extent(anchors), anchors[i].anchor),
    decreases anchors.len(),
{
    let rest = anchors.drop_last();
    lemma_extent_is_number(anchors);
    lemma_extent_is_number(rest);
    let p = anchors[i].anchor;
    assert(-(INFINITY_BITS as int) <= rank(p.0) <= INFINITY_BITS);
    assert(-(INFINITY_BITS as int) <= rank(p.1) <= INFINITY_BITS);
    if i < rest.len() {
        assert(rest[i] == anchors[i]);
        law_extent_holds_anchors(rest, i);
    }
}

} // verus!
