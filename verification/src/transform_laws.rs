//! What holds of transforms that are composed.
use crate::assembly::identity;
use crate::geometry::{
    composed, group_transform, joined, transform_in_groups, Matrix, Point,
};
use crate::number::{
    is_finite, lemma_nearest_exact, lemma_nearest_nothing, magnitude, one, product, size_bits, sum,
    units, zero, Num,
};
use crate::shapes::{graphic_line_of, oval_of, polygon_of, rectangle_of, text_frame_of};
use crate::xml::{EventView, TagView};
use vstd::arithmetic::power2::{lemma_pow2_adds, lemma_pow2_pos, pow2};
use vstd::prelude::*;
use vstd::utf8::encode_utf8;

verus! {

/// Whether a sum needs no rounding.
pub open spec fn exact_sum(a: Num, b: Num) -> bool {
    is_finite(sum(a, b)) && units(sum(a, b)) == units(a) + units(b)
}

/// Whether a product needs no rounding.
pub open spec fn exact_product(a: Num, b: Num) -> bool {
    is_finite(product(a, b)) && units(product(a, b)) * pow2(149) == units(a) * units(b)
}

/// Where `m` takes a direction: a point, but for the shift.
pub open spec fn turned(m: Matrix, p: Point) -> Point {
    (
        sum(product(m.a, p.0), product(m.c, p.1)),
        sum(product(m.b, p.0), product(m.d, p.1)),
    )
}

/// Where `m` takes a point.
pub open spec fn applied(m: Matrix, p: Point) -> Point {
    (sum(turned(m, p).0, m.tx), sum(turned(m, p).1, m.ty))
}

/// Whether `m` takes a direction where it does without rounding.
pub open spec fn exactly_turned(m: Matrix, p: Point) -> bool {
    &&& exact_product(m.a, p.0)
    &&& exact_product(m.c, p.1)
    &&& exact_sum(product(m.a, p.0), product(m.c, p.1))
    &&& exact_product(m.b, p.0)
    &&& exact_product(m.d, p.1)
    &&& exact_sum(product(m.b, p.0), product(m.d, p.1))
}

/// Whether `m` takes a point where it does without rounding.
pub open spec fn exactly_applied(m: Matrix, p: Point) -> bool {
    &&& exactly_turned(m, p)
    &&& exact_sum(turned(m, p).0, m.tx)
    &&& exact_sum(turned(m, p).1, m.ty)
}

/// Whether two transforms are composed without rounding.
pub open spec fn exactly_composed(m: Matrix, n: Matrix) -> bool {
    &&& exactly_turned(m, (n.a, n.b))
    &&& exactly_turned(m, (n.c, n.d))
    &&& exactly_applied(m, (n.tx, n.ty))
}

/// The same point; the two zeros are one.
pub open spec fn same_point(p: Point, q: Point) -> bool {
    units(p.0) == units(q.0) && units(p.1) == units(q.1)
}

/// The same transform; the two zeros are one.
pub open spec fn same_transform(m: Matrix, n: Matrix) -> bool {
    &&& same_point((m.a, m.b), (n.a, n.b))
    &&& same_point((m.c, m.d), (n.c, n.d))
    &&& same_point((m.tx, m.ty), (n.tx, n.ty))
}

/// Whether a transform has finite numbers throughout.
pub open spec fn matrix_is_finite(m: Matrix) -> bool {
    &&& is_finite(m.a)
    &&& is_finite(m.b)
    &&& is_finite(m.c)
    &&& is_finite(m.d)
    &&& is_finite(m.tx)
    &&& is_finite(m.ty)
}

/// One row of a transform that is composed of two, in whole numbers, of which `u`
/// stands for one: given the row of the outer, the columns of the inner and the
/// row of both, a point goes to the same place at once and in turn.
proof fn lemma_row(
    u: int,
    outer: (int, int, int),
    first: (int, int),
    second: (int, int),
    shift: (int, int),
    both: (int, int, int),
    p: (int, int),
    q: (int, int),
    at_once: int,
    in_turn: int,
)
    requires
        u > 0,
        both.0 * u == outer.0 * first.0 + outer.1 * first.1,
        both.1 * u == outer.0 * second.0 + outer.1 * second.1,
        both.2 * u == outer.0 * shift.0 + outer.1 * shift.1 + outer.2 * u,
        q.0 * u == first.0 * p.0 + second.0 * p.1 + shift.0 * u,
        q.1 * u == first.1 * p.0 + second.1 * p.1 + shift.1 * u,
        at_once * u == both.0 * p.0 + both.1 * p.1 + both.2 * u,
        in_turn * u == outer.0 * q.0 + outer.1 * q.1 + outer.2 * u,
    ensures
        at_once == in_turn,
{
    let (k, l, t) = outer;
    let (a, b) = first;
    let (c, d) = second;
    let (e, f) = shift;
    let (g, h, i) = both;
    let (x, y) = p;
    assert((at_once * u) * u == (g * x + h * y + i * u) * u);
    assert((g * x + h * y + i * u) * u == (g * u) * x + (h * u) * y + (i * u) * u)
        by (nonlinear_arith);
    assert((g * u) * x + (h * u) * y + (i * u) * u == (k * a + l * b) * x + (k * c + l * d) * y + (k
        * e + l * f + t * u) * u);
    assert((in_turn * u) * u == (k * q.0 + l * q.1 + t * u) * u);
    assert((k * q.0 + l * q.1 + t * u) * u == k * (q.0 * u) + l * (q.1 * u) + (t * u) * u)
        by (nonlinear_arith);
    assert(k * (q.0 * u) + l * (q.1 * u) + (t * u) * u == k * (a * x + c * y + e * u) + l * (b * x
        + d * y + f * u) + (t * u) * u);
    assert((k * a + l * b) * x == k * (a * x) + l * (b * x)) by (nonlinear_arith);
    assert((k * c + l * d) * y == k * (c * y) + l * (d * y)) by (nonlinear_arith);
    assert((k * e + l * f + t * u) * u == k * (e * u) + l * (f * u) + (t * u) * u)
        by (nonlinear_arith);
    assert(k * (a * x + c * y + e * u) == k * (a * x) + k * (c * y) + k * (e * u))
        by (nonlinear_arith);
    assert(l * (b * x + d * y + f * u) == l * (b * x) + l * (d * y) + l * (f * u))
        by (nonlinear_arith);
    assert(at_once == in_turn) by (nonlinear_arith)
        requires
            u > 0,
            (at_once * u) * u == (in_turn * u) * u,
    ;
}

proof fn lemma_add(a: Num, x: Num, c: Num, y: Num, u: int)
    requires
        u == pow2(149),
        exact_product(a, x),
        exact_product(c, y),
        exact_sum(product(a, x), product(c, y)),
    ensures
        units(sum(product(a, x), product(c, y))) * u == units(a) * units(x) + units(c) * units(y),
{
    let p = units(product(a, x));
    let q = units(product(c, y));
    assert((p + q) * u == p * u + q * u) by (nonlinear_arith);
}

proof fn lemma_shift(r: Num, t: Num, u: int)
    requires
        exact_sum(r, t),
    ensures
        units(sum(r, t)) * u == units(r) * u + units(t) * u,
{
    let p = units(r);
    let q = units(t);
    assert((p + q) * u == p * u + q * u) by (nonlinear_arith);
}

proof fn lemma_turned(m: Matrix, p: Point, u: int)
    requires
        u == pow2(149),
        exactly_turned(m, p),
    ensures
        units(turned(m, p).0) * u == units(m.a) * units(p.0) + units(m.c) * units(p.1),
        units(turned(m, p).1) * u == units(m.b) * units(p.0) + units(m.d) * units(p.1),
{
    lemma_add(m.a, p.0, m.c, p.1, u);
    lemma_add(m.b, p.0, m.d, p.1, u);
}

proof fn lemma_applied(m: Matrix, p: Point, u: int)
    requires
        u == pow2(149),
        exactly_applied(m, p),
    ensures
        units(applied(m, p).0) * u == units(m.a) * units(p.0) + units(m.c) * units(p.1) + units(
            m.tx,
        ) * u,
        units(applied(m, p).1) * u == units(m.b) * units(p.0) + units(m.d) * units(p.1) + units(
            m.ty,
        ) * u,
{
    lemma_turned(m, p, u);
    lemma_shift(turned(m, p).0, m.tx, u);
    lemma_shift(turned(m, p).1, m.ty, u);
}

/// To apply two transforms as one is to apply one after the other, wherever no
/// sum and no product on the way is rounded.
pub proof fn law_composed_applies_both(m: Matrix, n: Matrix, p: Point)
    requires
        exactly_composed(m, n),
        exactly_applied(n, p),
        exactly_applied(m, applied(n, p)),
        exactly_applied(composed(m, n), p),
    ensures
        same_point(applied(composed(m, n), p), applied(m, applied(n, p))),
{
    let u = pow2(149) as int;
    lemma_pow2_pos(149);
    let both = composed(m, n);
    let q = applied(n, p);
    lemma_turned(m, (n.a, n.b), u);
    lemma_turned(m, (n.c, n.d), u);
    lemma_applied(m, (n.tx, n.ty), u);
    lemma_applied(n, p, u);
    lemma_applied(m, q, u);
    lemma_applied(both, p, u);
    lemma_row(
        u,
        (units(m.a), units(m.c), units(m.tx)),
        (units(n.a), units(n.b)),
        (units(n.c), units(n.d)),
        (units(n.tx), units(n.ty)),
        (units(both.a), units(both.c), units(both.tx)),
        (units(p.0), units(p.1)),
        (units(q.0), units(q.1)),
        units(applied(both, p).0),
        units(applied(m, q).0),
    );
    lemma_row(
        u,
        (units(m.b), units(m.d), units(m.ty)),
        (units(n.a), units(n.b)),
        (units(n.c), units(n.d)),
        (units(n.tx), units(n.ty)),
        (units(both.b), units(both.d), units(both.ty)),
        (units(p.0), units(p.1)),
        (units(q.0), units(q.1)),
        units(applied(both, p).1),
        units(applied(m, q).1),
    );
}

/// The same of a direction.
proof fn lemma_composed_turns_both(m: Matrix, n: Matrix, p: Point)
    requires
        exactly_composed(m, n),
        exactly_turned(n, p),
        exactly_turned(m, turned(n, p)),
        exactly_turned(composed(m, n), p),
    ensures
        same_point(turned(composed(m, n), p), turned(m, turned(n, p))),
{
    let u = pow2(149) as int;
    lemma_pow2_pos(149);
    let both = composed(m, n);
    let q = turned(n, p);
    lemma_turned(m, (n.a, n.b), u);
    lemma_turned(m, (n.c, n.d), u);
    lemma_turned(n, p, u);
    lemma_turned(m, q, u);
    lemma_turned(both, p, u);
    assert(units(m.a) * 0 == 0 && units(m.b) * 0 == 0 && units(m.c) * 0 == 0 && units(m.d) * 0 == 0
        && 0 * u == 0) by (nonlinear_arith);
    lemma_row(
        u,
        (units(m.a), units(m.c), 0),
        (units(n.a), units(n.b)),
        (units(n.c), units(n.d)),
        (0, 0),
        (units(both.a), units(both.c), 0),
        (units(p.0), units(p.1)),
        (units(q.0), units(q.1)),
        units(turned(both, p).0),
        units(turned(m, q).0),
    );
    lemma_row(
        u,
        (units(m.b), units(m.d), 0),
        (units(n.a), units(n.b)),
        (units(n.c), units(n.d)),
        (0, 0),
        (units(both.b), units(both.d), 0),
        (units(p.0), units(p.1)),
        (units(q.0), units(q.1)),
        units(turned(both, p).1),
        units(turned(m, q).1),
    );
}

/// Of three transforms it does not matter which two are composed first, wherever
/// no sum and no product on the way is rounded.
pub proof fn law_composition_is_associative(k: Matrix, m: Matrix, n: Matrix)
    requires
        exactly_composed(k, m),
        exactly_composed(composed(k, m), n),
        exactly_composed(m, n),
        exactly_composed(k, composed(m, n)),
    ensures
        same_transform(composed(composed(k, m), n), composed(k, composed(m, n))),
{
    lemma_composed_turns_both(k, m, (n.a, n.b));
    lemma_composed_turns_both(k, m, (n.c, n.d));
    law_composed_applies_both(k, m, (n.tx, n.ty));
}

/// One times a finite number is that number.
proof fn lemma_one(x: Num)
    requires
        is_finite(x),
    ensures
        is_finite(product(one(), x)),
        is_finite(product(x, one())),
        units(product(one(), x)) == units(x),
        units(product(x, one())) == units(x),
{
    let u = pow2(149);
    let m = magnitude(size_bits(x));
    lemma_pow2_pos(149);
    vstd::arithmetic::power2::lemma2_to64();
    lemma_pow2_adds(23, 126);
    assert(pow2(23) == 0x80_0000);
    assert(magnitude(size_bits(one())) == u);
    lemma_nearest_exact(size_bits(x), u);
    assert(m * u == u * m) by (nonlinear_arith);
}

/// Zero times a finite number is zero.
proof fn lemma_nothing(x: Num)
    requires
        is_finite(x),
    ensures
        is_finite(product(zero(), x)),
        is_finite(product(x, zero())),
        units(product(zero(), x)) == 0,
        units(product(x, zero())) == 0,
{
    let m = magnitude(size_bits(x));
    assert(2 * (m * 0) == 0 && 2 * (0 * m) == 0) by (nonlinear_arith);
    lemma_nearest_nothing(0, pow2(149));
}

/// A finite number and one that is zero add up to the former.
proof fn lemma_add_nothing(a: Num, b: Num)
    requires
        is_finite(a),
        is_finite(b),
        units(b) == 0,
    ensures
        is_finite(sum(a, b)),
        is_finite(sum(b, a)),
        units(sum(a, b)) == units(a),
        units(sum(b, a)) == units(a),
{
    lemma_nearest_exact(size_bits(a), 1);
    assert(magnitude(size_bits(a)) * 1 == magnitude(size_bits(a)));
    assert(magnitude(0) == 0);
}

/// The transform that changes nothing, composed with another, on either side,
/// leaves that one.
pub proof fn law_identity_changes_nothing(m: Matrix)
    requires
        matrix_is_finite(m),
    ensures
        same_transform(composed(identity(), m), m),
        same_transform(composed(m, identity()), m),
{
    lemma_identity_before(m);
    lemma_identity_behind(m);
}

proof fn lemma_identity_behind(m: Matrix)
    requires
        matrix_is_finite(m),
    ensures
        same_transform(composed(identity(), m), m),
{
    lemma_one(m.a);
    lemma_one(m.b);
    lemma_one(m.c);
    lemma_one(m.d);
    lemma_one(m.tx);
    lemma_one(m.ty);
    lemma_nothing(m.a);
    lemma_nothing(m.b);
    lemma_nothing(m.c);
    lemma_nothing(m.d);
    lemma_nothing(m.tx);
    lemma_nothing(m.ty);
    assert(units(zero()) == 0 && is_finite(zero()));
    lemma_add_nothing(product(one(), m.a), product(zero(), m.b));
    lemma_add_nothing(product(one(), m.b), product(zero(), m.a));
    lemma_add_nothing(product(one(), m.c), product(zero(), m.d));
    lemma_add_nothing(product(one(), m.d), product(zero(), m.c));
    lemma_add_nothing(product(one(), m.tx), product(zero(), m.ty));
    lemma_add_nothing(product(one(), m.ty), product(zero(), m.tx));
    lemma_add_nothing(sum(product(one(), m.tx), product(zero(), m.ty)), zero());
    lemma_add_nothing(sum(product(zero(), m.tx), product(one(), m.ty)), zero());
}

proof fn lemma_identity_before(m: Matrix)
    requires
        matrix_is_finite(m),
    ensures
        same_transform(composed(m, identity()), m),
{
    lemma_one(m.a);
    lemma_one(m.b);
    lemma_one(m.c);
    lemma_one(m.d);
    lemma_nothing(m.a);
    lemma_nothing(m.b);
    lemma_nothing(m.c);
    lemma_nothing(m.d);
    assert(units(zero()) == 0 && is_finite(zero()));
    lemma_add_nothing(product(m.a, one()), product(m.c, zero()));
    lemma_add_nothing(product(m.b, one()), product(m.d, zero()));
    lemma_add_nothing(product(m.c, one()), product(m.a, zero()));
    lemma_add_nothing(product(m.d, one()), product(m.b, zero()));
    lemma_add_nothing(product(m.a, zero()), product(m.c, zero()));
    lemma_add_nothing(product(m.b, zero()), product(m.d, zero()));
    lemma_add_nothing(m.tx, sum(product(m.a, zero()), product(m.c, zero())));
    lemma_add_nothing(m.ty, sum(product(m.b, zero()), product(m.d, zero())));
}

/// Where a point comes to that goes through transforms one after the other, from
/// the last to the first; what states none leaves it where it is.
pub open spec fn carried(transforms: Seq<Option<Matrix>>, p: Point) -> Point
    decreases transforms.len(),
{
    if transforms.len() == 0 {
        p
    } else {
        carried(
            transforms.drop_last(),
            match transforms.last() {
                None => p,
                Some(m) => applied(m, p),
            },
        )
    }
}

/// Where a point comes to under a transform that may be missing.
pub open spec fn moved(m: Option<Matrix>, p: Point) -> Point {
    match m {
        None => p,
        Some(m) => applied(m, p),
    }
}

/// Whether nothing is rounded where `outer` and `inner` are made one, and where
/// the point goes through them, at once or in turn.
pub open spec fn exactly_joined(outer: Option<Matrix>, inner: Option<Matrix>, p: Point) -> bool {
    match (outer, inner) {
        (Some(m), Some(n)) => {
            &&& exactly_composed(m, n)
            &&& exactly_applied(n, p)
            &&& exactly_applied(m, applied(n, p))
            &&& exactly_applied(composed(m, n), p)
        },
        _ => true,
    }
}

/// Whether nothing is rounded anywhere on the way of a point through groups.
pub open spec fn exactly_carried(groups: Seq<Option<Matrix>>, p: Point) -> bool
    decreases groups.len(),
{
    groups.len() == 0 || {
        &&& exactly_joined(group_transform(groups.drop_last()), groups.last(), p)
        &&& exactly_carried(groups.drop_last(), moved(groups.last(), p))
    }
}

proof fn lemma_joined_moves_both(outer: Option<Matrix>, inner: Option<Matrix>, p: Point)
    requires
        exactly_joined(outer, inner, p),
    ensures
        same_point(moved(joined(outer, inner), p), moved(outer, moved(inner, p))),
{
    if let (Some(m), Some(n)) = (outer, inner) {
        law_composed_applies_both(m, n, p);
    }
}

proof fn lemma_groups_carry(groups: Seq<Option<Matrix>>, p: Point)
    requires
        exactly_carried(groups, p),
    ensures
        same_point(moved(group_transform(groups), p), carried(groups, p)),
    decreases groups.len(),
{
    if groups.len() > 0 {
        lemma_joined_moves_both(group_transform(groups.drop_last()), groups.last(), p);
        lemma_groups_carry(groups.drop_last(), moved(groups.last(), p));
    }
}

/// The transform of an item in groups takes a point where the item's own transform
/// takes it first, then those of the groups, the innermost before the outermost,
/// wherever nothing is rounded.
pub proof fn law_item_goes_through_its_groups(
    groups: Seq<Option<Matrix>>,
    own: Option<Matrix>,
    p: Point,
)
    requires
        exactly_joined(group_transform(groups), own, p),
        exactly_carried(groups, moved(own, p)),
    ensures
        same_point(
            moved(transform_in_groups(groups, own), p),
            carried(groups.push(own), p),
        ),
{
    assert(groups.push(own).drop_last() =~= groups);
    lemma_joined_moves_both(group_transform(groups), own, p);
    lemma_groups_carry(groups, moved(own, p));
}

/// In two groups that state a transform each, an item goes through the inner one
/// first, wherever nothing is rounded; the groups are told apart by their places.
pub proof fn law_inner_group_applies_first(outer: Matrix, inner: Matrix, own: Matrix, p: Point)
    requires
        exactly_composed(outer, inner),
        exactly_composed(composed(outer, inner), own),
        exactly_applied(own, p),
        exactly_applied(inner, applied(own, p)),
        exactly_applied(outer, applied(inner, applied(own, p))),
        exactly_applied(composed(outer, inner), applied(own, p)),
        exactly_applied(composed(composed(outer, inner), own), p),
    ensures
        transform_in_groups(seq![Some(outer), Some(inner)], Some(own)) matches Some(m)
            && same_point(applied(m, p), applied(outer, applied(inner, applied(own, p)))),
{
    let groups = seq![Some(outer), Some(inner)];
    assert(groups.drop_last() =~= seq![Some(outer)]);
    assert(groups.drop_last().drop_last() =~= Seq::<Option<Matrix>>::empty());
    assert(group_transform(groups.drop_last().drop_last()) is None);
    assert(group_transform(groups.drop_last()) == Some(outer));
    assert(group_transform(groups) == Some(composed(outer, inner)));
    law_composed_applies_both(outer, inner, applied(own, p));
    law_composed_applies_both(composed(outer, inner), own, p);
}

/// The item that the tag of a text frame, a rectangle, an oval, a line or a polygon
/// states in these groups has one transform, and it takes a point through the
/// item's own transform and then through the groups, from the inside out.
pub proof fn law_items_go_through_their_groups(
    tag: TagView,
    groups: Seq<Option<Matrix>>,
    p: Point,
)
    requires
        exactly_joined(group_transform(groups), tag.matrix("ItemTransform"@), p),
        exactly_carried(groups, moved(tag.matrix("ItemTransform"@), p)),
    ensures
        ({
            let there = carried(groups.push(tag.matrix("ItemTransform"@)), p);
            &&& same_point(moved(text_frame_of(tag, groups).item_transform, p), there)
            &&& same_point(moved(rectangle_of(tag, groups).item_transform, p), there)
            &&& same_point(moved(oval_of(tag, groups).item_transform, p), there)
            &&& same_point(moved(graphic_line_of(tag, groups).item_transform, p), there)
            &&& same_point(moved(polygon_of(tag, groups).item_transform, p), there)
        }),
{
    law_item_goes_through_its_groups(groups, tag.matrix("ItemTransform"@), p);
}

/// The transforms of the groups that are open behind the first `n` events, the
/// outermost first.
pub open spec fn open_transforms(events: Seq<EventView>, n: nat) -> Seq<Option<Matrix>>
    decreases n,
{
    if n == 0 {
        Seq::empty()
    } else {
        let before = open_transforms(events, (n - 1) as nat);
        match events[n - 1] {
            EventView::Open(tag) => if tag.is("Group"@) {
                before.push(tag.matrix("ItemTransform"@))
            } else {
                before
            },
            EventView::End(name) => if name == encode_utf8("Group"@) && before.len() > 0 {
                before.drop_last()
            } else {
                before
            },
            _ => before,
        }
    }
}

} // verus!
