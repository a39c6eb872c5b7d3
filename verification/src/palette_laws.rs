//! What a palette holds: all colours, swatches, gradients and groups that its tags
//! state.
use crate::graphic::{
    after_event, after_events, alpha_from, cmyk_of, color_group_of, color_of,
    gradient_stop_of, graphic_of, plain_cmyk, swatch_of, tint_of, tinted, with_tints,
    ColorEntryView, ColorGroupEntryView, GradientEntryView, GradientStopRefView, ProgressView,
    SwatchEntryView, TintEntryView,
};
use crate::number::{is_finite, one, quotient, units, zero, Num};
use crate::number_laws::{
    law_order_is_by_value, law_product_is_exact, law_quotient_is_exact, law_size_grows,
};
use crate::place_laws::has_one_more;
use crate::xml::{law_names_differ, EventView, TagView};
use vstd::arithmetic::power2::pow2;
use vstd::prelude::*;
use vstd::utf8::encode_utf8;

verus! {

/// No other name is `Color`.
proof fn lemma_color_name()
    ensures
        encode_utf8("Color"@) != encode_utf8("Tint"@),
        encode_utf8("Color"@) != encode_utf8("Swatch"@),
        encode_utf8("Color"@) != encode_utf8("Gradient"@),
        encode_utf8("Color"@) != encode_utf8("GradientStop"@),
        encode_utf8("Color"@) != encode_utf8("ColorGroup"@),
{
    reveal_strlit("Color");
    reveal_strlit("Tint");
    reveal_strlit("Swatch");
    reveal_strlit("Gradient");
    reveal_strlit("GradientStop");
    reveal_strlit("ColorGroup");
    law_names_differ("Color"@, "Tint"@);
    law_names_differ("Color"@, "Swatch"@);
    law_names_differ("Color"@, "Gradient"@);
    law_names_differ("Color"@, "GradientStop"@);
    law_names_differ("Color"@, "ColorGroup"@);
}

/// No other name is `Tint`.
proof fn lemma_tint_name()
    ensures
        encode_utf8("Tint"@) != encode_utf8("Color"@),
        encode_utf8("Tint"@) != encode_utf8("Swatch"@),
        encode_utf8("Tint"@) != encode_utf8("Gradient"@),
        encode_utf8("Tint"@) != encode_utf8("GradientStop"@),
        encode_utf8("Tint"@) != encode_utf8("ColorGroup"@),
{
    reveal_strlit("Tint");
    reveal_strlit("Color");
    reveal_strlit("Swatch");
    reveal_strlit("Gradient");
    reveal_strlit("GradientStop");
    reveal_strlit("ColorGroup");
    law_names_differ("Tint"@, "Color"@);
    law_names_differ("Tint"@, "Swatch"@);
    law_names_differ("Tint"@, "Gradient"@);
    law_names_differ("Tint"@, "GradientStop"@);
    law_names_differ("Tint"@, "ColorGroup"@);
}

/// No other name is `Swatch`.
proof fn lemma_swatch_name()
    ensures
        encode_utf8("Swatch"@) != encode_utf8("Color"@),
        encode_utf8("Swatch"@) != encode_utf8("Tint"@),
        encode_utf8("Swatch"@) != encode_utf8("Gradient"@),
        encode_utf8("Swatch"@) != encode_utf8("GradientStop"@),
        encode_utf8("Swatch"@) != encode_utf8("ColorGroup"@),
{
    reveal_strlit("Swatch");
    reveal_strlit("Color");
    reveal_strlit("Tint");
    reveal_strlit("Gradient");
    reveal_strlit("GradientStop");
    reveal_strlit("ColorGroup");
    law_names_differ("Swatch"@, "Color"@);
    law_names_differ("Swatch"@, "Tint"@);
    law_names_differ("Swatch"@, "Gradient"@);
    law_names_differ("Swatch"@, "GradientStop"@);
    law_names_differ("Swatch"@, "ColorGroup"@);
}

/// No other name is `Gradient`.
proof fn lemma_gradient_name()
    ensures
        encode_utf8("Gradient"@) != encode_utf8("Color"@),
        encode_utf8("Gradient"@) != encode_utf8("Tint"@),
        encode_utf8("Gradient"@) != encode_utf8("Swatch"@),
        encode_utf8("Gradient"@) != encode_utf8("GradientStop"@),
        encode_utf8("Gradient"@) != encode_utf8("ColorGroup"@),
{
    reveal_strlit("Gradient");
    reveal_strlit("Color");
    reveal_strlit("Tint");
    reveal_strlit("Swatch");
    reveal_strlit("GradientStop");
    reveal_strlit("ColorGroup");
    law_names_differ("Gradient"@, "Color"@);
    law_names_differ("Gradient"@, "Tint"@);
    law_names_differ("Gradient"@, "Swatch"@);
    law_names_differ("Gradient"@, "GradientStop"@);
    law_names_differ("Gradient"@, "ColorGroup"@);
}

/// No other name is `GradientStop`.
proof fn lemma_stop_name()
    ensures
        encode_utf8("GradientStop"@) != encode_utf8("Color"@),
        encode_utf8("GradientStop"@) != encode_utf8("Tint"@),
        encode_utf8("GradientStop"@) != encode_utf8("Swatch"@),
        encode_utf8("GradientStop"@) != encode_utf8("Gradient"@),
        encode_utf8("GradientStop"@) != encode_utf8("ColorGroup"@),
{
    reveal_strlit("GradientStop");
    reveal_strlit("Color");
    reveal_strlit("Tint");
    reveal_strlit("Swatch");
    reveal_strlit("Gradient");
    reveal_strlit("ColorGroup");
    law_names_differ("GradientStop"@, "Color"@);
    law_names_differ("GradientStop"@, "Tint"@);
    law_names_differ("GradientStop"@, "Swatch"@);
    law_names_differ("GradientStop"@, "Gradient"@);
    law_names_differ("GradientStop"@, "ColorGroup"@);
}

/// No other name is `ColorGroup`.
proof fn lemma_group_name()
    ensures
        encode_utf8("ColorGroup"@) != encode_utf8("Color"@),
        encode_utf8("ColorGroup"@) != encode_utf8("Tint"@),
        encode_utf8("ColorGroup"@) != encode_utf8("Swatch"@),
        encode_utf8("ColorGroup"@) != encode_utf8("Gradient"@),
        encode_utf8("ColorGroup"@) != encode_utf8("GradientStop"@),
{
    reveal_strlit("ColorGroup");
    reveal_strlit("Color");
    reveal_strlit("Tint");
    reveal_strlit("Swatch");
    reveal_strlit("Gradient");
    reveal_strlit("GradientStop");
    law_names_differ("ColorGroup"@, "Color"@);
    law_names_differ("ColorGroup"@, "Tint"@);
    law_names_differ("ColorGroup"@, "Swatch"@);
    law_names_differ("ColorGroup"@, "Gradient"@);
    law_names_differ("ColorGroup"@, "GradientStop"@);
}

/// What the last tag of a colour under an identifier states, among the first `n`
/// events.
pub open spec fn last_of_colors(
    events: Seq<EventView>,
    n: nat,
    id: Seq<char>,
) -> Option<ColorEntryView>
    decreases n,
{
    if n == 0 {
        None
    } else {
        match events[n - 1] {
            EventView::Open(tag) if tag.is("Color"@) && tag.text("Self"@) == Some(id) => {
                color_of(tag)
            },
            _ => last_of_colors(events, (n - 1) as nat, id),
        }
    }
}

/// Under every identifier stands what its last tag states, and nothing stands where
/// no tag has it.
pub proof fn law_later_of_colors_stands(events: Seq<EventView>, n: nat, id: Seq<char>)
    ensures
        ({
            let map = after_events(events, n).out.colors;
            &&& map.dom().contains(id) <==> last_of_colors(events, n, id) is Some
            &&& map.dom().contains(id) ==> last_of_colors(events, n, id) == Some(map[id])
        }),
    decreases n,
{
    if n > 0 {
        law_later_of_colors_stands(events, (n - 1) as nat, id);
        if let EventView::Open(tag) = events[n - 1] {
            if tag.is("Color"@) {
                lemma_color_name();
            }
        }
    }
}

/// What the last tag of a swatch under an identifier states, among the first `n`
/// events.
pub open spec fn last_of_swatches(
    events: Seq<EventView>,
    n: nat,
    id: Seq<char>,
) -> Option<SwatchEntryView>
    decreases n,
{
    if n == 0 {
        None
    } else {
        match events[n - 1] {
            EventView::Open(tag) if tag.is("Swatch"@) && tag.text("Self"@) == Some(id) => {
                swatch_of(tag)
            },
            _ => last_of_swatches(events, (n - 1) as nat, id),
        }
    }
}

/// Under every identifier stands what its last tag states, and nothing stands where
/// no tag has it.
pub proof fn law_later_of_swatches_stands(events: Seq<EventView>, n: nat, id: Seq<char>)
    ensures
        ({
            let map = after_events(events, n).out.swatches;
            &&& map.dom().contains(id) <==> last_of_swatches(events, n, id) is Some
            &&& map.dom().contains(id) ==> last_of_swatches(events, n, id) == Some(map[id])
        }),
    decreases n,
{
    if n > 0 {
        law_later_of_swatches_stands(events, (n - 1) as nat, id);
        if let EventView::Open(tag) = events[n - 1] {
            if tag.is("Swatch"@) {
                lemma_swatch_name();
            }
        }
    }
}

/// What the last tag of a group of colours under an identifier states, among the first `n`
/// events.
pub open spec fn last_of_color_groups(
    events: Seq<EventView>,
    n: nat,
    id: Seq<char>,
) -> Option<ColorGroupEntryView>
    decreases n,
{
    if n == 0 {
        None
    } else {
        match events[n - 1] {
            EventView::Open(tag) if tag.is("ColorGroup"@) && tag.text("Self"@) == Some(id) => {
                color_group_of(tag)
            },
            _ => last_of_color_groups(events, (n - 1) as nat, id),
        }
    }
}

/// Under every identifier stands what its last tag states, and nothing stands where
/// no tag has it.
pub proof fn law_later_of_color_groups_stands(events: Seq<EventView>, n: nat, id: Seq<char>)
    ensures
        ({
            let map = after_events(events, n).out.color_groups;
            &&& map.dom().contains(id) <==> last_of_color_groups(events, n, id) is Some
            &&& map.dom().contains(id) ==> last_of_color_groups(events, n, id) == Some(map[id])
        }),
    decreases n,
{
    if n > 0 {
        law_later_of_color_groups_stands(events, (n - 1) as nat, id);
        if let EventView::Open(tag) = events[n - 1] {
            if tag.is("ColorGroup"@) {
                lemma_group_name();
            }
        }
    }
}

/// A gradient opens without stops.
pub proof fn law_gradient_opens_empty(st: ProgressView, tag: TagView, id: Seq<char>)
    requires
        tag.is("Gradient"@),
        tag.text("Self"@) == Some(id),
    ensures
        after_event(st, EventView::Open(tag)).gradient matches Some(g) && g.self_id == id
            && g.stops.len() == 0,
        after_event(st, EventView::Open(tag)).out == st.out,
{
    lemma_gradient_name();
}

/// A stop of a gradient stands behind the stops that were there, all of which stay.
pub proof fn law_gradient_stops_gather(
    st: ProgressView,
    tag: TagView,
    g: GradientEntryView,
    stop: GradientStopRefView,
)
    requires
        tag.is("GradientStop"@),
        st.gradient == Some(g),
        gradient_stop_of(tag) == Some(stop),
    ensures
        after_event(st, EventView::Open(tag)).gradient matches Some(after) && {
            &&& has_one_more(g.stops, after.stops)
            &&& after.stops.last() == stop
            &&& after == (GradientEntryView { stops: after.stops, ..g })
        },
        after_event(st, EventView::Open(tag)).out == st.out,
{
    lemma_stop_name();
    assert(g.stops.push(stop).drop_last() =~= g.stops);
}

/// The tag that closes a gradient puts it under its identifier, with its stops; all
/// other gradients stay.
pub proof fn law_gradient_is_kept(st: ProgressView, g: GradientEntryView, id: Seq<char>)
    requires
        st.gradient == Some(g),
    ensures
        ({
            let before = st.out.gradients;
            let after = after_event(st, EventView::End(encode_utf8("Gradient"@))).out.gradients;
            &&& after.dom().contains(g.self_id)
            &&& after[g.self_id] == g
            &&& id != g.self_id ==> (after.dom().contains(id) <==> before.dom().contains(id))
            &&& id != g.self_id && before.dom().contains(id) ==> after[id] == before[id]
        }),
{
}

/// A tint stands behind the tints that were there, all of which stay.
pub proof fn law_tints_gather(st: ProgressView, tag: TagView, tint: TintEntryView)
    requires
        tag.is("Tint"@),
        tint_of(tag) == Some(tint),
    ensures
        ({
            let after = after_event(st, EventView::Open(tag));
            &&& has_one_more(st.tints, after.tints)
            &&& after.tints.last() == tint
            &&& after.out == st.out
        }),
{
    lemma_tint_name();
    assert(st.tints.push(tint).drop_last() =~= st.tints);
}

proof fn lemma_tints_leave(
    colors: Map<Seq<char>, ColorEntryView>,
    tints: Seq<TintEntryView>,
    n: nat,
    id: Seq<char>,
)
    requires
        n <= tints.len(),
        forall|i: int| 0 <= i < n ==> (#[trigger] tints[i]).self_id != id,
    ensures
        with_tints(colors, tints, n).dom().contains(id) <==> colors.dom().contains(id),
        colors.dom().contains(id) ==> with_tints(colors, tints, n)[id] == colors[id],
    decreases n,
{
    if n > 0 {
        lemma_tints_leave(colors, tints, (n - 1) as nat, id);
        assert(tints[n - 1].self_id != id);
    }
}

/// A colour that no tint has the identifier of is, in the palette that is read, what
/// its last tag states.
pub proof fn law_palette_has_the_colours(events: Seq<EventView>, id: Seq<char>)
    requires
        forall|i: int|
            0 <= i < after_events(events, events.len()).tints.len() ==> (
            #[trigger] after_events(events, events.len()).tints[i]).self_id != id,
    ensures
        ({
            let colors = graphic_of(events).colors;
            &&& colors.dom().contains(id) <==> last_of_colors(events, events.len(), id) is Some
            &&& colors.dom().contains(id) ==> last_of_colors(events, events.len(), id) == Some(
                colors[id],
            )
        }),
{
    let st = after_events(events, events.len());
    lemma_tints_leave(st.out.colors, st.tints, st.tints.len(), id);
    law_later_of_colors_stands(events, events.len(), id);
}

/// A tint says what its base says, but for its own name and strength.
pub proof fn law_tint_follows_its_base(
    colors: Map<Seq<char>, ColorEntryView>,
    tint: TintEntryView,
    base: Seq<char>,
)
    requires
        tint.base == Some(base),
        colors.dom().contains(base),
    ensures
        ({
            let c = tinted(colors, tint);
            &&& c.self_id == tint.self_id
            &&& c.name == tint.name
            &&& c.tint == tint.tint
            &&& c.space == colors[base].space
            &&& c.value == colors[base].value
            &&& c.model == colors[base].model
            &&& c.alternate_space == colors[base].alternate_space
            &&& c.alternate_value == colors[base].alternate_value
        }),
{
}

/// The inks of a tinted colour are those of the colour times the hundredth part of
/// the tint, ink by ink, where numbers can say it.
pub proof fn law_tint_scales_each_ink(c: ColorEntryView, t: Num, share: Num, i: int, ink: Num)
    requires
        c.tint == Some(t),
        plain_cmyk(c) is Some,
        0 <= i < plain_cmyk(c)->0.len(),
        is_finite(t),
        is_finite(share),
        units(share) * 100 == units(t),
        is_finite(plain_cmyk(c)->0[i]),
        is_finite(ink),
        units(ink) * pow2(149) == units(plain_cmyk(c)->0[i]) * units(share),
    ensures
        cmyk_of(c) matches Some(v) && {
            &&& v.len() == plain_cmyk(c)->0.len()
            &&& units(v[i]) * pow2(149) * 100 == units(plain_cmyk(c)->0[i]) * units(t)
        },
{
    let a = plain_cmyk(c)->0[i];
    let q = quotient(t, 100);
    law_quotient_is_exact(t, 100, share);
    assert(units(q) == units(share));
    law_product_is_exact(a, q, ink);
    let r = cmyk_of(c)->0[i];
    assert(units(r) * pow2(149) == units(a) * units(q));
    assert(units(a) * units(q) * 100 == units(a) * units(t)) by (nonlinear_arith)
        requires
            units(q) * 100 == units(t),
    ;
}

/// A colour without a tint has its own inks.
pub proof fn law_plain_colour_keeps_its_inks(c: ColorEntryView)
    requires
        c.tint is None,
    ensures
        cmyk_of(c) == plain_cmyk(c),
{
}

/// How opaque a colour is lies from zero to one: a number up to one is taken as it
/// is, a larger one as a percentage; what is below zero is zero, what is above a
/// hundred is one.
pub proof fn law_alpha_is_a_share(v: Num, part: Num)
    requires
        is_finite(v),
        is_finite(part),
        units(part) * 100 == units(v),
    ensures
        0 <= units(alpha_from(v)) <= units(one()),
        0 <= units(v) <= units(one()) ==> alpha_from(v) == v,
        units(v) < 0 ==> units(alpha_from(v)) == 0,
        units(one()) < units(v) <= 100 * units(one()) ==> units(alpha_from(v)) * 100 == units(v),
        100 * units(one()) < units(v) ==> alpha_from(v) == one(),
{
    law_size_grows(0, crate::number::size_bits(one()));
    law_quotient_is_exact(v, 100, part);
    let q = quotient(v, 100);
    law_order_is_by_value(one(), v);
    law_order_is_by_value(v, zero());
    law_order_is_by_value(one(), q);
    law_order_is_by_value(q, zero());
}

} // verus!
