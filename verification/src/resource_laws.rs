//! What holds of every manifest, palette, style sheet and package that is read.
use crate::archive::{package_of, MIME, SlotView, SourceArchiveView};
use crate::designmap::{self, designmap_of, DesignMapView, LayerView};
use crate::graphic::{
    after_events as after_palette_events, graphic_of, tint_of, with_tints, ColorEntryView,
    GraphicView, TintEntryView,
};
use crate::import::{
    all_spreads, all_stories, parts_of, spread_parts, spread_sources, story_parts, story_sources,
};
use crate::number::{at_most, is_finite, zero};
use crate::styles::{
    after_child, after_event, after_events, after_part, after_property, after_style, cell_style_of,
    character_style_of, object_style_of, paragraph_style_of, stroke_style_of, stylesheet_of,
    table_style_of, toc_style_of, CellStyleDefView, CharacterStyleDefView, ConditionDefView,
    ConditionSetDefView, CurrentProperty, CurrentStyle, NumberingListDefView, ObjectStyleDefView,
    ParagraphStyleDefView, ProgressView, StrokeStyleDefView, StyleSheetView, TOCStyleDefView,
    TableStyleDefView,
};
use crate::xml::{hundred, law_names_differ, EventView, TagView};
use vstd::prelude::*;
use vstd::utf8::encode_utf8;

verus! {

/// A tint that a tag states is a percentage.
pub proof fn law_tint_is_a_percentage(tag: TagView, key: Seq<char>)
    ensures
        tag.tint(key) matches Some(v) ==> at_most(zero(), v) && at_most(v, hundred()),
{
}

/// A measure of an effect that a tag states is finite.
pub proof fn law_measure_is_finite(tag: TagView, key: Seq<char>)
    ensures
        tag.finite(key) matches Some(v) ==> is_finite(v),
{
}

/// What a tag does not state, it states in no form.
pub proof fn law_nothing_stated_is_nothing_read(tag: TagView, key: Seq<char>)
    requires
        tag.raw(key) is None,
    ensures
        tag.text(key) is None,
        tag.unescaped(key) is None,
        tag.num(key) is None,
        tag.finite(key) is None,
        tag.tint(key) is None,
        tag.flag(key) is None,
        tag.count(key) is None,
        tag.integer(key) is None,
{
}

/// Whether every entry of a palette stands under its own identifier.
pub open spec fn palette_is_keyed(palette: GraphicView) -> bool {
    &&& forall|id: Seq<char>|
        #[trigger] palette.colors.dom().contains(id) ==> palette.colors[id].self_id == id
    &&& forall|id: Seq<char>|
        #[trigger] palette.swatches.dom().contains(id) ==> palette.swatches[id].self_id == id
    &&& forall|id: Seq<char>|
        #[trigger] palette.gradients.dom().contains(id) ==> palette.gradients[id].self_id == id
    &&& forall|id: Seq<char>|
        #[trigger] palette.color_groups.dom().contains(id) ==> palette.color_groups[id].self_id
            == id
}

proof fn lemma_palette_is_keyed(events: Seq<EventView>, n: nat)
    ensures
        palette_is_keyed(after_palette_events(events, n).out),
    decreases n,
{
    if n > 0 {
        lemma_palette_is_keyed(events, (n - 1) as nat);
    }
}

proof fn lemma_tints_are_keyed(
    colors: Map<Seq<char>, ColorEntryView>,
    tints: Seq<TintEntryView>,
    n: nat,
)
    requires
        forall|id: Seq<char>| #[trigger] colors.dom().contains(id) ==> colors[id].self_id == id,
    ensures
        forall|id: Seq<char>| #[trigger]
            with_tints(colors, tints, n).dom().contains(id) ==> with_tints(
                colors,
                tints,
                n,
            )[id].self_id == id,
    decreases n,
{
    if n > 0 {
        lemma_tints_are_keyed(colors, tints, (n - 1) as nat);
    }
}

/// Every colour, swatch, gradient and colour group of a palette stands under its
/// own identifier.
pub proof fn law_palette_is_keyed(events: Seq<EventView>)
    ensures
        palette_is_keyed(graphic_of(events)),
{
    let st = after_palette_events(events, events.len());
    lemma_palette_is_keyed(events, events.len());
    lemma_tints_are_keyed(st.out.colors, st.tints, st.tints.len());
}

/// The identifiers that the tags called `name` among the first `n` events state.
pub open spec fn stated_by(events: Seq<EventView>, n: nat, name: Seq<char>) -> Set<Seq<char>>
    decreases n,
{
    if n == 0 {
        Set::empty()
    } else {
        let before = stated_by(events, (n - 1) as nat, name);
        match events[n - 1] {
            EventView::Open(tag) => match tag.text("Self"@) {
                Some(id) if tag.is(name) => before.insert(id),
                _ => before,
            },
            _ => before,
        }
    }
}

spec fn tint_ids(tints: Seq<TintEntryView>, n: nat) -> Set<Seq<char>>
    decreases n,
{
    if n == 0 {
        Set::empty()
    } else {
        tint_ids(tints, (n - 1) as nat).insert(tints[n - 1].self_id)
    }
}

proof fn lemma_tint_ids_of_more(tints: Seq<TintEntryView>, tint: TintEntryView, n: nat)
    requires
        n <= tints.len(),
    ensures
        tint_ids(tints.push(tint), n) == tint_ids(tints, n),
    decreases n,
{
    if n > 0 {
        lemma_tint_ids_of_more(tints, tint, (n - 1) as nat);
    }
}

proof fn lemma_tints_add_their_ids(
    colors: Map<Seq<char>, ColorEntryView>,
    tints: Seq<TintEntryView>,
    n: nat,
)
    ensures
        with_tints(colors, tints, n).dom() == colors.dom() + tint_ids(tints, n),
    decreases n,
{
    if n > 0 {
        lemma_tints_add_their_ids(colors, tints, (n - 1) as nat);
    }
    assert(with_tints(colors, tints, n).dom() =~= colors.dom() + tint_ids(tints, n));
}

/// The names of the entries of a palette are different.
proof fn lemma_entry_names_differ()
    ensures
        encode_utf8("Color"@) != encode_utf8("Tint"@),
        encode_utf8("Color"@) != encode_utf8("Swatch"@),
        encode_utf8("Color"@) != encode_utf8("Gradient"@),
        encode_utf8("Color"@) != encode_utf8("GradientStop"@),
        encode_utf8("Color"@) != encode_utf8("ColorGroup"@),
        encode_utf8("Tint"@) != encode_utf8("Swatch"@),
        encode_utf8("Tint"@) != encode_utf8("Gradient"@),
        encode_utf8("Tint"@) != encode_utf8("GradientStop"@),
        encode_utf8("Tint"@) != encode_utf8("ColorGroup"@),
        encode_utf8("Swatch"@) != encode_utf8("Gradient"@),
        encode_utf8("Swatch"@) != encode_utf8("GradientStop"@),
        encode_utf8("Swatch"@) != encode_utf8("ColorGroup"@),
        encode_utf8("ColorGroup"@) != encode_utf8("Gradient"@),
        encode_utf8("ColorGroup"@) != encode_utf8("GradientStop"@),
{
    reveal_strlit("Color");
    reveal_strlit("Tint");
    reveal_strlit("Swatch");
    reveal_strlit("Gradient");
    reveal_strlit("GradientStop");
    reveal_strlit("ColorGroup");
    law_names_differ("Color"@, "Tint"@);
    law_names_differ("Color"@, "Swatch"@);
    law_names_differ("Color"@, "Gradient"@);
    law_names_differ("Color"@, "GradientStop"@);
    law_names_differ("Color"@, "ColorGroup"@);
    law_names_differ("Tint"@, "Swatch"@);
    law_names_differ("Tint"@, "Gradient"@);
    law_names_differ("Tint"@, "GradientStop"@);
    law_names_differ("Tint"@, "ColorGroup"@);
    law_names_differ("Swatch"@, "Gradient"@);
    law_names_differ("Swatch"@, "GradientStop"@);
    law_names_differ("Swatch"@, "ColorGroup"@);
    law_names_differ("ColorGroup"@, "Gradient"@);
    law_names_differ("ColorGroup"@, "GradientStop"@);
}

proof fn lemma_palette_keys(events: Seq<EventView>, n: nat)
    ensures
        ({
            let st = after_palette_events(events, n);
            &&& st.out.colors.dom() == stated_by(events, n, "Color"@)
            &&& tint_ids(st.tints, st.tints.len()) == stated_by(events, n, "Tint"@)
            &&& st.out.swatches.dom() == stated_by(events, n, "Swatch"@)
            &&& st.out.color_groups.dom() == stated_by(events, n, "ColorGroup"@)
            &&& st.out.gradients.dom().subset_of(stated_by(events, n, "Gradient"@))
            &&& st.gradient matches Some(g) ==> stated_by(events, n, "Gradient"@).contains(
                g.self_id,
            )
        }),
    decreases n,
{
    if n > 0 {
        lemma_palette_keys(events, (n - 1) as nat);
        lemma_entry_names_differ();
        let before = after_palette_events(events, (n - 1) as nat);
        let st = after_palette_events(events, n);
        if let EventView::Open(tag) = events[n - 1] {
            if let Some(tint) = tint_of(tag) {
                lemma_tint_ids_of_more(before.tints, tint, before.tints.len());
            }
        }
        assert(st.out.colors.dom() =~= stated_by(events, n, "Color"@));
        assert(tint_ids(st.tints, st.tints.len()) =~= stated_by(events, n, "Tint"@));
        assert(st.out.swatches.dom() =~= stated_by(events, n, "Swatch"@));
        assert(st.out.color_groups.dom() =~= stated_by(events, n, "ColorGroup"@));
    } else {
        let st = after_palette_events(events, n);
        assert(st.out.colors.dom() =~= Set::empty());
        assert(st.out.swatches.dom() =~= Set::empty());
        assert(st.out.color_groups.dom() =~= Set::empty());
    }
}

/// A palette has the colours with the tints, the swatches and the colour groups
/// under the identifiers that their tags state, and under no others; and it has no
/// gradient under an identifier that no gradient states.
pub proof fn law_palette_keys_are_stated(events: Seq<EventView>)
    ensures
        ({
            let palette = graphic_of(events);
            let n = events.len();
            &&& palette.colors.dom() == stated_by(events, n, "Color"@) + stated_by(
                events,
                n,
                "Tint"@,
            )
            &&& palette.swatches.dom() == stated_by(events, n, "Swatch"@)
            &&& palette.color_groups.dom() == stated_by(events, n, "ColorGroup"@)
            &&& palette.gradients.dom().subset_of(stated_by(events, n, "Gradient"@))
        }),
{
    let st = after_palette_events(events, events.len());
    lemma_palette_keys(events, events.len());
    lemma_tints_add_their_ids(st.out.colors, st.tints, st.tints.len());
}

/// A tint whose base is in the palette keeps the ink and the channels of its base.
pub proof fn law_tint_keeps_the_ink_of_its_base(
    colors: Map<Seq<char>, ColorEntryView>,
    tint: TintEntryView,
)
    requires
        tint.base is Some,
        colors.dom().contains(tint.base->0),
    ensures
        ({
            let base = colors[tint.base->0];
            let made = crate::graphic::tinted(colors, tint);
            &&& made.model == base.model
            &&& made.space == base.space
            &&& made.value == base.value
            &&& made.alternate_space == base.alternate_space
            &&& made.alternate_value == base.alternate_value
            &&& made.tint == tint.tint
        }),
{
}

/// Whether every entry stands under its own identifier.
#[verifier::opaque]
pub open spec fn paragraph_styles_are_keyed(m: Map<Seq<char>, ParagraphStyleDefView>) -> bool {
    forall|id: Seq<char>| #[trigger] m.dom().contains(id) ==> m[id].self_id == id
}

proof fn lemma_paragraph_styles_insert(
    m: Map<Seq<char>, ParagraphStyleDefView>,
    id: Seq<char>,
    x: ParagraphStyleDefView,
)
    requires
        paragraph_styles_are_keyed(m),
        x.self_id == id,
    ensures
        paragraph_styles_are_keyed(m.insert(id, x)),
{
    reveal(paragraph_styles_are_keyed);
}

/// Whether every entry stands under its own identifier.
#[verifier::opaque]
pub open spec fn character_styles_are_keyed(m: Map<Seq<char>, CharacterStyleDefView>) -> bool {
    forall|id: Seq<char>| #[trigger] m.dom().contains(id) ==> m[id].self_id == id
}

proof fn lemma_character_styles_insert(
    m: Map<Seq<char>, CharacterStyleDefView>,
    id: Seq<char>,
    x: CharacterStyleDefView,
)
    requires
        character_styles_are_keyed(m),
        x.self_id == id,
    ensures
        character_styles_are_keyed(m.insert(id, x)),
{
    reveal(character_styles_are_keyed);
}

/// Whether every entry stands under its own identifier.
#[verifier::opaque]
pub open spec fn object_styles_are_keyed(m: Map<Seq<char>, ObjectStyleDefView>) -> bool {
    forall|id: Seq<char>| #[trigger] m.dom().contains(id) ==> m[id].self_id == id
}

proof fn lemma_object_styles_insert(
    m: Map<Seq<char>, ObjectStyleDefView>,
    id: Seq<char>,
    x: ObjectStyleDefView,
)
    requires
        object_styles_are_keyed(m),
        x.self_id == id,
    ensures
        object_styles_are_keyed(m.insert(id, x)),
{
    reveal(object_styles_are_keyed);
}

/// Whether every entry stands under its own identifier.
#[verifier::opaque]
pub open spec fn cell_styles_are_keyed(m: Map<Seq<char>, CellStyleDefView>) -> bool {
    forall|id: Seq<char>| #[trigger] m.dom().contains(id) ==> m[id].self_id == id
}

proof fn lemma_cell_styles_insert(
    m: Map<Seq<char>, CellStyleDefView>,
    id: Seq<char>,
    x: CellStyleDefView,
)
    requires
        cell_styles_are_keyed(m),
        x.self_id == id,
    ensures
        cell_styles_are_keyed(m.insert(id, x)),
{
    reveal(cell_styles_are_keyed);
}

/// Whether every entry stands under its own identifier.
#[verifier::opaque]
pub open spec fn table_styles_are_keyed(m: Map<Seq<char>, TableStyleDefView>) -> bool {
    forall|id: Seq<char>| #[trigger] m.dom().contains(id) ==> m[id].self_id == id
}

proof fn lemma_table_styles_insert(
    m: Map<Seq<char>, TableStyleDefView>,
    id: Seq<char>,
    x: TableStyleDefView,
)
    requires
        table_styles_are_keyed(m),
        x.self_id == id,
    ensures
        table_styles_are_keyed(m.insert(id, x)),
{
    reveal(table_styles_are_keyed);
}

/// Whether every entry stands under its own identifier.
#[verifier::opaque]
pub open spec fn toc_styles_are_keyed(m: Map<Seq<char>, TOCStyleDefView>) -> bool {
    forall|id: Seq<char>| #[trigger] m.dom().contains(id) ==> m[id].self_id == id
}

proof fn lemma_toc_styles_insert(
    m: Map<Seq<char>, TOCStyleDefView>,
    id: Seq<char>,
    x: TOCStyleDefView,
)
    requires
        toc_styles_are_keyed(m),
        x.self_id == id,
    ensures
        toc_styles_are_keyed(m.insert(id, x)),
{
    reveal(toc_styles_are_keyed);
}

/// Whether every entry stands under its own identifier.
#[verifier::opaque]
pub open spec fn stroke_styles_are_keyed(m: Map<Seq<char>, StrokeStyleDefView>) -> bool {
    forall|id: Seq<char>| #[trigger] m.dom().contains(id) ==> m[id].self_id == id
}

proof fn lemma_stroke_styles_insert(
    m: Map<Seq<char>, StrokeStyleDefView>,
    id: Seq<char>,
    x: StrokeStyleDefView,
)
    requires
        stroke_styles_are_keyed(m),
        x.self_id == id,
    ensures
        stroke_styles_are_keyed(m.insert(id, x)),
{
    reveal(stroke_styles_are_keyed);
}

/// Whether every entry stands under its own identifier.
#[verifier::opaque]
pub open spec fn conditions_are_keyed(m: Map<Seq<char>, ConditionDefView>) -> bool {
    forall|id: Seq<char>| #[trigger] m.dom().contains(id) ==> m[id].self_id == id
}

/// Whether every entry stands under its own identifier.
#[verifier::opaque]
pub open spec fn condition_sets_are_keyed(m: Map<Seq<char>, ConditionSetDefView>) -> bool {
    forall|id: Seq<char>| #[trigger] m.dom().contains(id) ==> m[id].self_id == id
}

/// Whether every entry stands under its own identifier.
#[verifier::opaque]
pub open spec fn numbering_lists_are_keyed(m: Map<Seq<char>, NumberingListDefView>) -> bool {
    forall|id: Seq<char>| #[trigger] m.dom().contains(id) ==> m[id].self_id == id
}

/// Whether every entry of a style sheet stands under its own identifier.
pub open spec fn styles_are_keyed(styles: StyleSheetView) -> bool {
    &&& paragraph_styles_are_keyed(styles.paragraph_styles)
    &&& character_styles_are_keyed(styles.character_styles)
    &&& object_styles_are_keyed(styles.object_styles)
    &&& cell_styles_are_keyed(styles.cell_styles)
    &&& table_styles_are_keyed(styles.table_styles)
    &&& toc_styles_are_keyed(styles.toc_styles)
    &&& stroke_styles_are_keyed(styles.stroke_styles)
    &&& conditions_are_keyed(styles.conditions)
    &&& condition_sets_are_keyed(styles.condition_sets)
    &&& numbering_lists_are_keyed(styles.numbering_lists)
}

proof fn lemma_style_is_keyed(st: ProgressView, tag: TagView)
    requires
        styles_are_keyed(st.out),
    ensures
        styles_are_keyed(after_style(st, tag).out),
{
    if let Some(x) = character_style_of(tag) {
        lemma_character_styles_insert(st.out.character_styles, x.self_id, x);
    }
    if let Some(x) = paragraph_style_of(tag) {
        lemma_paragraph_styles_insert(st.out.paragraph_styles, x.self_id, x);
    }
    if let Some(x) = object_style_of(tag) {
        lemma_object_styles_insert(st.out.object_styles, x.self_id, x);
    }
    if let Some(x) = cell_style_of(tag) {
        lemma_cell_styles_insert(st.out.cell_styles, x.self_id, x);
    }
    if let Some(x) = table_style_of(tag) {
        lemma_table_styles_insert(st.out.table_styles, x.self_id, x);
    }
    if let Some(x) = toc_style_of(tag) {
        lemma_toc_styles_insert(st.out.toc_styles, x.self_id, x);
    }
    if let Some(x) = stroke_style_of(tag) {
        lemma_stroke_styles_insert(st.out.stroke_styles, x.self_id, x);
    }
}

proof fn lemma_child_is_keyed(st: ProgressView, tag: TagView)
    requires
        styles_are_keyed(st.out),
    ensures
        styles_are_keyed(after_child(st, tag)),
{
    reveal(paragraph_styles_are_keyed);
    reveal(stroke_styles_are_keyed);
}

proof fn lemma_part_is_keyed(st: ProgressView, tag: TagView)
    requires
        styles_are_keyed(st.out),
    ensures
        styles_are_keyed(after_part(st, tag).out),
{
    lemma_child_is_keyed(st, tag);
    reveal(toc_styles_are_keyed);
    reveal(conditions_are_keyed);
    reveal(condition_sets_are_keyed);
    reveal(numbering_lists_are_keyed);
}

proof fn lemma_property_is_keyed(
    st: ProgressView,
    style: CurrentStyle,
    property: CurrentProperty,
    text: Seq<char>,
)
    requires
        styles_are_keyed(st.out),
    ensures
        styles_are_keyed(after_property(st, style, property, text)),
{
    reveal(paragraph_styles_are_keyed);
    reveal(character_styles_are_keyed);
    reveal(object_styles_are_keyed);
    reveal(cell_styles_are_keyed);
    reveal(table_styles_are_keyed);
}

proof fn lemma_event_is_keyed(st: ProgressView, event: EventView)
    requires
        styles_are_keyed(st.out),
    ensures
        styles_are_keyed(after_event(st, event).out),
{
    match event {
        EventView::Open(tag) => {
            lemma_style_is_keyed(st, tag);
            lemma_part_is_keyed(st, tag);
        },
        EventView::Text(raw) => {
            if let (Some(property), Some(style)) = (st.pending, st.style) {
                lemma_property_is_keyed(st, style, property, crate::xml::text_content(raw));
            }
        },
        _ => {},
    }
}

proof fn lemma_events_are_keyed(events: Seq<EventView>, n: nat)
    ensures
        styles_are_keyed(after_events(events, n).out),
    decreases n,
{
    if n == 0 {
        reveal(paragraph_styles_are_keyed);
        reveal(character_styles_are_keyed);
        reveal(object_styles_are_keyed);
        reveal(cell_styles_are_keyed);
        reveal(table_styles_are_keyed);
        reveal(toc_styles_are_keyed);
        reveal(stroke_styles_are_keyed);
        reveal(conditions_are_keyed);
        reveal(condition_sets_are_keyed);
        reveal(numbering_lists_are_keyed);
    } else {
        lemma_events_are_keyed(events, (n - 1) as nat);
        lemma_event_is_keyed(after_events(events, (n - 1) as nat), events[n - 1]);
    }
}

/// Every style, condition and numbering list of a style sheet stands under its own
/// identifier.
pub proof fn law_styles_are_keyed(events: Seq<EventView>)
    ensures
        styles_are_keyed(stylesheet_of(events)),
{
    lemma_events_are_keyed(events, events.len());
}

/// What the tag of a paragraph style states of its font or of the style it is
/// based on is not changed by an element inside it.
pub proof fn law_attribute_beats_element(
    st: ProgressView,
    style: CurrentStyle,
    property: CurrentProperty,
    text: Seq<char>,
    id: Seq<char>,
)
    requires
        st.out.paragraph_styles.dom().contains(id),
    ensures
        ({
            let before = st.out.paragraph_styles[id];
            let after = after_property(st, style, property, text).paragraph_styles[id];
            &&& before.font is Some ==> after.font == before.font
            &&& before.based_on is Some ==> after.based_on == before.based_on
            &&& before.numbering_expression is Some ==> after.numbering_expression
                == before.numbering_expression
        }),
{
}

/// Whether a layer with this identifier is among the first `n`.
pub open spec fn is_layer(layers: Seq<LayerView>, id: Seq<char>, n: int) -> bool {
    exists|i: int| 0 <= i < n && (#[trigger] layers[i]).self_id == id
}

/// Whether every layer comes behind the one it stands in.
pub open spec fn layers_follow_their_groups(layers: Seq<LayerView>) -> bool {
    forall|i: int|
        0 <= i < layers.len() ==> ((#[trigger] layers[i]).parent_id matches Some(id) ==> is_layer(
            layers,
            id,
            i,
        ))
}

/// Every layer comes behind the one it stands in, and every open group is listed.
spec fn layers_are_sound(st: designmap::ProgressView) -> bool {
    &&& layers_follow_their_groups(st.out.layers)
    &&& forall|i: int|
        0 <= i < st.layer_stack.len() ==> is_layer(
            st.out.layers,
            #[trigger] st.layer_stack[i],
            st.out.layers.len() as int,
        )
}

proof fn lemma_setting_keeps_layers(out: DesignMapView, tag: TagView)
    ensures
        designmap::after_setting(out, tag).layers == out.layers,
{
}

proof fn lemma_layer_is_sound(st: designmap::ProgressView, tag: TagView)
    requires
        layers_are_sound(st),
    ensures
        layers_are_sound(designmap::after_layer(st, tag)),
{
    let after = designmap::after_layer(st, tag);
    let old_layers = st.out.layers;
    let layers = after.out.layers;
    if layers != old_layers {
        let n = old_layers.len() as int;
        assert forall|id: Seq<char>, k: int| k <= n && is_layer(old_layers, id, k) implies is_layer(
            layers,
            id,
            k,
        ) by {
            let i = choose|i: int| 0 <= i < k && (#[trigger] old_layers[i]).self_id == id;
            assert(layers[i].self_id == id);
        }
        assert(layers[n].self_id == layers.last().self_id);
        assert forall|i: int| 0 <= i < layers.len() implies ((
        #[trigger] layers[i]).parent_id matches Some(id) ==> is_layer(layers, id, i)) by {
            if i < n {
                assert(layers[i] == old_layers[i]);
            } else if st.layer_stack.len() > 0 {
                let top = st.layer_stack[st.layer_stack.len() - 1];
                assert(is_layer(old_layers, top, n));
            }
        }
        assert forall|i: int| 0 <= i < after.layer_stack.len() implies is_layer(
            layers,
            #[trigger] after.layer_stack[i],
            layers.len() as int,
        ) by {
            if i < st.layer_stack.len() {
                assert(after.layer_stack[i] == st.layer_stack[i]);
                assert(is_layer(old_layers, st.layer_stack[i], n));
                let k = choose|k: int|
                    0 <= k < n && (#[trigger] old_layers[k]).self_id == st.layer_stack[i];
                assert(layers[k].self_id == after.layer_stack[i]);
            } else {
                assert(layers[n].self_id == after.layer_stack[i]);
            }
        }
    }
}

proof fn lemma_layers_are_sound(events: Seq<EventView>, n: nat)
    requires
        n <= events.len(),
    ensures
        layers_are_sound(designmap::after_events(events, n)),
    decreases n,
{
    if n > 0 {
        let before = designmap::after_events(events, (n - 1) as nat);
        lemma_layers_are_sound(events, (n - 1) as nat);
        match events[n - 1] {
            EventView::Open(tag) => {
                lemma_layer_is_sound(before, tag);
                lemma_setting_keeps_layers(before.out, tag);
            },
            _ => {},
        }
    }
}

/// The layers of a manifest are listed from the outside in: the layer that one
/// stands in comes before it.
pub proof fn law_layers_follow_their_groups(events: Seq<EventView>)
    ensures
        layers_follow_their_groups(designmap_of(events).layers),
{
    lemma_layers_are_sound(events, events.len());
}

/// A package that opens says that it is one, and has a manifest.
pub proof fn law_opened_package_has_a_manifest(directory: Option<Seq<Option<SlotView>>>)
    ensures
        package_of(directory) matches Ok(archive) ==> archive.mimetype == MIME@
            && archive.entries.dom().contains("mimetype"@) && archive.entries.dom().contains(
            "designmap.xml"@,
        ) && archive.designmap_raw == archive.entries["designmap.xml"@],
{
}

proof fn lemma_spreads_are_read(entries: Map<Seq<char>, Seq<u8>>, sources: Seq<Seq<char>>, n: nat)
    requires
        n <= sources.len(),
    ensures
        spread_parts(entries, sources, n) matches Ok(read) ==> read.len() == n && forall|i: int|
            0 <= i < n ==> (#[trigger] read[i]).src == sources[i] && entries.dom().contains(
                sources[i],
            ),
    decreases n,
{
    if n > 0 {
        lemma_spreads_are_read(entries, sources, (n - 1) as nat);
    }
}

proof fn lemma_stories_are_read(entries: Map<Seq<char>, Seq<u8>>, sources: Seq<Seq<char>>, n: nat)
    requires
        n <= sources.len(),
    ensures
        story_parts(entries, sources, n) matches Ok(read) ==> read.len() == n && forall|i: int|
            0 <= i < n ==> (#[trigger] read[i]).src == sources[i] && entries.dom().contains(
                sources[i],
            ),
    decreases n,
{
    if n > 0 {
        lemma_stories_are_read(entries, sources, (n - 1) as nat);
    }
}

/// What is read of a package is all that its manifest lists, in the order in which
/// it lists it; the package has an entry for each of them.
pub proof fn law_import_reads_all_that_is_listed(archive: SourceArchiveView)
    ensures
        parts_of(archive) matches Ok(parts) ==> {
            let map = parts.designmap;
            &&& parts.master_spreads.len() == map.master_spreads.len()
            &&& parts.spreads.len() == map.spreads.len()
            &&& parts.stories.len() == map.stories.len()
            &&& forall|i: int|
                0 <= i < map.master_spreads.len() ==> (#[trigger] parts.master_spreads[i]).src
                    == map.master_spreads[i] && archive.entries.dom().contains(
                    map.master_spreads[i],
                )
            &&& forall|i: int|
                0 <= i < map.spreads.len() ==> (#[trigger] parts.spreads[i]).src
                    == map.spreads[i].src && archive.entries.dom().contains(map.spreads[i].src)
            &&& forall|i: int|
                0 <= i < map.stories.len() ==> (#[trigger] parts.stories[i]).src
                    == map.stories[i].src && archive.entries.dom().contains(map.stories[i].src)
        },
{
    if let Ok(parts) = parts_of(archive) {
        reveal(all_spreads);
        reveal(all_stories);
        let map = parts.designmap;
        let masters = map.master_spreads;
        lemma_spreads_are_read(archive.entries, masters, masters.len());
        lemma_spreads_are_read(archive.entries, spread_sources(map), map.spreads.len());
        lemma_stories_are_read(archive.entries, story_sources(map), map.stories.len());
    }
}

} // verus!
