//! The keys of a style sheet: the identifiers that its part states, and no others.
use crate::styles::{
    after_child, after_event, after_events, after_part, after_property, after_style, cell_style_of,
    character_style_of, object_style_of, paragraph_style_of, stroke_kind_of, stroke_style_of,
    stylesheet_of, table_style_of, toc_style_of, CurrentProperty, CurrentStyle, is_style,
    ProgressView, StyleSheetView,
};
use crate::xml::{EventView, TagView};
use vstd::prelude::*;
use vstd::utf8::{decode_utf8, encode_utf8};

verus! {

/// What a style sheet keeps by its identifier.
pub ghost enum Keyed {
    Character,
    Paragraph,
    Object,
    Cell,
    Table,
    Toc,
    Stroke,
    Condition,
    ConditionSet,
    NumberingList,
}

/// Whether a tag of this name states one.
pub open spec fn is_named(kind: Keyed, name: Seq<u8>) -> bool {
    match kind {
        Keyed::Character => name == encode_utf8("CharacterStyle"@),
        Keyed::Paragraph => name == encode_utf8("ParagraphStyle"@),
        Keyed::Object => name == encode_utf8("ObjectStyle"@),
        Keyed::Cell => name == encode_utf8("CellStyle"@),
        Keyed::Table => name == encode_utf8("TableStyle"@),
        Keyed::Toc => name == encode_utf8("TOCStyle"@),
        Keyed::Stroke => stroke_kind_of(name) is Some,
        Keyed::Condition => name == encode_utf8("Condition"@),
        Keyed::ConditionSet => name == encode_utf8("ConditionSet"@),
        Keyed::NumberingList => name == encode_utf8("NumberingList"@),
    }
}

/// The identifiers under which a style sheet has them.
pub open spec fn keys(styles: StyleSheetView, kind: Keyed) -> Set<Seq<char>> {
    match kind {
        Keyed::Character => styles.character_styles.dom(),
        Keyed::Paragraph => styles.paragraph_styles.dom(),
        Keyed::Object => styles.object_styles.dom(),
        Keyed::Cell => styles.cell_styles.dom(),
        Keyed::Table => styles.table_styles.dom(),
        Keyed::Toc => styles.toc_styles.dom(),
        Keyed::Stroke => styles.stroke_styles.dom(),
        Keyed::Condition => styles.conditions.dom(),
        Keyed::ConditionSet => styles.condition_sets.dom(),
        Keyed::NumberingList => styles.numbering_lists.dom(),
    }
}

/// `ids` with the identifier that a tag states, where it states one of this kind.
pub open spec fn with_id(ids: Set<Seq<char>>, tag: TagView, kind: Keyed) -> Set<Seq<char>> {
    match tag.text("Self"@) {
        Some(id) if is_named(kind, tag.name) => ids.insert(id),
        _ => ids,
    }
}

/// The identifiers that the first `n` events state for them, whether or not their
/// tags close themselves.
pub open spec fn stated_ids(events: Seq<EventView>, n: nat, kind: Keyed) -> Set<Seq<char>>
    decreases n,
{
    if n == 0 {
        Set::empty()
    } else {
        let before = stated_ids(events, (n - 1) as nat, kind);
        match events[n - 1] {
            EventView::Open(tag) => with_id(before, tag, kind),
            _ => before,
        }
    }
}

/// No name is that of two kinds.
proof fn lemma_kinds_differ(a: Keyed, b: Keyed, name: Seq<u8>)
    requires
        is_named(a, name),
        is_named(b, name),
    ensures
        a == b,
{
    broadcast use vstd::utf8::encode_utf8_decode_utf8;

    reveal_strlit("CharacterStyle");
    reveal_strlit("ParagraphStyle");
    reveal_strlit("ObjectStyle");
    reveal_strlit("CellStyle");
    reveal_strlit("TableStyle");
    reveal_strlit("TOCStyle");
    reveal_strlit("DashedStrokeStyle");
    reveal_strlit("DottedStrokeStyle");
    reveal_strlit("StripedStrokeStyle");
    reveal_strlit("WavyStrokeStyle");
    reveal_strlit("Condition");
    reveal_strlit("ConditionSet");
    reveal_strlit("NumberingList");
    assert(decode_utf8(encode_utf8("CharacterStyle"@)) == "CharacterStyle"@);
    assert(decode_utf8(encode_utf8("ParagraphStyle"@)) == "ParagraphStyle"@);
    assert(decode_utf8(encode_utf8("ObjectStyle"@)) == "ObjectStyle"@);
    assert(decode_utf8(encode_utf8("CellStyle"@)) == "CellStyle"@);
    assert(decode_utf8(encode_utf8("TableStyle"@)) == "TableStyle"@);
    assert(decode_utf8(encode_utf8("TOCStyle"@)) == "TOCStyle"@);
    assert(decode_utf8(encode_utf8("DashedStrokeStyle"@)) == "DashedStrokeStyle"@);
    assert(decode_utf8(encode_utf8("DottedStrokeStyle"@)) == "DottedStrokeStyle"@);
    assert(decode_utf8(encode_utf8("StripedStrokeStyle"@)) == "StripedStrokeStyle"@);
    assert(decode_utf8(encode_utf8("WavyStrokeStyle"@)) == "WavyStrokeStyle"@);
    assert(decode_utf8(encode_utf8("Condition"@)) == "Condition"@);
    assert(decode_utf8(encode_utf8("ConditionSet"@)) == "ConditionSet"@);
    assert(decode_utf8(encode_utf8("NumberingList"@)) == "NumberingList"@);
    assert("CharacterStyle"@[0] == 'C' && "ParagraphStyle"@[0] == 'P');
    assert("CellStyle"@[1] == 'e' && "Condition"@[1] == 'o');
}

/// The names of the styles are those that are read as styles.
proof fn lemma_styles_are_styles(kind: Keyed, name: Seq<u8>)
    requires
        is_named(kind, name),
    ensures
        is_style(name) == !(kind is Condition || kind is ConditionSet || kind is NumberingList),
{
    if is_style(name) {
        if name == encode_utf8("CharacterStyle"@) {
            lemma_kinds_differ(kind, Keyed::Character, name);
        } else if name == encode_utf8("ParagraphStyle"@) {
            lemma_kinds_differ(kind, Keyed::Paragraph, name);
        } else if name == encode_utf8("ObjectStyle"@) {
            lemma_kinds_differ(kind, Keyed::Object, name);
        } else if name == encode_utf8("CellStyle"@) {
            lemma_kinds_differ(kind, Keyed::Cell, name);
        } else if name == encode_utf8("TableStyle"@) {
            lemma_kinds_differ(kind, Keyed::Table, name);
        } else if name == encode_utf8("TOCStyle"@) {
            lemma_kinds_differ(kind, Keyed::Toc, name);
        } else {
            lemma_kinds_differ(kind, Keyed::Stroke, name);
        }
    }
}

/// A style stands under the identifier that its tag states.
proof fn lemma_style_ids(tag: TagView)
    ensures
        match tag.text("Self"@) {
            None => {
                &&& character_style_of(tag) is None
                &&& paragraph_style_of(tag) is None
                &&& object_style_of(tag) is None
                &&& cell_style_of(tag) is None
                &&& table_style_of(tag) is None
                &&& toc_style_of(tag) is None
                &&& stroke_style_of(tag) is None
            },
            Some(id) => {
                &&& character_style_of(tag) matches Some(x) && x.self_id == id
                &&& paragraph_style_of(tag) matches Some(x) && x.self_id == id
                &&& object_style_of(tag) matches Some(x) && x.self_id == id
                &&& cell_style_of(tag) matches Some(x) && x.self_id == id
                &&& table_style_of(tag) matches Some(x) && x.self_id == id
                &&& toc_style_of(tag) matches Some(x) && x.self_id == id
                &&& match stroke_style_of(tag) {
                    None => stroke_kind_of(tag.name) is None,
                    Some(x) => stroke_kind_of(tag.name) is Some && x.self_id == id,
                }
            },
        },
{
    reveal(character_style_of);
    reveal(paragraph_style_of);
    reveal(object_style_of);
    reveal(cell_style_of);
    reveal(table_style_of);
    reveal(toc_style_of);
    reveal(stroke_style_of);
}

/// Which kind of style a name is that of.
spec fn kind_of(name: Seq<u8>) -> Keyed {
    if name == encode_utf8("CharacterStyle"@) {
        Keyed::Character
    } else if name == encode_utf8("ParagraphStyle"@) {
        Keyed::Paragraph
    } else if name == encode_utf8("ObjectStyle"@) {
        Keyed::Object
    } else if name == encode_utf8("CellStyle"@) {
        Keyed::Cell
    } else if name == encode_utf8("TableStyle"@) {
        Keyed::Table
    } else if name == encode_utf8("TOCStyle"@) {
        Keyed::Toc
    } else {
        Keyed::Stroke
    }
}

proof fn lemma_style_adds_its_id(st: ProgressView, tag: TagView, kind: Keyed)
    requires
        is_style(tag.name),
    ensures
        keys(after_style(st, tag).out, kind) == with_id(keys(st.out, kind), tag, kind),
{
    lemma_style_ids(tag);
    let its = kind_of(tag.name);
    assert(is_named(its, tag.name));
    if is_named(kind, tag.name) {
        lemma_kinds_differ(kind, its, tag.name);
    }
    assert(keys(after_style(st, tag).out, kind) =~= with_id(keys(st.out, kind), tag, kind));
}

proof fn lemma_child_adds_no_id(st: ProgressView, tag: TagView, kind: Keyed)
    ensures
        keys(after_child(st, tag), kind) == keys(st.out, kind),
{
    assert(keys(after_child(st, tag), kind) =~= keys(st.out, kind));
}

proof fn lemma_other_part_adds_no_id(st: ProgressView, tag: TagView, kind: Keyed)
    requires
        !tag.is("Condition"@),
        !tag.is("ConditionSet"@),
        !tag.is("NumberingList"@),
    ensures
        keys(after_part(st, tag).out, kind) == keys(st.out, kind),
{
    lemma_child_adds_no_id(st, tag, kind);
    assert(keys(after_part(st, tag).out, kind) =~= keys(st.out, kind));
}

proof fn lemma_part_adds_its_id(st: ProgressView, tag: TagView, kind: Keyed)
    requires
        !is_style(tag.name),
    ensures
        keys(after_part(st, tag).out, kind) == with_id(keys(st.out, kind), tag, kind),
{
    if is_named(kind, tag.name) {
        lemma_styles_are_styles(kind, tag.name);
    }
    if tag.is("Condition"@) {
        if is_named(kind, tag.name) {
            lemma_kinds_differ(kind, Keyed::Condition, tag.name);
        }
        assert(keys(after_part(st, tag).out, kind) =~= with_id(keys(st.out, kind), tag, kind));
    } else if tag.is("ConditionSet"@) {
        if is_named(kind, tag.name) {
            lemma_kinds_differ(kind, Keyed::ConditionSet, tag.name);
        }
        assert(keys(after_part(st, tag).out, kind) =~= with_id(keys(st.out, kind), tag, kind));
    } else if tag.is("NumberingList"@) {
        if is_named(kind, tag.name) {
            lemma_kinds_differ(kind, Keyed::NumberingList, tag.name);
        }
        assert(keys(after_part(st, tag).out, kind) =~= with_id(keys(st.out, kind), tag, kind));
    } else {
        lemma_other_part_adds_no_id(st, tag, kind);
    }
}

proof fn lemma_property_adds_no_id(
    st: ProgressView,
    style: CurrentStyle,
    property: CurrentProperty,
    text: Seq<char>,
    kind: Keyed,
)
    ensures
        keys(after_property(st, style, property, text), kind) == keys(st.out, kind),
{
    assert(keys(after_property(st, style, property, text), kind) =~= keys(st.out, kind));
}

proof fn lemma_event_adds_its_id(st: ProgressView, event: EventView, kind: Keyed)
    ensures
        keys(after_event(st, event).out, kind) == match event {
            EventView::Open(tag) => with_id(keys(st.out, kind), tag, kind),
            _ => keys(st.out, kind),
        },
{
    match event {
        EventView::Open(tag) => if is_style(tag.name) {
            lemma_style_adds_its_id(st, tag, kind);
        } else {
            lemma_part_adds_its_id(st, tag, kind);
        },
        EventView::Text(raw) => {
            if let (Some(property), Some(style)) = (st.pending, st.style) {
                lemma_property_adds_no_id(
                    st,
                    style,
                    property,
                    crate::xml::text_content(raw),
                    kind,
                );
            }
        },
        _ => {},
    }
}

proof fn lemma_keys_after_events(events: Seq<EventView>, n: nat, kind: Keyed)
    ensures
        keys(after_events(events, n).out, kind) == stated_ids(events, n, kind),
    decreases n,
{
    if n == 0 {
        assert(keys(after_events(events, n).out, kind) =~= Set::empty());
    } else {
        lemma_keys_after_events(events, (n - 1) as nat, kind);
        lemma_event_adds_its_id(after_events(events, (n - 1) as nat), events[n - 1], kind);
    }
}

/// A style sheet has the styles, the conditions, the sets of conditions and the
/// numbering lists under the identifiers that their tags state, and under no
/// others; a tag without an identifier adds nothing.
pub proof fn law_style_keys_are_stated(events: Seq<EventView>, kind: Keyed)
    ensures
        keys(stylesheet_of(events), kind) == stated_ids(events, events.len(), kind),
{
    lemma_keys_after_events(events, events.len(), kind);
}

} // verus!
