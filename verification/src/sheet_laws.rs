//! How a style sheet gathers: what stands inside a style is added behind what the
//! style had.
use crate::styles::{
    after_child, after_event, after_events, after_part, after_property, after_style, cell_style_of,
    character_style_of, condition_of, condition_set_of, is_style, nested_style_of,
    numbering_list_of, object_style_of, paragraph_style_of, stripe_of, stylesheet_of,
    table_style_of, toc_entry_of, toc_style_of, CellStyleDefView, CharacterStyleDefView,
    ConditionDefView, ConditionSetDefView, CurrentProperty, CurrentStyle, NestedStyleView,
    NumberingListDefView, ObjectStyleDefView, ParagraphStyleDefView, ProgressView,
    StrokeStyleDefView, TOCStyleDefView, TableStyleDefView,
};
use crate::text_attrs::{tab_stop_of, TabStopView};
use crate::xml::{law_names_differ, text_content, EventView, TagView};
use vstd::prelude::*;
use vstd::utf8::encode_utf8;

verus! {

/// No other name is `TabStop`.
proof fn lemma_stop_name()
    ensures
        encode_utf8("TabStop"@) != encode_utf8("CharacterStyle"@),
        encode_utf8("TabStop"@) != encode_utf8("ParagraphStyle"@),
        encode_utf8("TabStop"@) != encode_utf8("ObjectStyle"@),
        encode_utf8("TabStop"@) != encode_utf8("CellStyle"@),
        encode_utf8("TabStop"@) != encode_utf8("TableStyle"@),
        encode_utf8("TabStop"@) != encode_utf8("TOCStyle"@),
        encode_utf8("TabStop"@) != encode_utf8("DashedStrokeStyle"@),
        encode_utf8("TabStop"@) != encode_utf8("DottedStrokeStyle"@),
        encode_utf8("TabStop"@) != encode_utf8("StripedStrokeStyle"@),
        encode_utf8("TabStop"@) != encode_utf8("WavyStrokeStyle"@),
        encode_utf8("TabStop"@) != encode_utf8("Condition"@),
        encode_utf8("TabStop"@) != encode_utf8("ConditionSet"@),
        encode_utf8("TabStop"@) != encode_utf8("NumberingList"@),
        encode_utf8("TabStop"@) != encode_utf8("TOCStyleEntry"@),
        encode_utf8("TabStop"@) != encode_utf8("NestedStyle"@),
        encode_utf8("TabStop"@) != encode_utf8("Stripe"@),
        encode_utf8("TabStop"@) != encode_utf8("BulletChar"@),
{
    reveal_strlit("TabStop");
    reveal_strlit("CharacterStyle");
    reveal_strlit("ParagraphStyle");
    reveal_strlit("ObjectStyle");
    reveal_strlit("CellStyle");
    reveal_strlit("TableStyle");
    reveal_strlit("TOCStyle");
    reveal_strlit("DashedStrokeStyle");
    reveal_strlit("DottedStrokeStyle");
    reveal_strlit("StripedStrokeStyle");
    reveal_strlit("WavyStrokeStyle");
    reveal_strlit("Condition");
    reveal_strlit("ConditionSet");
    reveal_strlit("NumberingList");
    reveal_strlit("TOCStyleEntry");
    reveal_strlit("NestedStyle");
    reveal_strlit("Stripe");
    reveal_strlit("BulletChar");
    law_names_differ("TabStop"@, "CharacterStyle"@);
    law_names_differ("TabStop"@, "ParagraphStyle"@);
    law_names_differ("TabStop"@, "ObjectStyle"@);
    law_names_differ("TabStop"@, "CellStyle"@);
    law_names_differ("TabStop"@, "TableStyle"@);
    law_names_differ("TabStop"@, "TOCStyle"@);
    law_names_differ("TabStop"@, "DashedStrokeStyle"@);
    law_names_differ("TabStop"@, "DottedStrokeStyle"@);
    law_names_differ("TabStop"@, "StripedStrokeStyle"@);
    law_names_differ("TabStop"@, "WavyStrokeStyle"@);
    law_names_differ("TabStop"@, "Condition"@);
    law_names_differ("TabStop"@, "ConditionSet"@);
    law_names_differ("TabStop"@, "NumberingList"@);
    law_names_differ("TabStop"@, "TOCStyleEntry"@);
    law_names_differ("TabStop"@, "NestedStyle"@);
    law_names_differ("TabStop"@, "Stripe"@);
    law_names_differ("TabStop"@, "BulletChar"@);
}

/// No other name is `NestedStyle`.
proof fn lemma_nested_name()
    ensures
        encode_utf8("NestedStyle"@) != encode_utf8("CharacterStyle"@),
        encode_utf8("NestedStyle"@) != encode_utf8("ParagraphStyle"@),
        encode_utf8("NestedStyle"@) != encode_utf8("ObjectStyle"@),
        encode_utf8("NestedStyle"@) != encode_utf8("CellStyle"@),
        encode_utf8("NestedStyle"@) != encode_utf8("TableStyle"@),
        encode_utf8("NestedStyle"@) != encode_utf8("TOCStyle"@),
        encode_utf8("NestedStyle"@) != encode_utf8("DashedStrokeStyle"@),
        encode_utf8("NestedStyle"@) != encode_utf8("DottedStrokeStyle"@),
        encode_utf8("NestedStyle"@) != encode_utf8("StripedStrokeStyle"@),
        encode_utf8("NestedStyle"@) != encode_utf8("WavyStrokeStyle"@),
        encode_utf8("NestedStyle"@) != encode_utf8("Condition"@),
        encode_utf8("NestedStyle"@) != encode_utf8("ConditionSet"@),
        encode_utf8("NestedStyle"@) != encode_utf8("NumberingList"@),
        encode_utf8("NestedStyle"@) != encode_utf8("TOCStyleEntry"@),
        encode_utf8("NestedStyle"@) != encode_utf8("TabStop"@),
        encode_utf8("NestedStyle"@) != encode_utf8("Stripe"@),
        encode_utf8("NestedStyle"@) != encode_utf8("BulletChar"@),
{
    reveal_strlit("NestedStyle");
    reveal_strlit("CharacterStyle");
    reveal_strlit("ParagraphStyle");
    reveal_strlit("ObjectStyle");
    reveal_strlit("CellStyle");
    reveal_strlit("TableStyle");
    reveal_strlit("TOCStyle");
    reveal_strlit("DashedStrokeStyle");
    reveal_strlit("DottedStrokeStyle");
    reveal_strlit("StripedStrokeStyle");
    reveal_strlit("WavyStrokeStyle");
    reveal_strlit("Condition");
    reveal_strlit("ConditionSet");
    reveal_strlit("NumberingList");
    reveal_strlit("TOCStyleEntry");
    reveal_strlit("TabStop");
    reveal_strlit("Stripe");
    reveal_strlit("BulletChar");
    law_names_differ("NestedStyle"@, "CharacterStyle"@);
    law_names_differ("NestedStyle"@, "ParagraphStyle"@);
    assert("NestedStyle"@[0] != "ObjectStyle"@[0]);
    law_names_differ("NestedStyle"@, "ObjectStyle"@);
    law_names_differ("NestedStyle"@, "CellStyle"@);
    law_names_differ("NestedStyle"@, "TableStyle"@);
    law_names_differ("NestedStyle"@, "TOCStyle"@);
    law_names_differ("NestedStyle"@, "DashedStrokeStyle"@);
    law_names_differ("NestedStyle"@, "DottedStrokeStyle"@);
    law_names_differ("NestedStyle"@, "StripedStrokeStyle"@);
    law_names_differ("NestedStyle"@, "WavyStrokeStyle"@);
    law_names_differ("NestedStyle"@, "Condition"@);
    law_names_differ("NestedStyle"@, "ConditionSet"@);
    law_names_differ("NestedStyle"@, "NumberingList"@);
    law_names_differ("NestedStyle"@, "TOCStyleEntry"@);
    law_names_differ("NestedStyle"@, "TabStop"@);
    law_names_differ("NestedStyle"@, "Stripe"@);
    law_names_differ("NestedStyle"@, "BulletChar"@);
}

/// No other name is `Stripe`.
proof fn lemma_stripe_name()
    ensures
        encode_utf8("Stripe"@) != encode_utf8("CharacterStyle"@),
        encode_utf8("Stripe"@) != encode_utf8("ParagraphStyle"@),
        encode_utf8("Stripe"@) != encode_utf8("ObjectStyle"@),
        encode_utf8("Stripe"@) != encode_utf8("CellStyle"@),
        encode_utf8("Stripe"@) != encode_utf8("TableStyle"@),
        encode_utf8("Stripe"@) != encode_utf8("TOCStyle"@),
        encode_utf8("Stripe"@) != encode_utf8("DashedStrokeStyle"@),
        encode_utf8("Stripe"@) != encode_utf8("DottedStrokeStyle"@),
        encode_utf8("Stripe"@) != encode_utf8("StripedStrokeStyle"@),
        encode_utf8("Stripe"@) != encode_utf8("WavyStrokeStyle"@),
        encode_utf8("Stripe"@) != encode_utf8("Condition"@),
        encode_utf8("Stripe"@) != encode_utf8("ConditionSet"@),
        encode_utf8("Stripe"@) != encode_utf8("NumberingList"@),
        encode_utf8("Stripe"@) != encode_utf8("TOCStyleEntry"@),
        encode_utf8("Stripe"@) != encode_utf8("TabStop"@),
        encode_utf8("Stripe"@) != encode_utf8("NestedStyle"@),
        encode_utf8("Stripe"@) != encode_utf8("BulletChar"@),
{
    reveal_strlit("Stripe");
    reveal_strlit("CharacterStyle");
    reveal_strlit("ParagraphStyle");
    reveal_strlit("ObjectStyle");
    reveal_strlit("CellStyle");
    reveal_strlit("TableStyle");
    reveal_strlit("TOCStyle");
    reveal_strlit("DashedStrokeStyle");
    reveal_strlit("DottedStrokeStyle");
    reveal_strlit("StripedStrokeStyle");
    reveal_strlit("WavyStrokeStyle");
    reveal_strlit("Condition");
    reveal_strlit("ConditionSet");
    reveal_strlit("NumberingList");
    reveal_strlit("TOCStyleEntry");
    reveal_strlit("TabStop");
    reveal_strlit("NestedStyle");
    reveal_strlit("BulletChar");
    law_names_differ("Stripe"@, "CharacterStyle"@);
    law_names_differ("Stripe"@, "ParagraphStyle"@);
    law_names_differ("Stripe"@, "ObjectStyle"@);
    law_names_differ("Stripe"@, "CellStyle"@);
    law_names_differ("Stripe"@, "TableStyle"@);
    law_names_differ("Stripe"@, "TOCStyle"@);
    law_names_differ("Stripe"@, "DashedStrokeStyle"@);
    law_names_differ("Stripe"@, "DottedStrokeStyle"@);
    law_names_differ("Stripe"@, "StripedStrokeStyle"@);
    law_names_differ("Stripe"@, "WavyStrokeStyle"@);
    law_names_differ("Stripe"@, "Condition"@);
    law_names_differ("Stripe"@, "ConditionSet"@);
    law_names_differ("Stripe"@, "NumberingList"@);
    law_names_differ("Stripe"@, "TOCStyleEntry"@);
    law_names_differ("Stripe"@, "TabStop"@);
    law_names_differ("Stripe"@, "NestedStyle"@);
    law_names_differ("Stripe"@, "BulletChar"@);
}

/// No other name is `BulletChar`.
proof fn lemma_bullet_name()
    ensures
        encode_utf8("BulletChar"@) != encode_utf8("CharacterStyle"@),
        encode_utf8("BulletChar"@) != encode_utf8("ParagraphStyle"@),
        encode_utf8("BulletChar"@) != encode_utf8("ObjectStyle"@),
        encode_utf8("BulletChar"@) != encode_utf8("CellStyle"@),
        encode_utf8("BulletChar"@) != encode_utf8("TableStyle"@),
        encode_utf8("BulletChar"@) != encode_utf8("TOCStyle"@),
        encode_utf8("BulletChar"@) != encode_utf8("DashedStrokeStyle"@),
        encode_utf8("BulletChar"@) != encode_utf8("DottedStrokeStyle"@),
        encode_utf8("BulletChar"@) != encode_utf8("StripedStrokeStyle"@),
        encode_utf8("BulletChar"@) != encode_utf8("WavyStrokeStyle"@),
        encode_utf8("BulletChar"@) != encode_utf8("Condition"@),
        encode_utf8("BulletChar"@) != encode_utf8("ConditionSet"@),
        encode_utf8("BulletChar"@) != encode_utf8("NumberingList"@),
        encode_utf8("BulletChar"@) != encode_utf8("TOCStyleEntry"@),
        encode_utf8("BulletChar"@) != encode_utf8("TabStop"@),
        encode_utf8("BulletChar"@) != encode_utf8("NestedStyle"@),
        encode_utf8("BulletChar"@) != encode_utf8("Stripe"@),
{
    reveal_strlit("BulletChar");
    reveal_strlit("CharacterStyle");
    reveal_strlit("ParagraphStyle");
    reveal_strlit("ObjectStyle");
    reveal_strlit("CellStyle");
    reveal_strlit("TableStyle");
    reveal_strlit("TOCStyle");
    reveal_strlit("DashedStrokeStyle");
    reveal_strlit("DottedStrokeStyle");
    reveal_strlit("StripedStrokeStyle");
    reveal_strlit("WavyStrokeStyle");
    reveal_strlit("Condition");
    reveal_strlit("ConditionSet");
    reveal_strlit("NumberingList");
    reveal_strlit("TOCStyleEntry");
    reveal_strlit("TabStop");
    reveal_strlit("NestedStyle");
    reveal_strlit("Stripe");
    law_names_differ("BulletChar"@, "CharacterStyle"@);
    law_names_differ("BulletChar"@, "ParagraphStyle"@);
    law_names_differ("BulletChar"@, "ObjectStyle"@);
    law_names_differ("BulletChar"@, "CellStyle"@);
    assert("BulletChar"@[0] != "TableStyle"@[0]);
    law_names_differ("BulletChar"@, "TableStyle"@);
    law_names_differ("BulletChar"@, "TOCStyle"@);
    law_names_differ("BulletChar"@, "DashedStrokeStyle"@);
    law_names_differ("BulletChar"@, "DottedStrokeStyle"@);
    law_names_differ("BulletChar"@, "StripedStrokeStyle"@);
    law_names_differ("BulletChar"@, "WavyStrokeStyle"@);
    law_names_differ("BulletChar"@, "Condition"@);
    law_names_differ("BulletChar"@, "ConditionSet"@);
    law_names_differ("BulletChar"@, "NumberingList"@);
    law_names_differ("BulletChar"@, "TOCStyleEntry"@);
    law_names_differ("BulletChar"@, "TabStop"@);
    law_names_differ("BulletChar"@, "NestedStyle"@);
    law_names_differ("BulletChar"@, "Stripe"@);
}

/// No other name is `TOCStyleEntry`.
proof fn lemma_entry_name()
    ensures
        encode_utf8("TOCStyleEntry"@) != encode_utf8("CharacterStyle"@),
        encode_utf8("TOCStyleEntry"@) != encode_utf8("ParagraphStyle"@),
        encode_utf8("TOCStyleEntry"@) != encode_utf8("ObjectStyle"@),
        encode_utf8("TOCStyleEntry"@) != encode_utf8("CellStyle"@),
        encode_utf8("TOCStyleEntry"@) != encode_utf8("TableStyle"@),
        encode_utf8("TOCStyleEntry"@) != encode_utf8("TOCStyle"@),
        encode_utf8("TOCStyleEntry"@) != encode_utf8("DashedStrokeStyle"@),
        encode_utf8("TOCStyleEntry"@) != encode_utf8("DottedStrokeStyle"@),
        encode_utf8("TOCStyleEntry"@) != encode_utf8("StripedStrokeStyle"@),
        encode_utf8("TOCStyleEntry"@) != encode_utf8("WavyStrokeStyle"@),
        encode_utf8("TOCStyleEntry"@) != encode_utf8("Condition"@),
        encode_utf8("TOCStyleEntry"@) != encode_utf8("ConditionSet"@),
        encode_utf8("TOCStyleEntry"@) != encode_utf8("NumberingList"@),
        encode_utf8("TOCStyleEntry"@) != encode_utf8("TabStop"@),
        encode_utf8("TOCStyleEntry"@) != encode_utf8("NestedStyle"@),
        encode_utf8("TOCStyleEntry"@) != encode_utf8("Stripe"@),
        encode_utf8("TOCStyleEntry"@) != encode_utf8("BulletChar"@),
{
    reveal_strlit("TOCStyleEntry");
    reveal_strlit("CharacterStyle");
    reveal_strlit("ParagraphStyle");
    reveal_strlit("ObjectStyle");
    reveal_strlit("CellStyle");
    reveal_strlit("TableStyle");
    reveal_strlit("TOCStyle");
    reveal_strlit("DashedStrokeStyle");
    reveal_strlit("DottedStrokeStyle");
    reveal_strlit("StripedStrokeStyle");
    reveal_strlit("WavyStrokeStyle");
    reveal_strlit("Condition");
    reveal_strlit("ConditionSet");
    reveal_strlit("NumberingList");
    reveal_strlit("TabStop");
    reveal_strlit("NestedStyle");
    reveal_strlit("Stripe");
    reveal_strlit("BulletChar");
    law_names_differ("TOCStyleEntry"@, "CharacterStyle"@);
    law_names_differ("TOCStyleEntry"@, "ParagraphStyle"@);
    law_names_differ("TOCStyleEntry"@, "ObjectStyle"@);
    law_names_differ("TOCStyleEntry"@, "CellStyle"@);
    law_names_differ("TOCStyleEntry"@, "TableStyle"@);
    law_names_differ("TOCStyleEntry"@, "TOCStyle"@);
    law_names_differ("TOCStyleEntry"@, "DashedStrokeStyle"@);
    law_names_differ("TOCStyleEntry"@, "DottedStrokeStyle"@);
    law_names_differ("TOCStyleEntry"@, "StripedStrokeStyle"@);
    law_names_differ("TOCStyleEntry"@, "WavyStrokeStyle"@);
    law_names_differ("TOCStyleEntry"@, "Condition"@);
    law_names_differ("TOCStyleEntry"@, "ConditionSet"@);
    assert("TOCStyleEntry"@[0] != "NumberingList"@[0]);
    law_names_differ("TOCStyleEntry"@, "NumberingList"@);
    law_names_differ("TOCStyleEntry"@, "TabStop"@);
    law_names_differ("TOCStyleEntry"@, "NestedStyle"@);
    law_names_differ("TOCStyleEntry"@, "Stripe"@);
    law_names_differ("TOCStyleEntry"@, "BulletChar"@);
}

/// No other style is called `ParagraphStyle`.
proof fn lemma_paragraph_name()
    ensures
        encode_utf8("ParagraphStyle"@) != encode_utf8("CharacterStyle"@),
        encode_utf8("ParagraphStyle"@) != encode_utf8("ObjectStyle"@),
        encode_utf8("ParagraphStyle"@) != encode_utf8("CellStyle"@),
        encode_utf8("ParagraphStyle"@) != encode_utf8("TableStyle"@),
        encode_utf8("ParagraphStyle"@) != encode_utf8("TOCStyle"@),
        encode_utf8("ParagraphStyle"@) != encode_utf8("DashedStrokeStyle"@),
        encode_utf8("ParagraphStyle"@) != encode_utf8("DottedStrokeStyle"@),
        encode_utf8("ParagraphStyle"@) != encode_utf8("StripedStrokeStyle"@),
        encode_utf8("ParagraphStyle"@) != encode_utf8("WavyStrokeStyle"@),
{
    reveal_strlit("ParagraphStyle");
    reveal_strlit("CharacterStyle");
    reveal_strlit("ObjectStyle");
    reveal_strlit("CellStyle");
    reveal_strlit("TableStyle");
    reveal_strlit("TOCStyle");
    reveal_strlit("DashedStrokeStyle");
    reveal_strlit("DottedStrokeStyle");
    reveal_strlit("StripedStrokeStyle");
    reveal_strlit("WavyStrokeStyle");
    assert("ParagraphStyle"@[0] != "CharacterStyle"@[0]);
    law_names_differ("ParagraphStyle"@, "CharacterStyle"@);
    law_names_differ("ParagraphStyle"@, "ObjectStyle"@);
    law_names_differ("ParagraphStyle"@, "CellStyle"@);
    law_names_differ("ParagraphStyle"@, "TableStyle"@);
    law_names_differ("ParagraphStyle"@, "TOCStyle"@);
    law_names_differ("ParagraphStyle"@, "DashedStrokeStyle"@);
    law_names_differ("ParagraphStyle"@, "DottedStrokeStyle"@);
    law_names_differ("ParagraphStyle"@, "StripedStrokeStyle"@);
    law_names_differ("ParagraphStyle"@, "WavyStrokeStyle"@);
}

/// No other name is `CharacterStyle`.
proof fn lemma_character_styles_name()
    ensures
        encode_utf8("CharacterStyle"@) != encode_utf8("ParagraphStyle"@),
        encode_utf8("CharacterStyle"@) != encode_utf8("ObjectStyle"@),
        encode_utf8("CharacterStyle"@) != encode_utf8("CellStyle"@),
        encode_utf8("CharacterStyle"@) != encode_utf8("TableStyle"@),
        encode_utf8("CharacterStyle"@) != encode_utf8("TOCStyle"@),
        encode_utf8("CharacterStyle"@) != encode_utf8("DashedStrokeStyle"@),
        encode_utf8("CharacterStyle"@) != encode_utf8("DottedStrokeStyle"@),
        encode_utf8("CharacterStyle"@) != encode_utf8("StripedStrokeStyle"@),
        encode_utf8("CharacterStyle"@) != encode_utf8("WavyStrokeStyle"@),
{
    reveal_strlit("CharacterStyle");
    reveal_strlit("ParagraphStyle");
    reveal_strlit("ObjectStyle");
    reveal_strlit("CellStyle");
    reveal_strlit("TableStyle");
    reveal_strlit("TOCStyle");
    reveal_strlit("DashedStrokeStyle");
    reveal_strlit("DottedStrokeStyle");
    reveal_strlit("StripedStrokeStyle");
    reveal_strlit("WavyStrokeStyle");
    assert("CharacterStyle"@[0] != "ParagraphStyle"@[0]);
    law_names_differ("CharacterStyle"@, "ParagraphStyle"@);
    law_names_differ("CharacterStyle"@, "ObjectStyle"@);
    law_names_differ("CharacterStyle"@, "CellStyle"@);
    law_names_differ("CharacterStyle"@, "TableStyle"@);
    law_names_differ("CharacterStyle"@, "TOCStyle"@);
    law_names_differ("CharacterStyle"@, "DashedStrokeStyle"@);
    law_names_differ("CharacterStyle"@, "DottedStrokeStyle"@);
    law_names_differ("CharacterStyle"@, "StripedStrokeStyle"@);
    law_names_differ("CharacterStyle"@, "WavyStrokeStyle"@);
}

/// A character style stands under its identifier, in the place of one that had it before; all
/// others stay.
pub proof fn law_character_styles_gather(st: ProgressView, tag: TagView, x: CharacterStyleDefView)
    requires
        tag.is("CharacterStyle"@),
        character_style_of(tag) == Some(x),
    ensures
        ({
            let before = st.out.character_styles;
            let after = after_event(st, EventView::Open(tag)).out.character_styles;
            &&& after.dom() == before.dom().insert(x.self_id)
            &&& after[x.self_id] == x
            &&& forall|other: Seq<char>|
                other != x.self_id && #[trigger] before.dom().contains(other) ==> after[other]
                    == before[other]
        }),
{
    lemma_character_styles_name();
    let after = after_event(st, EventView::Open(tag)).out.character_styles;
    assert(after == st.out.character_styles.insert(x.self_id, x));
}

/// No other name is `ParagraphStyle`.
proof fn lemma_paragraph_styles_name()
    ensures
        encode_utf8("ParagraphStyle"@) != encode_utf8("CharacterStyle"@),
        encode_utf8("ParagraphStyle"@) != encode_utf8("ObjectStyle"@),
        encode_utf8("ParagraphStyle"@) != encode_utf8("CellStyle"@),
        encode_utf8("ParagraphStyle"@) != encode_utf8("TableStyle"@),
        encode_utf8("ParagraphStyle"@) != encode_utf8("TOCStyle"@),
        encode_utf8("ParagraphStyle"@) != encode_utf8("DashedStrokeStyle"@),
        encode_utf8("ParagraphStyle"@) != encode_utf8("DottedStrokeStyle"@),
        encode_utf8("ParagraphStyle"@) != encode_utf8("StripedStrokeStyle"@),
        encode_utf8("ParagraphStyle"@) != encode_utf8("WavyStrokeStyle"@),
{
    reveal_strlit("ParagraphStyle");
    reveal_strlit("CharacterStyle");
    reveal_strlit("ObjectStyle");
    reveal_strlit("CellStyle");
    reveal_strlit("TableStyle");
    reveal_strlit("TOCStyle");
    reveal_strlit("DashedStrokeStyle");
    reveal_strlit("DottedStrokeStyle");
    reveal_strlit("StripedStrokeStyle");
    reveal_strlit("WavyStrokeStyle");
    assert("ParagraphStyle"@[0] != "CharacterStyle"@[0]);
    law_names_differ("ParagraphStyle"@, "CharacterStyle"@);
    law_names_differ("ParagraphStyle"@, "ObjectStyle"@);
    law_names_differ("ParagraphStyle"@, "CellStyle"@);
    law_names_differ("ParagraphStyle"@, "TableStyle"@);
    law_names_differ("ParagraphStyle"@, "TOCStyle"@);
    law_names_differ("ParagraphStyle"@, "DashedStrokeStyle"@);
    law_names_differ("ParagraphStyle"@, "DottedStrokeStyle"@);
    law_names_differ("ParagraphStyle"@, "StripedStrokeStyle"@);
    law_names_differ("ParagraphStyle"@, "WavyStrokeStyle"@);
}

/// A paragraph style stands under its identifier, in the place of one that had it before; all
/// others stay.
pub proof fn law_paragraph_styles_gather(st: ProgressView, tag: TagView, x: ParagraphStyleDefView)
    requires
        tag.is("ParagraphStyle"@),
        paragraph_style_of(tag) == Some(x),
    ensures
        ({
            let before = st.out.paragraph_styles;
            let after = after_event(st, EventView::Open(tag)).out.paragraph_styles;
            &&& after.dom() == before.dom().insert(x.self_id)
            &&& after[x.self_id] == x
            &&& forall|other: Seq<char>|
                other != x.self_id && #[trigger] before.dom().contains(other) ==> after[other]
                    == before[other]
        }),
{
    lemma_paragraph_styles_name();
    let after = after_event(st, EventView::Open(tag)).out.paragraph_styles;
    assert(after == st.out.paragraph_styles.insert(x.self_id, x));
}

/// No other name is `ObjectStyle`.
proof fn lemma_object_styles_name()
    ensures
        encode_utf8("ObjectStyle"@) != encode_utf8("CharacterStyle"@),
        encode_utf8("ObjectStyle"@) != encode_utf8("ParagraphStyle"@),
        encode_utf8("ObjectStyle"@) != encode_utf8("CellStyle"@),
        encode_utf8("ObjectStyle"@) != encode_utf8("TableStyle"@),
        encode_utf8("ObjectStyle"@) != encode_utf8("TOCStyle"@),
        encode_utf8("ObjectStyle"@) != encode_utf8("DashedStrokeStyle"@),
        encode_utf8("ObjectStyle"@) != encode_utf8("DottedStrokeStyle"@),
        encode_utf8("ObjectStyle"@) != encode_utf8("StripedStrokeStyle"@),
        encode_utf8("ObjectStyle"@) != encode_utf8("WavyStrokeStyle"@),
{
    reveal_strlit("ObjectStyle");
    reveal_strlit("CharacterStyle");
    reveal_strlit("ParagraphStyle");
    reveal_strlit("CellStyle");
    reveal_strlit("TableStyle");
    reveal_strlit("TOCStyle");
    reveal_strlit("DashedStrokeStyle");
    reveal_strlit("DottedStrokeStyle");
    reveal_strlit("StripedStrokeStyle");
    reveal_strlit("WavyStrokeStyle");
    law_names_differ("ObjectStyle"@, "CharacterStyle"@);
    law_names_differ("ObjectStyle"@, "ParagraphStyle"@);
    law_names_differ("ObjectStyle"@, "CellStyle"@);
    law_names_differ("ObjectStyle"@, "TableStyle"@);
    law_names_differ("ObjectStyle"@, "TOCStyle"@);
    law_names_differ("ObjectStyle"@, "DashedStrokeStyle"@);
    law_names_differ("ObjectStyle"@, "DottedStrokeStyle"@);
    law_names_differ("ObjectStyle"@, "StripedStrokeStyle"@);
    law_names_differ("ObjectStyle"@, "WavyStrokeStyle"@);
}

/// A object style stands under its identifier, in the place of one that had it before; all
/// others stay.
pub proof fn law_object_styles_gather(st: ProgressView, tag: TagView, x: ObjectStyleDefView)
    requires
        tag.is("ObjectStyle"@),
        object_style_of(tag) == Some(x),
    ensures
        ({
            let before = st.out.object_styles;
            let after = after_event(st, EventView::Open(tag)).out.object_styles;
            &&& after.dom() == before.dom().insert(x.self_id)
            &&& after[x.self_id] == x
            &&& forall|other: Seq<char>|
                other != x.self_id && #[trigger] before.dom().contains(other) ==> after[other]
                    == before[other]
        }),
{
    lemma_object_styles_name();
    let after = after_event(st, EventView::Open(tag)).out.object_styles;
    assert(after == st.out.object_styles.insert(x.self_id, x));
}

/// No other name is `CellStyle`.
proof fn lemma_cell_styles_name()
    ensures
        encode_utf8("CellStyle"@) != encode_utf8("CharacterStyle"@),
        encode_utf8("CellStyle"@) != encode_utf8("ParagraphStyle"@),
        encode_utf8("CellStyle"@) != encode_utf8("ObjectStyle"@),
        encode_utf8("CellStyle"@) != encode_utf8("TableStyle"@),
        encode_utf8("CellStyle"@) != encode_utf8("TOCStyle"@),
        encode_utf8("CellStyle"@) != encode_utf8("DashedStrokeStyle"@),
        encode_utf8("CellStyle"@) != encode_utf8("DottedStrokeStyle"@),
        encode_utf8("CellStyle"@) != encode_utf8("StripedStrokeStyle"@),
        encode_utf8("CellStyle"@) != encode_utf8("WavyStrokeStyle"@),
{
    reveal_strlit("CellStyle");
    reveal_strlit("CharacterStyle");
    reveal_strlit("ParagraphStyle");
    reveal_strlit("ObjectStyle");
    reveal_strlit("TableStyle");
    reveal_strlit("TOCStyle");
    reveal_strlit("DashedStrokeStyle");
    reveal_strlit("DottedStrokeStyle");
    reveal_strlit("StripedStrokeStyle");
    reveal_strlit("WavyStrokeStyle");
    law_names_differ("CellStyle"@, "CharacterStyle"@);
    law_names_differ("CellStyle"@, "ParagraphStyle"@);
    law_names_differ("CellStyle"@, "ObjectStyle"@);
    law_names_differ("CellStyle"@, "TableStyle"@);
    law_names_differ("CellStyle"@, "TOCStyle"@);
    law_names_differ("CellStyle"@, "DashedStrokeStyle"@);
    law_names_differ("CellStyle"@, "DottedStrokeStyle"@);
    law_names_differ("CellStyle"@, "StripedStrokeStyle"@);
    law_names_differ("CellStyle"@, "WavyStrokeStyle"@);
}

/// A cell style stands under its identifier, in the place of one that had it before; all
/// others stay.
pub proof fn law_cell_styles_gather(st: ProgressView, tag: TagView, x: CellStyleDefView)
    requires
        tag.is("CellStyle"@),
        cell_style_of(tag) == Some(x),
    ensures
        ({
            let before = st.out.cell_styles;
            let after = after_event(st, EventView::Open(tag)).out.cell_styles;
            &&& after.dom() == before.dom().insert(x.self_id)
            &&& after[x.self_id] == x
            &&& forall|other: Seq<char>|
                other != x.self_id && #[trigger] before.dom().contains(other) ==> after[other]
                    == before[other]
        }),
{
    lemma_cell_styles_name();
    let after = after_event(st, EventView::Open(tag)).out.cell_styles;
    assert(after == st.out.cell_styles.insert(x.self_id, x));
}

/// No other name is `TableStyle`.
proof fn lemma_table_styles_name()
    ensures
        encode_utf8("TableStyle"@) != encode_utf8("CharacterStyle"@),
        encode_utf8("TableStyle"@) != encode_utf8("ParagraphStyle"@),
        encode_utf8("TableStyle"@) != encode_utf8("ObjectStyle"@),
        encode_utf8("TableStyle"@) != encode_utf8("CellStyle"@),
        encode_utf8("TableStyle"@) != encode_utf8("TOCStyle"@),
        encode_utf8("TableStyle"@) != encode_utf8("DashedStrokeStyle"@),
        encode_utf8("TableStyle"@) != encode_utf8("DottedStrokeStyle"@),
        encode_utf8("TableStyle"@) != encode_utf8("StripedStrokeStyle"@),
        encode_utf8("TableStyle"@) != encode_utf8("WavyStrokeStyle"@),
{
    reveal_strlit("TableStyle");
    reveal_strlit("CharacterStyle");
    reveal_strlit("ParagraphStyle");
    reveal_strlit("ObjectStyle");
    reveal_strlit("CellStyle");
    reveal_strlit("TOCStyle");
    reveal_strlit("DashedStrokeStyle");
    reveal_strlit("DottedStrokeStyle");
    reveal_strlit("StripedStrokeStyle");
    reveal_strlit("WavyStrokeStyle");
    law_names_differ("TableStyle"@, "CharacterStyle"@);
    law_names_differ("TableStyle"@, "ParagraphStyle"@);
    law_names_differ("TableStyle"@, "ObjectStyle"@);
    law_names_differ("TableStyle"@, "CellStyle"@);
    law_names_differ("TableStyle"@, "TOCStyle"@);
    law_names_differ("TableStyle"@, "DashedStrokeStyle"@);
    law_names_differ("TableStyle"@, "DottedStrokeStyle"@);
    law_names_differ("TableStyle"@, "StripedStrokeStyle"@);
    law_names_differ("TableStyle"@, "WavyStrokeStyle"@);
}

/// A table style stands under its identifier, in the place of one that had it before; all
/// others stay.
pub proof fn law_table_styles_gather(st: ProgressView, tag: TagView, x: TableStyleDefView)
    requires
        tag.is("TableStyle"@),
        table_style_of(tag) == Some(x),
    ensures
        ({
            let before = st.out.table_styles;
            let after = after_event(st, EventView::Open(tag)).out.table_styles;
            &&& after.dom() == before.dom().insert(x.self_id)
            &&& after[x.self_id] == x
            &&& forall|other: Seq<char>|
                other != x.self_id && #[trigger] before.dom().contains(other) ==> after[other]
                    == before[other]
        }),
{
    lemma_table_styles_name();
    let after = after_event(st, EventView::Open(tag)).out.table_styles;
    assert(after == st.out.table_styles.insert(x.self_id, x));
}

/// No other name is `TOCStyle`.
proof fn lemma_toc_styles_name()
    ensures
        encode_utf8("TOCStyle"@) != encode_utf8("CharacterStyle"@),
        encode_utf8("TOCStyle"@) != encode_utf8("ParagraphStyle"@),
        encode_utf8("TOCStyle"@) != encode_utf8("ObjectStyle"@),
        encode_utf8("TOCStyle"@) != encode_utf8("CellStyle"@),
        encode_utf8("TOCStyle"@) != encode_utf8("TableStyle"@),
        encode_utf8("TOCStyle"@) != encode_utf8("DashedStrokeStyle"@),
        encode_utf8("TOCStyle"@) != encode_utf8("DottedStrokeStyle"@),
        encode_utf8("TOCStyle"@) != encode_utf8("StripedStrokeStyle"@),
        encode_utf8("TOCStyle"@) != encode_utf8("WavyStrokeStyle"@),
{
    reveal_strlit("TOCStyle");
    reveal_strlit("CharacterStyle");
    reveal_strlit("ParagraphStyle");
    reveal_strlit("ObjectStyle");
    reveal_strlit("CellStyle");
    reveal_strlit("TableStyle");
    reveal_strlit("DashedStrokeStyle");
    reveal_strlit("DottedStrokeStyle");
    reveal_strlit("StripedStrokeStyle");
    reveal_strlit("WavyStrokeStyle");
    law_names_differ("TOCStyle"@, "CharacterStyle"@);
    law_names_differ("TOCStyle"@, "ParagraphStyle"@);
    law_names_differ("TOCStyle"@, "ObjectStyle"@);
    law_names_differ("TOCStyle"@, "CellStyle"@);
    law_names_differ("TOCStyle"@, "TableStyle"@);
    law_names_differ("TOCStyle"@, "DashedStrokeStyle"@);
    law_names_differ("TOCStyle"@, "DottedStrokeStyle"@);
    law_names_differ("TOCStyle"@, "StripedStrokeStyle"@);
    law_names_differ("TOCStyle"@, "WavyStrokeStyle"@);
}

/// A style of a table of contents stands under its identifier, in the place of one
/// that had it before; all others stay.
pub proof fn law_toc_styles_gather(st: ProgressView, tag: TagView, x: TOCStyleDefView)
    requires
        tag.is("TOCStyle"@),
        toc_style_of(tag) == Some(x),
    ensures
        ({
            let before = st.out.toc_styles;
            let after = after_event(st, EventView::Open(tag)).out.toc_styles;
            &&& after.dom() == before.dom().insert(x.self_id)
            &&& after[x.self_id] == x
            &&& forall|other: Seq<char>|
                other != x.self_id && #[trigger] before.dom().contains(other) ==> after[other]
                    == before[other]
        }),
{
    lemma_toc_styles_name();
    let after = after_event(st, EventView::Open(tag)).out.toc_styles;
    assert(after == st.out.toc_styles.insert(x.self_id, x));
}

/// No other name is `Condition`.
proof fn lemma_conditions_name()
    ensures
        encode_utf8("Condition"@) != encode_utf8("CharacterStyle"@),
        encode_utf8("Condition"@) != encode_utf8("ParagraphStyle"@),
        encode_utf8("Condition"@) != encode_utf8("ObjectStyle"@),
        encode_utf8("Condition"@) != encode_utf8("CellStyle"@),
        encode_utf8("Condition"@) != encode_utf8("TableStyle"@),
        encode_utf8("Condition"@) != encode_utf8("TOCStyle"@),
        encode_utf8("Condition"@) != encode_utf8("DashedStrokeStyle"@),
        encode_utf8("Condition"@) != encode_utf8("DottedStrokeStyle"@),
        encode_utf8("Condition"@) != encode_utf8("StripedStrokeStyle"@),
        encode_utf8("Condition"@) != encode_utf8("WavyStrokeStyle"@),
        encode_utf8("Condition"@) != encode_utf8("ConditionSet"@),
        encode_utf8("Condition"@) != encode_utf8("NumberingList"@),
        encode_utf8("Condition"@) != encode_utf8("TOCStyleEntry"@),
        encode_utf8("Condition"@) != encode_utf8("TabStop"@),
        encode_utf8("Condition"@) != encode_utf8("NestedStyle"@),
        encode_utf8("Condition"@) != encode_utf8("Stripe"@),
        encode_utf8("Condition"@) != encode_utf8("BulletChar"@),
{
    reveal_strlit("Condition");
    reveal_strlit("CharacterStyle");
    reveal_strlit("ParagraphStyle");
    reveal_strlit("ObjectStyle");
    reveal_strlit("CellStyle");
    reveal_strlit("TableStyle");
    reveal_strlit("TOCStyle");
    reveal_strlit("DashedStrokeStyle");
    reveal_strlit("DottedStrokeStyle");
    reveal_strlit("StripedStrokeStyle");
    reveal_strlit("WavyStrokeStyle");
    reveal_strlit("ConditionSet");
    reveal_strlit("NumberingList");
    reveal_strlit("TOCStyleEntry");
    reveal_strlit("TabStop");
    reveal_strlit("NestedStyle");
    reveal_strlit("Stripe");
    reveal_strlit("BulletChar");
    law_names_differ("Condition"@, "CharacterStyle"@);
    law_names_differ("Condition"@, "ParagraphStyle"@);
    law_names_differ("Condition"@, "ObjectStyle"@);
    assert("Condition"@[1] != "CellStyle"@[1]);
    law_names_differ("Condition"@, "CellStyle"@);
    law_names_differ("Condition"@, "TableStyle"@);
    law_names_differ("Condition"@, "TOCStyle"@);
    law_names_differ("Condition"@, "DashedStrokeStyle"@);
    law_names_differ("Condition"@, "DottedStrokeStyle"@);
    law_names_differ("Condition"@, "StripedStrokeStyle"@);
    law_names_differ("Condition"@, "WavyStrokeStyle"@);
    law_names_differ("Condition"@, "ConditionSet"@);
    law_names_differ("Condition"@, "NumberingList"@);
    law_names_differ("Condition"@, "TOCStyleEntry"@);
    law_names_differ("Condition"@, "TabStop"@);
    law_names_differ("Condition"@, "NestedStyle"@);
    law_names_differ("Condition"@, "Stripe"@);
    law_names_differ("Condition"@, "BulletChar"@);
}

/// A condition stands under its identifier, in the place of one that had it before; all
/// others stay.
pub proof fn law_conditions_gather(st: ProgressView, tag: TagView, x: ConditionDefView)
    requires
        tag.is("Condition"@),
        condition_of(tag) == Some(x),
    ensures
        ({
            let before = st.out.conditions;
            let after = after_event(st, EventView::Open(tag)).out.conditions;
            &&& after.dom() == before.dom().insert(x.self_id)
            &&& after[x.self_id] == x
            &&& forall|other: Seq<char>|
                other != x.self_id && #[trigger] before.dom().contains(other) ==> after[other]
                    == before[other]
        }),
{
    lemma_conditions_name();
    let after = after_event(st, EventView::Open(tag)).out.conditions;
    assert(after == st.out.conditions.insert(x.self_id, x));
}

/// No other name is `ConditionSet`.
proof fn lemma_condition_sets_name()
    ensures
        encode_utf8("ConditionSet"@) != encode_utf8("CharacterStyle"@),
        encode_utf8("ConditionSet"@) != encode_utf8("ParagraphStyle"@),
        encode_utf8("ConditionSet"@) != encode_utf8("ObjectStyle"@),
        encode_utf8("ConditionSet"@) != encode_utf8("CellStyle"@),
        encode_utf8("ConditionSet"@) != encode_utf8("TableStyle"@),
        encode_utf8("ConditionSet"@) != encode_utf8("TOCStyle"@),
        encode_utf8("ConditionSet"@) != encode_utf8("DashedStrokeStyle"@),
        encode_utf8("ConditionSet"@) != encode_utf8("DottedStrokeStyle"@),
        encode_utf8("ConditionSet"@) != encode_utf8("StripedStrokeStyle"@),
        encode_utf8("ConditionSet"@) != encode_utf8("WavyStrokeStyle"@),
        encode_utf8("ConditionSet"@) != encode_utf8("Condition"@),
        encode_utf8("ConditionSet"@) != encode_utf8("NumberingList"@),
        encode_utf8("ConditionSet"@) != encode_utf8("TOCStyleEntry"@),
        encode_utf8("ConditionSet"@) != encode_utf8("TabStop"@),
        encode_utf8("ConditionSet"@) != encode_utf8("NestedStyle"@),
        encode_utf8("ConditionSet"@) != encode_utf8("Stripe"@),
        encode_utf8("ConditionSet"@) != encode_utf8("BulletChar"@),
{
    reveal_strlit("ConditionSet");
    reveal_strlit("CharacterStyle");
    reveal_strlit("ParagraphStyle");
    reveal_strlit("ObjectStyle");
    reveal_strlit("CellStyle");
    reveal_strlit("TableStyle");
    reveal_strlit("TOCStyle");
    reveal_strlit("DashedStrokeStyle");
    reveal_strlit("DottedStrokeStyle");
    reveal_strlit("StripedStrokeStyle");
    reveal_strlit("WavyStrokeStyle");
    reveal_strlit("Condition");
    reveal_strlit("NumberingList");
    reveal_strlit("TOCStyleEntry");
    reveal_strlit("TabStop");
    reveal_strlit("NestedStyle");
    reveal_strlit("Stripe");
    reveal_strlit("BulletChar");
    law_names_differ("ConditionSet"@, "CharacterStyle"@);
    law_names_differ("ConditionSet"@, "ParagraphStyle"@);
    law_names_differ("ConditionSet"@, "ObjectStyle"@);
    law_names_differ("ConditionSet"@, "CellStyle"@);
    law_names_differ("ConditionSet"@, "TableStyle"@);
    law_names_differ("ConditionSet"@, "TOCStyle"@);
    law_names_differ("ConditionSet"@, "DashedStrokeStyle"@);
    law_names_differ("ConditionSet"@, "DottedStrokeStyle"@);
    law_names_differ("ConditionSet"@, "StripedStrokeStyle"@);
    law_names_differ("ConditionSet"@, "WavyStrokeStyle"@);
    law_names_differ("ConditionSet"@, "Condition"@);
    law_names_differ("ConditionSet"@, "NumberingList"@);
    law_names_differ("ConditionSet"@, "TOCStyleEntry"@);
    law_names_differ("ConditionSet"@, "TabStop"@);
    law_names_differ("ConditionSet"@, "NestedStyle"@);
    law_names_differ("ConditionSet"@, "Stripe"@);
    law_names_differ("ConditionSet"@, "BulletChar"@);
}

/// A set of conditions stands under its identifier, in the place of one that had it before; all
/// others stay.
pub proof fn law_condition_sets_gather(st: ProgressView, tag: TagView, x: ConditionSetDefView)
    requires
        tag.is("ConditionSet"@),
        condition_set_of(tag) == Some(x),
    ensures
        ({
            let before = st.out.condition_sets;
            let after = after_event(st, EventView::Open(tag)).out.condition_sets;
            &&& after.dom() == before.dom().insert(x.self_id)
            &&& after[x.self_id] == x
            &&& forall|other: Seq<char>|
                other != x.self_id && #[trigger] before.dom().contains(other) ==> after[other]
                    == before[other]
        }),
{
    lemma_condition_sets_name();
    let after = after_event(st, EventView::Open(tag)).out.condition_sets;
    assert(after == st.out.condition_sets.insert(x.self_id, x));
}

/// No other name is `NumberingList`.
proof fn lemma_numbering_lists_name()
    ensures
        encode_utf8("NumberingList"@) != encode_utf8("CharacterStyle"@),
        encode_utf8("NumberingList"@) != encode_utf8("ParagraphStyle"@),
        encode_utf8("NumberingList"@) != encode_utf8("ObjectStyle"@),
        encode_utf8("NumberingList"@) != encode_utf8("CellStyle"@),
        encode_utf8("NumberingList"@) != encode_utf8("TableStyle"@),
        encode_utf8("NumberingList"@) != encode_utf8("TOCStyle"@),
        encode_utf8("NumberingList"@) != encode_utf8("DashedStrokeStyle"@),
        encode_utf8("NumberingList"@) != encode_utf8("DottedStrokeStyle"@),
        encode_utf8("NumberingList"@) != encode_utf8("StripedStrokeStyle"@),
        encode_utf8("NumberingList"@) != encode_utf8("WavyStrokeStyle"@),
        encode_utf8("NumberingList"@) != encode_utf8("Condition"@),
        encode_utf8("NumberingList"@) != encode_utf8("ConditionSet"@),
        encode_utf8("NumberingList"@) != encode_utf8("TOCStyleEntry"@),
        encode_utf8("NumberingList"@) != encode_utf8("TabStop"@),
        encode_utf8("NumberingList"@) != encode_utf8("NestedStyle"@),
        encode_utf8("NumberingList"@) != encode_utf8("Stripe"@),
        encode_utf8("NumberingList"@) != encode_utf8("BulletChar"@),
{
    reveal_strlit("NumberingList");
    reveal_strlit("CharacterStyle");
    reveal_strlit("ParagraphStyle");
    reveal_strlit("ObjectStyle");
    reveal_strlit("CellStyle");
    reveal_strlit("TableStyle");
    reveal_strlit("TOCStyle");
    reveal_strlit("DashedStrokeStyle");
    reveal_strlit("DottedStrokeStyle");
    reveal_strlit("StripedStrokeStyle");
    reveal_strlit("WavyStrokeStyle");
    reveal_strlit("Condition");
    reveal_strlit("ConditionSet");
    reveal_strlit("TOCStyleEntry");
    reveal_strlit("TabStop");
    reveal_strlit("NestedStyle");
    reveal_strlit("Stripe");
    reveal_strlit("BulletChar");
    law_names_differ("NumberingList"@, "CharacterStyle"@);
    law_names_differ("NumberingList"@, "ParagraphStyle"@);
    law_names_differ("NumberingList"@, "ObjectStyle"@);
    law_names_differ("NumberingList"@, "CellStyle"@);
    law_names_differ("NumberingList"@, "TableStyle"@);
    law_names_differ("NumberingList"@, "TOCStyle"@);
    law_names_differ("NumberingList"@, "DashedStrokeStyle"@);
    law_names_differ("NumberingList"@, "DottedStrokeStyle"@);
    law_names_differ("NumberingList"@, "StripedStrokeStyle"@);
    law_names_differ("NumberingList"@, "WavyStrokeStyle"@);
    law_names_differ("NumberingList"@, "Condition"@);
    law_names_differ("NumberingList"@, "ConditionSet"@);
    assert("NumberingList"@[0] != "TOCStyleEntry"@[0]);
    law_names_differ("NumberingList"@, "TOCStyleEntry"@);
    law_names_differ("NumberingList"@, "TabStop"@);
    law_names_differ("NumberingList"@, "NestedStyle"@);
    law_names_differ("NumberingList"@, "Stripe"@);
    law_names_differ("NumberingList"@, "BulletChar"@);
}

/// A numbering list stands under its identifier, in the place of one that had it before; all
/// others stay.
pub proof fn law_numbering_lists_gather(st: ProgressView, tag: TagView, x: NumberingListDefView)
    requires
        tag.is("NumberingList"@),
        numbering_list_of(tag) == Some(x),
    ensures
        ({
            let before = st.out.numbering_lists;
            let after = after_event(st, EventView::Open(tag)).out.numbering_lists;
            &&& after.dom() == before.dom().insert(x.self_id)
            &&& after[x.self_id] == x
            &&& forall|other: Seq<char>|
                other != x.self_id && #[trigger] before.dom().contains(other) ==> after[other]
                    == before[other]
        }),
{
    lemma_numbering_lists_name();
    let after = after_event(st, EventView::Open(tag)).out.numbering_lists;
    assert(after == st.out.numbering_lists.insert(x.self_id, x));
}

/// A tab stop inside a paragraph style comes behind those it had, all of which stay;
/// nothing else of the style changes, and nothing of any other.
pub proof fn law_tab_stops_gather(st: ProgressView, id: Seq<char>, tag: TagView)
    requires
        st.paragraph == Some(id),
        st.out.paragraph_styles.dom().contains(id),
        tag.is("TabStop"@),
        tag.empty,
        tab_stop_of(tag) is Some,
    ensures
        ({
            let after = after_event(st, EventView::Open(tag)).out;
            let x = st.out.paragraph_styles[id];
            let y = after.paragraph_styles[id];
            &&& after.paragraph_styles.dom() == st.out.paragraph_styles.dom()
            &&& forall|other: Seq<char>|
                other != id && #[trigger] st.out.paragraph_styles.dom().contains(other)
                    ==> after.paragraph_styles[other] == st.out.paragraph_styles[other]
            &&& y.tab_list.len() == x.tab_list.len() + 1
            &&& y.tab_list.take(x.tab_list.len() as int) == x.tab_list
            &&& Some(y.tab_list.last()) == tab_stop_of(tag)
            &&& y == (ParagraphStyleDefView { tab_list: y.tab_list, ..x })
            &&& after.character_styles == st.out.character_styles
            &&& after.object_styles == st.out.object_styles
            &&& after.cell_styles == st.out.cell_styles
            &&& after.table_styles == st.out.table_styles
            &&& after.toc_styles == st.out.toc_styles
            &&& after.stroke_styles == st.out.stroke_styles
            &&& after.conditions == st.out.conditions
            &&& after.condition_sets == st.out.condition_sets
            &&& after.numbering_lists == st.out.numbering_lists
        }),
{
    lemma_stop_name();
    let after = after_event(st, EventView::Open(tag)).out;
    let x = st.out.paragraph_styles[id].tab_list;
    assert(x.push(tab_stop_of(tag)->0).take(x.len() as int) =~= x);
    assert(after.paragraph_styles.dom() =~= st.out.paragraph_styles.dom());
}

/// A nested style inside a paragraph style comes behind those it had, all of which
/// stay; nothing else of the style changes, and nothing of any other.
pub proof fn law_nested_styles_gather(st: ProgressView, id: Seq<char>, tag: TagView)
    requires
        st.paragraph == Some(id),
        st.out.paragraph_styles.dom().contains(id),
        tag.is("NestedStyle"@),
        tag.empty,
        nested_style_of(tag) is Some,
    ensures
        ({
            let after = after_event(st, EventView::Open(tag)).out;
            let x = st.out.paragraph_styles[id];
            let y = after.paragraph_styles[id];
            &&& after.paragraph_styles.dom() == st.out.paragraph_styles.dom()
            &&& forall|other: Seq<char>|
                other != id && #[trigger] st.out.paragraph_styles.dom().contains(other)
                    ==> after.paragraph_styles[other] == st.out.paragraph_styles[other]
            &&& y.nested_styles.len() == x.nested_styles.len() + 1
            &&& y.nested_styles.take(x.nested_styles.len() as int) == x.nested_styles
            &&& Some(y.nested_styles.last()) == nested_style_of(tag)
            &&& y == (ParagraphStyleDefView { nested_styles: y.nested_styles, ..x })
            &&& after.character_styles == st.out.character_styles
            &&& after.object_styles == st.out.object_styles
            &&& after.cell_styles == st.out.cell_styles
            &&& after.table_styles == st.out.table_styles
            &&& after.toc_styles == st.out.toc_styles
            &&& after.stroke_styles == st.out.stroke_styles
            &&& after.conditions == st.out.conditions
            &&& after.condition_sets == st.out.condition_sets
            &&& after.numbering_lists == st.out.numbering_lists
        }),
{
    lemma_nested_name();
    let after = after_event(st, EventView::Open(tag)).out;
    let x = st.out.paragraph_styles[id].nested_styles;
    assert(x.push(nested_style_of(tag)->0).take(x.len() as int) =~= x);
    assert(after.paragraph_styles.dom() =~= st.out.paragraph_styles.dom());
}

/// A stripe inside a stroke style comes behind those it had, all of which stay;
/// nothing else of the style changes, and nothing of any other.
pub proof fn law_stripes_gather(st: ProgressView, id: Seq<char>, tag: TagView)
    requires
        st.stroke == Some(id),
        st.out.stroke_styles.dom().contains(id),
        tag.is("Stripe"@),
        tag.empty,
        stripe_of(tag) is Some,
    ensures
        ({
            let after = after_event(st, EventView::Open(tag)).out;
            let x = st.out.stroke_styles[id];
            let y = after.stroke_styles[id];
            &&& after.stroke_styles.dom() == st.out.stroke_styles.dom()
            &&& forall|other: Seq<char>|
                other != id && #[trigger] st.out.stroke_styles.dom().contains(other)
                    ==> after.stroke_styles[other] == st.out.stroke_styles[other]
            &&& y.stripes.len() == x.stripes.len() + 1
            &&& y.stripes.take(x.stripes.len() as int) == x.stripes
            &&& Some(y.stripes.last()) == stripe_of(tag)
            &&& y == (StrokeStyleDefView { stripes: y.stripes, ..x })
            &&& after.character_styles == st.out.character_styles
            &&& after.paragraph_styles == st.out.paragraph_styles
            &&& after.object_styles == st.out.object_styles
            &&& after.cell_styles == st.out.cell_styles
            &&& after.table_styles == st.out.table_styles
            &&& after.toc_styles == st.out.toc_styles
            &&& after.conditions == st.out.conditions
            &&& after.condition_sets == st.out.condition_sets
            &&& after.numbering_lists == st.out.numbering_lists
        }),
{
    lemma_stripe_name();
    let after = after_event(st, EventView::Open(tag)).out;
    let x = st.out.stroke_styles[id].stripes;
    assert(x.push(stripe_of(tag)->0).take(x.len() as int) =~= x);
    assert(after.stroke_styles.dom() =~= st.out.stroke_styles.dom());
}

/// An entry inside the style of a table of contents comes behind those it had, all
/// of which stay; nothing else of the style changes, and nothing of any other.
pub proof fn law_contents_entries_gather(st: ProgressView, id: Seq<char>, tag: TagView)
    requires
        st.toc == Some(id),
        st.out.toc_styles.dom().contains(id),
        tag.is("TOCStyleEntry"@),
        Some(toc_entry_of(tag)) is Some,
    ensures
        ({
            let after = after_event(st, EventView::Open(tag)).out;
            let x = st.out.toc_styles[id];
            let y = after.toc_styles[id];
            &&& after.toc_styles.dom() == st.out.toc_styles.dom()
            &&& forall|other: Seq<char>|
                other != id && #[trigger] st.out.toc_styles.dom().contains(other)
                    ==> after.toc_styles[other] == st.out.toc_styles[other]
            &&& y.entries.len() == x.entries.len() + 1
            &&& y.entries.take(x.entries.len() as int) == x.entries
            &&& Some(y.entries.last()) == Some(toc_entry_of(tag))
            &&& y == (TOCStyleDefView { entries: y.entries, ..x })
            &&& after.character_styles == st.out.character_styles
            &&& after.paragraph_styles == st.out.paragraph_styles
            &&& after.object_styles == st.out.object_styles
            &&& after.cell_styles == st.out.cell_styles
            &&& after.table_styles == st.out.table_styles
            &&& after.stroke_styles == st.out.stroke_styles
            &&& after.conditions == st.out.conditions
            &&& after.condition_sets == st.out.condition_sets
            &&& after.numbering_lists == st.out.numbering_lists
        }),
{
    lemma_entry_name();
    let after = after_event(st, EventView::Open(tag)).out;
    let x = st.out.toc_styles[id].entries;
    assert(x.push(Some(toc_entry_of(tag))->0).take(x.len() as int) =~= x);
    assert(after.toc_styles.dom() =~= st.out.toc_styles.dom());
}

/// The paragraph style that is open behind the first `n` events.
pub open spec fn open_style(events: Seq<EventView>, n: nat) -> Option<Seq<char>>
    decreases n,
{
    if n == 0 {
        None
    } else {
        let before = open_style(events, (n - 1) as nat);
        match events[n - 1] {
            EventView::Open(tag) => if tag.is("ParagraphStyle"@) && !tag.empty && tag.text(
                "Self"@,
            ) is Some {
                tag.text("Self"@)
            } else {
                before
            },
            EventView::End(name) => if name == encode_utf8("ParagraphStyle"@) {
                None
            } else {
                before
            },
            _ => before,
        }
    }
}

/// Whether the tag opens the paragraph style `id`.
pub open spec fn opens_style(tag: TagView, id: Seq<char>) -> bool {
    tag.is("ParagraphStyle"@) && tag.text("Self"@) == Some(id)
}

/// The tab stops that the tags inside the paragraph style `id` state, in order,
/// since it was opened last.
pub open spec fn stops_inside(events: Seq<EventView>, n: nat, id: Seq<char>) -> Seq<TabStopView>
    decreases n,
{
    if n == 0 {
        Seq::empty()
    } else {
        let before = stops_inside(events, (n - 1) as nat, id);
        match events[n - 1] {
            EventView::Open(tag) => if opens_style(tag, id) {
                Seq::empty()
            } else {
                match tab_stop_of(tag) {
                    Some(stop) if tag.is("TabStop"@) && tag.empty && open_style(
                        events,
                        (n - 1) as nat,
                    ) == Some(id) => before.push(stop),
                    _ => before,
                }
            },
            _ => before,
        }
    }
}

/// The nested styles that the tags inside the paragraph style `id` state, in order,
/// since it was opened last.
pub open spec fn nested_inside(events: Seq<EventView>, n: nat, id: Seq<char>) -> Seq<
    NestedStyleView,
>
    decreases n,
{
    if n == 0 {
        Seq::empty()
    } else {
        let before = nested_inside(events, (n - 1) as nat, id);
        match events[n - 1] {
            EventView::Open(tag) => if opens_style(tag, id) {
                Seq::empty()
            } else {
                match nested_style_of(tag) {
                    Some(nested) if tag.is("NestedStyle"@) && tag.empty && open_style(
                        events,
                        (n - 1) as nat,
                    ) == Some(id) => before.push(nested),
                    _ => before,
                }
            },
            _ => before,
        }
    }
}

/// The same tab stops and nested styles of the style `id`, where it is there.
spec fn same_lists(before: ProgressView, after: ProgressView, id: Seq<char>) -> bool {
    let a = before.out.paragraph_styles;
    let b = after.out.paragraph_styles;
    &&& a.dom().contains(id) == b.dom().contains(id)
    &&& a.dom().contains(id) ==> b[id].tab_list == a[id].tab_list && b[id].nested_styles
        == a[id].nested_styles
}

proof fn lemma_style_starts_lists(st: ProgressView, tag: TagView, id: Seq<char>)
    requires
        is_style(tag.name),
    ensures
        ({
            let after = after_style(st, tag);
            &&& after.paragraph == if tag.is("ParagraphStyle"@) && !tag.empty && tag.text(
                "Self"@,
            ) is Some {
                tag.text("Self"@)
            } else {
                st.paragraph
            }
            &&& if opens_style(tag, id) {
                &&& after.out.paragraph_styles.dom().contains(id)
                &&& after.out.paragraph_styles[id].tab_list.len() == 0
                &&& after.out.paragraph_styles[id].nested_styles.len() == 0
            } else {
                same_lists(st, after, id)
            }
        }),
{
    lemma_paragraph_name();
    reveal(paragraph_style_of);
}

proof fn lemma_property_keeps_lists(
    st: ProgressView,
    style: CurrentStyle,
    property: CurrentProperty,
    text: Seq<char>,
    id: Seq<char>,
)
    ensures
        same_lists(st, ProgressView { out: after_property(st, style, property, text), ..st }, id),
{
}

proof fn lemma_child_adds_to_lists(st: ProgressView, tag: TagView, id: Seq<char>)
    ensures
        ({
            let after = ProgressView { out: after_child(st, tag), ..st };
            let a = st.out.paragraph_styles;
            let b = after.out.paragraph_styles;
            &&& b.dom().contains(id) == a.dom().contains(id)
            &&& a.dom().contains(id) ==> b[id].tab_list == match tab_stop_of(tag) {
                Some(stop) if tag.is("TabStop"@) && st.paragraph == Some(id) => {
                    a[id].tab_list.push(stop)
                },
                _ => a[id].tab_list,
            }
            &&& a.dom().contains(id) ==> b[id].nested_styles == match nested_style_of(tag) {
                Some(nested) if tag.is("NestedStyle"@) && st.paragraph == Some(id) => {
                    a[id].nested_styles.push(nested)
                },
                _ => a[id].nested_styles,
            }
        }),
{
    lemma_stop_name();
    lemma_nested_name();
}

proof fn lemma_part_adds_to_lists(st: ProgressView, tag: TagView, id: Seq<char>)
    requires
        !is_style(tag.name),
    ensures
        ({
            let after = after_part(st, tag);
            let a = st.out.paragraph_styles;
            let b = after.out.paragraph_styles;
            &&& after.paragraph == st.paragraph
            &&& b.dom().contains(id) == a.dom().contains(id)
            &&& a.dom().contains(id) ==> b[id].tab_list == match tab_stop_of(tag) {
                Some(stop) if tag.is("TabStop"@) && tag.empty && st.paragraph == Some(id) => {
                    a[id].tab_list.push(stop)
                },
                _ => a[id].tab_list,
            }
            &&& a.dom().contains(id) ==> b[id].nested_styles == match nested_style_of(tag) {
                Some(nested) if tag.is("NestedStyle"@) && tag.empty && st.paragraph == Some(id) => {
                    a[id].nested_styles.push(nested)
                },
                _ => a[id].nested_styles,
            }
        }),
{
    lemma_stop_name();
    lemma_nested_name();
    lemma_child_adds_to_lists(st, tag, id);
}

proof fn lemma_end_keeps_lists(st: ProgressView, name: Seq<u8>)
    ensures
        ({
            let after = after_event(st, EventView::End(name));
            &&& after.out == st.out
            &&& after.paragraph == if name == encode_utf8("ParagraphStyle"@) {
                None
            } else {
                st.paragraph
            }
        }),
{
    lemma_paragraph_name();
}

proof fn lemma_lists(events: Seq<EventView>, n: nat, id: Seq<char>)
    ensures
        ({
            let st = after_events(events, n);
            &&& st.paragraph == open_style(events, n)
            &&& st.out.paragraph_styles.dom().contains(id) ==> {
                &&& st.out.paragraph_styles[id].tab_list == stops_inside(events, n, id)
                &&& st.out.paragraph_styles[id].nested_styles == nested_inside(events, n, id)
            }
        }),
    decreases n,
{
    if n > 0 {
        lemma_lists(events, (n - 1) as nat, id);
        let st = after_events(events, (n - 1) as nat);
        let after = after_events(events, n);
        match events[n - 1] {
            EventView::Open(tag) => {
                if is_style(tag.name) {
                    lemma_style_starts_lists(st, tag, id);
                    lemma_stop_name();
                    lemma_nested_name();
                    if opens_style(tag, id) {
                        assert(after.out.paragraph_styles[id].tab_list =~= Seq::empty());
                        assert(after.out.paragraph_styles[id].nested_styles =~= Seq::empty());
                    }
                } else {
                    lemma_part_adds_to_lists(st, tag, id);
                }
            },
            EventView::End(name) => lemma_end_keeps_lists(st, name),
            EventView::Text(raw) => {
                if let (Some(property), Some(style)) = (st.pending, st.style) {
                    lemma_property_keeps_lists(st, style, property, text_content(raw), id);
                }
            },
            _ => {},
        }
    } else {
        assert(after_events(events, n).paragraph is None);
    }
}

/// The tab stops and the nested styles of every paragraph style of a style sheet are
/// those that stand between its opening and its closing tag, all of them, in order.
pub proof fn law_style_has_all_that_it_holds(events: Seq<EventView>, id: Seq<char>)
    requires
        stylesheet_of(events).paragraph_styles.dom().contains(id),
    ensures
        stylesheet_of(events).paragraph_styles[id].tab_list == stops_inside(
            events,
            events.len(),
            id,
        ),
        stylesheet_of(events).paragraph_styles[id].nested_styles == nested_inside(
            events,
            events.len(),
            id,
        ),
{
    lemma_lists(events, events.len(), id);
}

/// A bullet that is stated inside a paragraph style is the one that it has; nothing
/// else of the style changes, and nothing of any other.
pub proof fn law_bullet_is_given_to_its_style(
    st: ProgressView,
    id: Seq<char>,
    tag: TagView,
    bullet: u32,
)
    requires
        st.paragraph == Some(id),
        st.out.paragraph_styles.dom().contains(id),
        tag.empty,
        tag.is("BulletChar"@),
        tag.count("BulletCharacterValue"@) == Some(bullet),
    ensures
        ({
            let before = st.out.paragraph_styles;
            let after = after_event(st, EventView::Open(tag)).out.paragraph_styles;
            &&& after.dom() == before.dom()
            &&& forall|other: Seq<char>|
                other != id && #[trigger] before.dom().contains(other) ==> after[other]
                    == before[other]
            &&& after[id] == (ParagraphStyleDefView {
                bullet_character: Some(bullet),
                ..before[id]
            })
        }),
{
    lemma_bullet_name();
    let after = after_event(st, EventView::Open(tag)).out.paragraph_styles;
    assert(after.dom() =~= st.out.paragraph_styles.dom());
}

} // verus!
