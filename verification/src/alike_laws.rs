//! What is read of the tags of items, paragraphs and runs: what they state, and the
//! same of each kind of tag.
use crate::geometry::Matrix;
use crate::place_laws::law_text_frames_gather;
use crate::shapes::{graphic_line_of, oval_of, polygon_of, rectangle_of, text_frame_of};
use crate::spread::{after_event, ProgressView};
use crate::story::{paragraph_of, run_of};
use crate::text::numbers;
use crate::xml::{EventView, TagView};
use vstd::prelude::*;

verus! {

/// A text frame has the name, the story, the colours, the stroke, the layer and the
/// rest that its tag states. It can be seen and is free unless its tag says
/// otherwise, and what its tag does not state, it does not have.
pub proof fn law_text_frame_says_what_its_tag_states(st: ProgressView, tag: TagView)
    requires
        tag.is("TextFrame"@),
    ensures
        ({
            let r = after_event(st, EventView::Open(tag)).out.text_frames.last();
            &&& r.self_id == tag.text("Self"@)
            &&& r.parent_story == tag.text("ParentStory"@)
            &&& r.fill_color == tag.text("FillColor"@)
            &&& r.fill_tint == tag.tint("FillTint"@)
            &&& r.stroke_color == tag.text("StrokeColor"@)
            &&& r.stroke_weight == tag.num("StrokeWeight"@)
            &&& r.stroke_type == tag.text("StrokeType"@)
            &&& r.stroke_gap_color == tag.text("GapColor"@)
            &&& r.stroke_gap_tint == tag.tint("GapTint"@)
            &&& r.stroke_dash == (match tag.text("StrokeDashAndGap"@) {
                None => Seq::empty(),
                Some(s) => numbers(s, true),
            })
            &&& r.next_text_frame == tag.text("NextTextFrame"@)
            &&& r.applied_object_style == tag.text("AppliedObjectStyle"@)
            &&& r.item_layer == tag.text("ItemLayer"@)
            &&& r.gradient_fill_angle == tag.num("GradientFillAngle"@)
            &&& r.gradient_fill_length == tag.num("GradientFillLength"@)
            &&& r.gradient_stroke_angle == tag.num("GradientStrokeAngle"@)
            &&& r.gradient_stroke_length == tag.num("GradientStrokeLength"@)
            &&& r.applied_toc_style == tag.text("AppliedTOCStyle"@)
            &&& r.overprint_fill == (tag.flag("OverprintFill"@) == Some(true))
            &&& r.overprint_stroke == (tag.flag("OverprintStroke"@) == Some(true))
            &&& r.nonprinting == (tag.flag("Nonprinting"@) == Some(true))
            &&& r.visible == (tag.flag("Visible"@) != Some(false))
            &&& r.locked == (tag.flag("Locked"@) == Some(true))
            &&& tag.bounds("GeometricBounds"@) matches Some(b) ==> r.bounds == b
        }),
{
    law_text_frames_gather(st, tag);
}

/// The five kinds of items have the same of the same tag, in all that they share.
pub proof fn law_items_are_read_alike(tag: TagView, groups: Seq<Option<Matrix>>)
    ensures
        ({
            let a = text_frame_of(tag, groups);
            let b = rectangle_of(tag, groups);
            let c = oval_of(tag, groups);
            let d = polygon_of(tag, groups);
            let e = graphic_line_of(tag, groups);
            &&& b.self_id == a.self_id
            &&& b.bounds == a.bounds
            &&& b.item_transform == a.item_transform
            &&& b.fill_color == a.fill_color
            &&& b.fill_tint == a.fill_tint
            &&& b.stroke_color == a.stroke_color
            &&& b.stroke_weight == a.stroke_weight
            &&& b.applied_object_style == a.applied_object_style
            &&& b.stroke_type == a.stroke_type
            &&& b.stroke_gap_color == a.stroke_gap_color
            &&& b.stroke_gap_tint == a.stroke_gap_tint
            &&& b.stroke_dash == a.stroke_dash
            &&& b.item_layer == a.item_layer
            &&& b.gradient_fill_angle == a.gradient_fill_angle
            &&& b.gradient_fill_length == a.gradient_fill_length
            &&& b.gradient_stroke_angle == a.gradient_stroke_angle
            &&& b.gradient_stroke_length == a.gradient_stroke_length
            &&& b.overprint_fill == a.overprint_fill
            &&& b.overprint_stroke == a.overprint_stroke
            &&& b.nonprinting == a.nonprinting
            &&& b.visible == a.visible
            &&& b.locked == a.locked
            &&& c.self_id == a.self_id
            &&& c.bounds == a.bounds
            &&& c.item_transform == a.item_transform
            &&& c.fill_color == a.fill_color
            &&& c.fill_tint == a.fill_tint
            &&& c.stroke_color == a.stroke_color
            &&& c.stroke_weight == a.stroke_weight
            &&& c.stroke_type == a.stroke_type
            &&& c.stroke_gap_color == a.stroke_gap_color
            &&& c.stroke_gap_tint == a.stroke_gap_tint
            &&& c.stroke_dash == a.stroke_dash
            &&& c.applied_object_style == a.applied_object_style
            &&& c.item_layer == a.item_layer
            &&& c.gradient_fill_angle == a.gradient_fill_angle
            &&& c.gradient_fill_length == a.gradient_fill_length
            &&& c.gradient_stroke_angle == a.gradient_stroke_angle
            &&& c.gradient_stroke_length == a.gradient_stroke_length
            &&& c.overprint_fill == a.overprint_fill
            &&& c.overprint_stroke == a.overprint_stroke
            &&& c.nonprinting == a.nonprinting
            &&& c.visible == a.visible
            &&& c.locked == a.locked
            &&& d.self_id == a.self_id
            &&& d.bounds == a.bounds
            &&& d.item_transform == a.item_transform
            &&& d.fill_color == a.fill_color
            &&& d.fill_tint == a.fill_tint
            &&& d.stroke_color == a.stroke_color
            &&& d.stroke_weight == a.stroke_weight
            &&& d.stroke_type == a.stroke_type
            &&& d.stroke_gap_color == a.stroke_gap_color
            &&& d.stroke_gap_tint == a.stroke_gap_tint
            &&& d.stroke_dash == a.stroke_dash
            &&& d.applied_object_style == a.applied_object_style
            &&& d.item_layer == a.item_layer
            &&& d.gradient_fill_angle == a.gradient_fill_angle
            &&& d.gradient_fill_length == a.gradient_fill_length
            &&& d.gradient_stroke_angle == a.gradient_stroke_angle
            &&& d.gradient_stroke_length == a.gradient_stroke_length
            &&& d.overprint_fill == a.overprint_fill
            &&& d.overprint_stroke == a.overprint_stroke
            &&& d.nonprinting == a.nonprinting
            &&& d.visible == a.visible
            &&& d.locked == a.locked
            &&& e.self_id == a.self_id
            &&& e.bounds == a.bounds
            &&& e.item_transform == a.item_transform
            &&& e.stroke_color == a.stroke_color
            &&& e.stroke_weight == a.stroke_weight
            &&& e.stroke_type == a.stroke_type
            &&& e.stroke_gap_color == a.stroke_gap_color
            &&& e.stroke_gap_tint == a.stroke_gap_tint
            &&& e.stroke_dash == a.stroke_dash
            &&& e.applied_object_style == a.applied_object_style
            &&& e.item_layer == a.item_layer
            &&& e.overprint_stroke == a.overprint_stroke
            &&& e.nonprinting == a.nonprinting
            &&& e.visible == a.visible
            &&& e.locked == a.locked
            &&& d.stroke_alignment == b.stroke_alignment
            &&& d.end_join == b.end_join
            &&& d.miter_limit == b.miter_limit
            &&& c.stroke_alignment == b.stroke_alignment
            &&& e.end_join == b.end_join
            &&& e.miter_limit == b.miter_limit
        }),
{
}

/// A run has the font, the size, the colours and the rest that its tag states, and
/// the source that it is given; it starts without text.
pub proof fn law_run_says_what_its_tag_states(tag: TagView, source: Option<Seq<char>>)
    ensures
        ({
            let r = run_of(tag, source);
            &&& r.character_style == tag.text("AppliedCharacterStyle"@)
            &&& r.font == tag.text("AppliedFont"@)
            &&& r.font_style == tag.text("FontStyle"@)
            &&& r.point_size == tag.num("PointSize"@)
            &&& r.fill_color == tag.text("FillColor"@)
            &&& r.fill_tint == tag.tint("FillTint"@)
            &&& r.capitalization == tag.text("Capitalization"@)
            &&& r.baseline_shift == tag.num("BaselineShift"@)
            &&& r.horizontal_scale == tag.num("HorizontalScale"@)
            &&& r.vertical_scale == tag.num("VerticalScale"@)
            &&& r.skew == tag.num("Skew"@)
            &&& r.position == tag.text("Position"@)
            &&& r.tracking == tag.num("Tracking"@)
            &&& r.underline == tag.flag("Underline"@)
            &&& r.strikethru == tag.flag("StrikeThru"@)
            &&& r.leading == tag.num("Leading"@)
            &&& r.ruby_flag == tag.flag("RubyFlag"@)
            &&& r.ruby_type == tag.text("RubyType"@)
            &&& r.ruby_string == tag.text("RubyString"@)
            &&& r.kenten_kind == tag.text("KentenKind"@)
            &&& r.kenten_character == tag.text("KentenCharacter"@)
            &&& r.kenten_font_size == tag.num("KentenFontSize"@)
            &&& r.overprint_fill == tag.flag("OverprintFill"@)
            &&& r.overprint_stroke == tag.flag("OverprintStroke"@)
            &&& r.stroke_color == tag.named("StrokeColor"@)
            &&& r.stroke_weight == tag.num("StrokeWeight"@)
            &&& r.ligatures_on == tag.flag("Ligatures"@)
            &&& r.kerning_method == tag.text("KerningMethod"@)
            &&& r.applied_language == tag.text("AppliedLanguage"@)
            &&& r.applied_conditions == tag.list("AppliedConditions"@)
            &&& r.hyperlink_source == source
            &&& r.text.len() == 0
        }),
{
}

/// A paragraph has the style, the indents, the spaces and the rest that its tag
/// states; it starts without runs, stops, footnotes and marks.
pub proof fn law_paragraph_says_what_its_tag_states(tag: TagView)
    ensures
        ({
            let r = paragraph_of(tag);
            &&& r.paragraph_style == tag.text("AppliedParagraphStyle"@)
            &&& r.first_line_indent == tag.num("FirstLineIndent"@)
            &&& r.left_indent == tag.num("LeftIndent"@)
            &&& r.right_indent == tag.num("RightIndent"@)
            &&& r.space_before == tag.num("SpaceBefore"@)
            &&& r.space_after == tag.num("SpaceAfter"@)
            &&& r.bullets_list_type == tag.text("BulletsAndNumberingListType"@)
            &&& r.numbering_format == tag.text("NumberingFormat"@)
            &&& r.drop_cap_characters == (match tag.count("DropCapCharacters"@) {
                Some(x) => x,
                None => 0,
            })
            &&& r.drop_cap_lines == (match tag.count("DropCapLines"@) { Some(x) => x, None => 0 })
            &&& r.drop_cap_detail == (match tag.count("DropCapDetail"@) {
                Some(x) => x,
                None => 0,
            })
            &&& r.hyphenation == tag.flag("Hyphenation"@)
            &&& r.keep_lines_together == tag.flag("KeepLinesTogether"@)
            &&& r.keep_with_next == tag.count("KeepWithNext"@)
            &&& r.kinsoku_set == tag.text("KinsokuSet"@)
            &&& r.kinsoku_type == tag.text("KinsokuType"@)
            &&& r.mojikumi_table == tag.text("MojikumiTable"@)
            &&& r.mojikumi_set == tag.text("MojikumiSet"@)
            &&& r.overprint_fill == tag.flag("OverprintFill"@)
            &&& r.overprint_stroke == tag.flag("OverprintStroke"@)
            &&& r.runs.len() == 0
            &&& r.tab_list.len() == 0
            &&& r.footnotes.len() == 0
            &&& r.index_markers.len() == 0
            &&& r.anchored_frames.len() == 0
            &&& r.table is None
        }),
{
}

} // verus!
