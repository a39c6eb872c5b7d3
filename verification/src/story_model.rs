//! Stories: paragraphs, the runs of text in them, and what is set into them.
use crate::geometry::{Bounds, Matrix};
use crate::number::{zero, Num};
use crate::text::{chars_of, parse_u32, same_text, text_between, written_u32};
use crate::text_attrs::{
    Justification, OtfFeatures, OtfFeaturesView, ParagraphRule, ParagraphRuleView, TabStop,
    TabStopView,
};
use crate::util::{copy_text, copy_texts};
use vstd::prelude::*;

verus! {

/// Stands in the text for the number of the page that it is on.
pub const AUTO_PAGE_NUMBER_MARKER: char = '\u{E018}';

/// Stands in the text for the number of the page that it continues on.
pub const NEXT_PAGE_NUMBER_MARKER: char = '\u{E019}';

/// Which way the lines of a story run.
#[derive(Clone, Copy, Debug, PartialEq, Eq, Structural)]
pub enum StoryDirection {
    HorizontalWritingDirection,
    VerticalWritingDirection,
}

impl DeepView for StoryDirection {
    type V = StoryDirection;

    open spec fn deep_view(&self) -> StoryDirection {
        *self
    }
}

impl StoryDirection {
    /// What the value `s` names, where it is one of those known.
    pub open spec fn named(s: Seq<char>) -> Option<StoryDirection> {
        if s == "HorizontalWritingDirection"@ {
            Some(StoryDirection::HorizontalWritingDirection)
        } else if s == "VerticalWritingDirection"@ {
            Some(StoryDirection::VerticalWritingDirection)
        } else {
            None
        }
    }

    /// Reads the value `s`.
    pub fn from_idml(s: &str) -> (r: Option<StoryDirection>)
        ensures
            r == StoryDirection::named(s@),
    {
        if same_text(s, "HorizontalWritingDirection") {
            Some(StoryDirection::HorizontalWritingDirection)
        } else if same_text(s, "VerticalWritingDirection") {
            Some(StoryDirection::VerticalWritingDirection)
        } else {
            None
        }
    }
}

/// The kind of an anchored item.
#[derive(Clone, Copy, Debug, PartialEq, Eq, Structural)]
pub enum AnchoredFrameKind {
    TextFrame,
    Rectangle,
    Group,
}

impl DeepView for AnchoredFrameKind {
    type V = AnchoredFrameKind;

    open spec fn deep_view(&self) -> AnchoredFrameKind {
        *self
    }
}

/// How an anchored item stands to the text.
#[derive(Debug, PartialEq)]
pub struct AnchoredObjectSetting {
    pub anchored_position: Option<String>,
    pub spine_relative: bool,
    pub anchor_x_offset: Num,
    pub anchor_y_offset: Num,
    pub anchor_point: Option<String>,
    pub lock_position: bool,
    pub horizontal_reference_point: Option<String>,
    pub horizontal_alignment: Option<String>,
    pub vertical_reference_point: Option<String>,
    pub vertical_alignment: Option<String>,
}

/// What a [`AnchoredObjectSetting`] holds.
#[verifier::ext_equal]
pub struct AnchoredObjectSettingView {
    pub anchored_position: Option<Seq<char>>,
    pub spine_relative: bool,
    pub anchor_x_offset: Num,
    pub anchor_y_offset: Num,
    pub anchor_point: Option<Seq<char>>,
    pub lock_position: bool,
    pub horizontal_reference_point: Option<Seq<char>>,
    pub horizontal_alignment: Option<Seq<char>>,
    pub vertical_reference_point: Option<Seq<char>>,
    pub vertical_alignment: Option<Seq<char>>,
}

impl DeepView for AnchoredObjectSetting {
    type V = AnchoredObjectSettingView;

    open spec fn deep_view(&self) -> AnchoredObjectSettingView {
        AnchoredObjectSettingView {
            anchored_position: self.anchored_position.deep_view(),
            spine_relative: self.spine_relative,
            anchor_x_offset: self.anchor_x_offset,
            anchor_y_offset: self.anchor_y_offset,
            anchor_point: self.anchor_point.deep_view(),
            lock_position: self.lock_position,
            horizontal_reference_point: self.horizontal_reference_point.deep_view(),
            horizontal_alignment: self.horizontal_alignment.deep_view(),
            vertical_reference_point: self.vertical_reference_point.deep_view(),
            vertical_alignment: self.vertical_alignment.deep_view(),
        }
    }
}

/// A mark that the index points to.
#[derive(Debug, PartialEq)]
pub struct IndexMarker {
    pub topic_name: String,
    pub applied_topic: Option<String>,
    pub sort_order: Option<String>,
}

/// What a [`IndexMarker`] holds.
#[verifier::ext_equal]
pub struct IndexMarkerView {
    pub topic_name: Seq<char>,
    pub applied_topic: Option<Seq<char>>,
    pub sort_order: Option<Seq<char>>,
}

impl DeepView for IndexMarker {
    type V = IndexMarkerView;

    open spec fn deep_view(&self) -> IndexMarkerView {
        IndexMarkerView {
            topic_name: self.topic_name@,
            applied_topic: self.applied_topic.deep_view(),
            sort_order: self.sort_order.deep_view(),
        }
    }
}

/// A run of text in one look.
#[derive(Debug, PartialEq)]
pub struct CharacterRun {
    pub character_style: Option<String>,
    pub font: Option<String>,
    pub font_style: Option<String>,
    pub point_size: Option<Num>,
    pub fill_color: Option<String>,
    pub fill_tint: Option<Num>,
    pub capitalization: Option<String>,
    pub baseline_shift: Option<Num>,
    pub horizontal_scale: Option<Num>,
    pub vertical_scale: Option<Num>,
    pub skew: Option<Num>,
    pub position: Option<String>,
    pub tracking: Option<Num>,
    pub underline: Option<bool>,
    pub strikethru: Option<bool>,
    pub leading: Option<Num>,
    pub ruby_flag: Option<bool>,
    pub ruby_type: Option<String>,
    pub ruby_string: Option<String>,
    pub kenten_kind: Option<String>,
    pub kenten_character: Option<String>,
    pub kenten_font_size: Option<Num>,
    pub overprint_fill: Option<bool>,
    pub overprint_stroke: Option<bool>,
    pub stroke_color: Option<String>,
    pub stroke_weight: Option<Num>,
    pub ligatures_on: Option<bool>,
    pub kerning_method: Option<String>,
    pub applied_language: Option<String>,
    pub otf_features: Option<String>,
    pub otf: OtfFeatures,
    pub applied_conditions: Vec<String>,
    /// The link or reference whose source the run is part of.
    pub hyperlink_source: Option<String>,
    /// The variable whose value the run shows.
    pub text_variable: Option<String>,
    pub text: String,
}

/// What a [`CharacterRun`] holds.
#[verifier::ext_equal]
pub struct CharacterRunView {
    pub character_style: Option<Seq<char>>,
    pub font: Option<Seq<char>>,
    pub font_style: Option<Seq<char>>,
    pub point_size: Option<Num>,
    pub fill_color: Option<Seq<char>>,
    pub fill_tint: Option<Num>,
    pub capitalization: Option<Seq<char>>,
    pub baseline_shift: Option<Num>,
    pub horizontal_scale: Option<Num>,
    pub vertical_scale: Option<Num>,
    pub skew: Option<Num>,
    pub position: Option<Seq<char>>,
    pub tracking: Option<Num>,
    pub underline: Option<bool>,
    pub strikethru: Option<bool>,
    pub leading: Option<Num>,
    pub ruby_flag: Option<bool>,
    pub ruby_type: Option<Seq<char>>,
    pub ruby_string: Option<Seq<char>>,
    pub kenten_kind: Option<Seq<char>>,
    pub kenten_character: Option<Seq<char>>,
    pub kenten_font_size: Option<Num>,
    pub overprint_fill: Option<bool>,
    pub overprint_stroke: Option<bool>,
    pub stroke_color: Option<Seq<char>>,
    pub stroke_weight: Option<Num>,
    pub ligatures_on: Option<bool>,
    pub kerning_method: Option<Seq<char>>,
    pub applied_language: Option<Seq<char>>,
    pub otf_features: Option<Seq<char>>,
    pub otf: OtfFeaturesView,
    pub applied_conditions: Seq<Seq<char>>,
    pub hyperlink_source: Option<Seq<char>>,
    pub text_variable: Option<Seq<char>>,
    pub text: Seq<char>,
}

impl DeepView for CharacterRun {
    type V = CharacterRunView;

    open spec fn deep_view(&self) -> CharacterRunView {
        CharacterRunView {
            character_style: self.character_style.deep_view(),
            font: self.font.deep_view(),
            font_style: self.font_style.deep_view(),
            point_size: self.point_size,
            fill_color: self.fill_color.deep_view(),
            fill_tint: self.fill_tint,
            capitalization: self.capitalization.deep_view(),
            baseline_shift: self.baseline_shift,
            horizontal_scale: self.horizontal_scale,
            vertical_scale: self.vertical_scale,
            skew: self.skew,
            position: self.position.deep_view(),
            tracking: self.tracking,
            underline: self.underline,
            strikethru: self.strikethru,
            leading: self.leading,
            ruby_flag: self.ruby_flag,
            ruby_type: self.ruby_type.deep_view(),
            ruby_string: self.ruby_string.deep_view(),
            kenten_kind: self.kenten_kind.deep_view(),
            kenten_character: self.kenten_character.deep_view(),
            kenten_font_size: self.kenten_font_size,
            overprint_fill: self.overprint_fill,
            overprint_stroke: self.overprint_stroke,
            stroke_color: self.stroke_color.deep_view(),
            stroke_weight: self.stroke_weight,
            ligatures_on: self.ligatures_on,
            kerning_method: self.kerning_method.deep_view(),
            applied_language: self.applied_language.deep_view(),
            otf_features: self.otf_features.deep_view(),
            otf: self.otf.deep_view(),
            applied_conditions: self.applied_conditions.deep_view(),
            hyperlink_source: self.hyperlink_source.deep_view(),
            text_variable: self.text_variable.deep_view(),
            text: self.text@,
        }
    }
}

impl CharacterRun {
    /// A second run in the same look, with the same text.
    pub fn copy(&self) -> (r: CharacterRun)
        ensures
            r.deep_view() == self.deep_view(),
    {
        CharacterRun {
            character_style: copy_text(&self.character_style),
            font: copy_text(&self.font),
            font_style: copy_text(&self.font_style),
            point_size: self.point_size,
            fill_color: copy_text(&self.fill_color),
            fill_tint: self.fill_tint,
            capitalization: copy_text(&self.capitalization),
            baseline_shift: self.baseline_shift,
            horizontal_scale: self.horizontal_scale,
            vertical_scale: self.vertical_scale,
            skew: self.skew,
            position: copy_text(&self.position),
            tracking: self.tracking,
            underline: self.underline,
            strikethru: self.strikethru,
            leading: self.leading,
            ruby_flag: self.ruby_flag,
            ruby_type: copy_text(&self.ruby_type),
            ruby_string: copy_text(&self.ruby_string),
            kenten_kind: copy_text(&self.kenten_kind),
            kenten_character: copy_text(&self.kenten_character),
            kenten_font_size: self.kenten_font_size,
            overprint_fill: self.overprint_fill,
            overprint_stroke: self.overprint_stroke,
            stroke_color: copy_text(&self.stroke_color),
            stroke_weight: self.stroke_weight,
            ligatures_on: self.ligatures_on,
            kerning_method: copy_text(&self.kerning_method),
            applied_language: copy_text(&self.applied_language),
            otf_features: copy_text(&self.otf_features),
            otf: self.otf.copy(),
            applied_conditions: copy_texts(&self.applied_conditions),
            hyperlink_source: copy_text(&self.hyperlink_source),
            text_variable: copy_text(&self.text_variable),
            text: self.text.clone(),
        }
    }
}

/// A row of a table.
#[derive(Debug, PartialEq)]
pub struct TableRow {
    pub self_id: Option<String>,
    pub name: Option<String>,
    pub single_row_height: Option<Num>,
    pub minimum_height: Option<Num>,
    pub maximum_height: Option<Num>,
}

/// What a [`TableRow`] holds.
#[verifier::ext_equal]
pub struct TableRowView {
    pub self_id: Option<Seq<char>>,
    pub name: Option<Seq<char>>,
    pub single_row_height: Option<Num>,
    pub minimum_height: Option<Num>,
    pub maximum_height: Option<Num>,
}

impl DeepView for TableRow {
    type V = TableRowView;

    open spec fn deep_view(&self) -> TableRowView {
        TableRowView {
            self_id: self.self_id.deep_view(),
            name: self.name.deep_view(),
            single_row_height: self.single_row_height,
            minimum_height: self.minimum_height,
            maximum_height: self.maximum_height,
        }
    }
}

/// A column of a table.
#[derive(Debug, PartialEq)]
pub struct TableColumn {
    pub self_id: Option<String>,
    pub name: Option<String>,
    pub single_column_width: Option<Num>,
}

/// What a [`TableColumn`] holds.
#[verifier::ext_equal]
pub struct TableColumnView {
    pub self_id: Option<Seq<char>>,
    pub name: Option<Seq<char>>,
    pub single_column_width: Option<Num>,
}

impl DeepView for TableColumn {
    type V = TableColumnView;

    open spec fn deep_view(&self) -> TableColumnView {
        TableColumnView {
            self_id: self.self_id.deep_view(),
            name: self.name.deep_view(),
            single_column_width: self.single_column_width,
        }
    }
}

/// The border of a table.
#[derive(Debug, PartialEq)]
pub struct TableBorder {
    pub top_color: Option<String>,
    pub top_type: Option<String>,
    pub top_weight: Option<Num>,
    pub top_tint: Option<Num>,
    pub top_gap_color: Option<String>,
    pub top_gap_tint: Option<Num>,
    pub bottom_color: Option<String>,
    pub bottom_type: Option<String>,
    pub bottom_weight: Option<Num>,
    pub bottom_tint: Option<Num>,
    pub bottom_gap_color: Option<String>,
    pub bottom_gap_tint: Option<Num>,
    pub left_color: Option<String>,
    pub left_type: Option<String>,
    pub left_weight: Option<Num>,
    pub left_tint: Option<Num>,
    pub left_gap_color: Option<String>,
    pub left_gap_tint: Option<Num>,
    pub right_color: Option<String>,
    pub right_type: Option<String>,
    pub right_weight: Option<Num>,
    pub right_tint: Option<Num>,
    pub right_gap_color: Option<String>,
    pub right_gap_tint: Option<Num>,
}

/// What a [`TableBorder`] holds.
#[verifier::ext_equal]
pub struct TableBorderView {
    pub top_color: Option<Seq<char>>,
    pub top_type: Option<Seq<char>>,
    pub top_weight: Option<Num>,
    pub top_tint: Option<Num>,
    pub top_gap_color: Option<Seq<char>>,
    pub top_gap_tint: Option<Num>,
    pub bottom_color: Option<Seq<char>>,
    pub bottom_type: Option<Seq<char>>,
    pub bottom_weight: Option<Num>,
    pub bottom_tint: Option<Num>,
    pub bottom_gap_color: Option<Seq<char>>,
    pub bottom_gap_tint: Option<Num>,
    pub left_color: Option<Seq<char>>,
    pub left_type: Option<Seq<char>>,
    pub left_weight: Option<Num>,
    pub left_tint: Option<Num>,
    pub left_gap_color: Option<Seq<char>>,
    pub left_gap_tint: Option<Num>,
    pub right_color: Option<Seq<char>>,
    pub right_type: Option<Seq<char>>,
    pub right_weight: Option<Num>,
    pub right_tint: Option<Num>,
    pub right_gap_color: Option<Seq<char>>,
    pub right_gap_tint: Option<Num>,
}

impl DeepView for TableBorder {
    type V = TableBorderView;

    open spec fn deep_view(&self) -> TableBorderView {
        TableBorderView {
            top_color: self.top_color.deep_view(),
            top_type: self.top_type.deep_view(),
            top_weight: self.top_weight,
            top_tint: self.top_tint,
            top_gap_color: self.top_gap_color.deep_view(),
            top_gap_tint: self.top_gap_tint,
            bottom_color: self.bottom_color.deep_view(),
            bottom_type: self.bottom_type.deep_view(),
            bottom_weight: self.bottom_weight,
            bottom_tint: self.bottom_tint,
            bottom_gap_color: self.bottom_gap_color.deep_view(),
            bottom_gap_tint: self.bottom_gap_tint,
            left_color: self.left_color.deep_view(),
            left_type: self.left_type.deep_view(),
            left_weight: self.left_weight,
            left_tint: self.left_tint,
            left_gap_color: self.left_gap_color.deep_view(),
            left_gap_tint: self.left_gap_tint,
            right_color: self.right_color.deep_view(),
            right_type: self.right_type.deep_view(),
            right_weight: self.right_weight,
            right_tint: self.right_tint,
            right_gap_color: self.right_gap_color.deep_view(),
            right_gap_tint: self.right_gap_tint,
        }
    }
}

/// The strokes between the rows or the columns of a table.
#[derive(Debug, PartialEq)]
pub struct TableLineStrokes {
    pub start_count: Option<u32>,
    pub start_color: Option<String>,
    pub start_type: Option<String>,
    pub start_weight: Option<Num>,
    pub start_tint: Option<Num>,
    pub start_gap_color: Option<String>,
    pub start_gap_tint: Option<Num>,
    pub end_count: Option<u32>,
    pub end_color: Option<String>,
    pub end_type: Option<String>,
    pub end_weight: Option<Num>,
    pub end_tint: Option<Num>,
    pub end_gap_color: Option<String>,
    pub end_gap_tint: Option<Num>,
}

/// What a [`TableLineStrokes`] holds.
#[verifier::ext_equal]
pub struct TableLineStrokesView {
    pub start_count: Option<u32>,
    pub start_color: Option<Seq<char>>,
    pub start_type: Option<Seq<char>>,
    pub start_weight: Option<Num>,
    pub start_tint: Option<Num>,
    pub start_gap_color: Option<Seq<char>>,
    pub start_gap_tint: Option<Num>,
    pub end_count: Option<u32>,
    pub end_color: Option<Seq<char>>,
    pub end_type: Option<Seq<char>>,
    pub end_weight: Option<Num>,
    pub end_tint: Option<Num>,
    pub end_gap_color: Option<Seq<char>>,
    pub end_gap_tint: Option<Num>,
}

impl DeepView for TableLineStrokes {
    type V = TableLineStrokesView;

    open spec fn deep_view(&self) -> TableLineStrokesView {
        TableLineStrokesView {
            start_count: self.start_count,
            start_color: self.start_color.deep_view(),
            start_type: self.start_type.deep_view(),
            start_weight: self.start_weight,
            start_tint: self.start_tint,
            start_gap_color: self.start_gap_color.deep_view(),
            start_gap_tint: self.start_gap_tint,
            end_count: self.end_count,
            end_color: self.end_color.deep_view(),
            end_type: self.end_type.deep_view(),
            end_weight: self.end_weight,
            end_tint: self.end_tint,
            end_gap_color: self.end_gap_color.deep_view(),
            end_gap_tint: self.end_gap_tint,
        }
    }
}

/// The diagonal lines of a cell.
#[derive(Debug, PartialEq)]
pub struct CellDiagonal {
    pub left_line_drawn: Option<bool>,
    pub left_line_color: Option<String>,
    pub left_line_weight: Option<Num>,
    pub left_line_tint: Option<Num>,
    pub right_line_drawn: Option<bool>,
    pub right_line_color: Option<String>,
    pub right_line_weight: Option<Num>,
    pub right_line_tint: Option<Num>,
    pub diagonal_in_front: Option<bool>,
}

/// What a [`CellDiagonal`] holds.
#[verifier::ext_equal]
pub struct CellDiagonalView {
    pub left_line_drawn: Option<bool>,
    pub left_line_color: Option<Seq<char>>,
    pub left_line_weight: Option<Num>,
    pub left_line_tint: Option<Num>,
    pub right_line_drawn: Option<bool>,
    pub right_line_color: Option<Seq<char>>,
    pub right_line_weight: Option<Num>,
    pub right_line_tint: Option<Num>,
    pub diagonal_in_front: Option<bool>,
}

impl DeepView for CellDiagonal {
    type V = CellDiagonalView;

    open spec fn deep_view(&self) -> CellDiagonalView {
        CellDiagonalView {
            left_line_drawn: self.left_line_drawn,
            left_line_color: self.left_line_color.deep_view(),
            left_line_weight: self.left_line_weight,
            left_line_tint: self.left_line_tint,
            right_line_drawn: self.right_line_drawn,
            right_line_color: self.right_line_color.deep_view(),
            right_line_weight: self.right_line_weight,
            right_line_tint: self.right_line_tint,
            diagonal_in_front: self.diagonal_in_front,
        }
    }
}

/// An item anchored in text.
#[derive(Debug, PartialEq)]
pub struct AnchoredFrame {
    pub frame_kind: AnchoredFrameKind,
    pub self_id: Option<String>,
    pub bounds: Option<Bounds>,
    pub item_transform: Option<Matrix>,
    pub parent_story: Option<String>,
    pub setting: Option<AnchoredObjectSetting>,
    pub fill_color: Option<String>,
    pub stroke_color: Option<String>,
    pub stroke_weight: Option<Num>,
    pub fill_tint: Option<Num>,
    pub gradient_fill_angle: Option<Num>,
    pub applied_object_style: Option<String>,
    pub image_link: Option<String>,
    pub image_item_transform: Option<Matrix>,
    pub children: Vec<AnchoredFrame>,
}

/// What an item anchored in text holds.
#[verifier::ext_equal]
pub struct AnchoredFrameView {
    pub frame_kind: AnchoredFrameKind,
    pub self_id: Option<Seq<char>>,
    pub bounds: Option<Bounds>,
    pub item_transform: Option<Matrix>,
    pub parent_story: Option<Seq<char>>,
    pub setting: Option<AnchoredObjectSettingView>,
    pub fill_color: Option<Seq<char>>,
    pub stroke_color: Option<Seq<char>>,
    pub stroke_weight: Option<Num>,
    pub fill_tint: Option<Num>,
    pub gradient_fill_angle: Option<Num>,
    pub applied_object_style: Option<Seq<char>>,
    pub image_link: Option<Seq<char>>,
    pub image_item_transform: Option<Matrix>,
    pub children: Seq<AnchoredFrameView>,
}

/// What an item anchored in text holds, all the way down.
pub open spec fn anchored_view(x: AnchoredFrame) -> AnchoredFrameView
    decreases x,
{
    AnchoredFrameView {
        frame_kind: x.frame_kind,
        self_id: x.self_id.deep_view(),
        bounds: x.bounds,
        item_transform: x.item_transform,
        parent_story: x.parent_story.deep_view(),
        setting: x.setting.deep_view(),
        fill_color: x.fill_color.deep_view(),
        stroke_color: x.stroke_color.deep_view(),
        stroke_weight: x.stroke_weight,
        fill_tint: x.fill_tint,
        gradient_fill_angle: x.gradient_fill_angle,
        applied_object_style: x.applied_object_style.deep_view(),
        image_link: x.image_link.deep_view(),
        image_item_transform: x.image_item_transform,
        children: Seq::new(
            x.children@.len(),
            |i: int|
                if 0 <= i < x.children@.len() {
                    anchored_view(x.children@[i])
                } else {
                    arbitrary()
                },
        ),
    }
}

impl DeepView for AnchoredFrame {
    type V = AnchoredFrameView;

    open spec fn deep_view(&self) -> AnchoredFrameView {
        anchored_view(*self)
    }
}

/// A footnote.
#[derive(Debug, PartialEq)]
pub struct Footnote {
    pub self_id: Option<String>,
    pub paragraphs: Vec<Paragraph>,
}

/// What a footnote holds.
#[verifier::ext_equal]
pub struct FootnoteView {
    pub self_id: Option<Seq<char>>,
    pub paragraphs: Seq<ParagraphView>,
}

/// What a footnote holds, all the way down.
pub open spec fn footnote_view(x: Footnote) -> FootnoteView
    decreases x,
{
    FootnoteView {
        self_id: x.self_id.deep_view(),
        paragraphs: Seq::new(
            x.paragraphs@.len(),
            |i: int|
                if 0 <= i < x.paragraphs@.len() {
                    paragraph_view(x.paragraphs@[i])
                } else {
                    arbitrary()
                },
        ),
    }
}

impl DeepView for Footnote {
    type V = FootnoteView;

    open spec fn deep_view(&self) -> FootnoteView {
        footnote_view(*self)
    }
}

/// A cell of a table.
#[derive(Debug, PartialEq)]
pub struct TableCell {
    pub self_id: Option<String>,
    pub name: Option<String>,
    pub row_span: u32,
    pub column_span: u32,
    pub text_top_inset: Num,
    pub text_left_inset: Num,
    pub text_bottom_inset: Num,
    pub text_right_inset: Num,
    pub applied_cell_style: Option<String>,
    pub top_edge_stroke_color: Option<String>,
    pub top_edge_stroke_weight: Option<Num>,
    pub top_edge_stroke_tint: Option<Num>,
    pub bottom_edge_stroke_color: Option<String>,
    pub bottom_edge_stroke_weight: Option<Num>,
    pub bottom_edge_stroke_tint: Option<Num>,
    pub left_edge_stroke_color: Option<String>,
    pub left_edge_stroke_weight: Option<Num>,
    pub left_edge_stroke_tint: Option<Num>,
    pub right_edge_stroke_color: Option<String>,
    pub right_edge_stroke_weight: Option<Num>,
    pub right_edge_stroke_tint: Option<Num>,
    pub fill_color: Option<String>,
    pub first_baseline_offset: Option<String>,
    pub minimum_first_baseline_offset: Option<Num>,
    pub diagonal: CellDiagonal,
    pub rotation_angle: Option<Num>,
    pub vertical_justification: Option<String>,
    pub paragraphs: Vec<Paragraph>,
}

/// What a cell of a table holds.
#[verifier::ext_equal]
pub struct TableCellView {
    pub self_id: Option<Seq<char>>,
    pub name: Option<Seq<char>>,
    pub row_span: u32,
    pub column_span: u32,
    pub text_top_inset: Num,
    pub text_left_inset: Num,
    pub text_bottom_inset: Num,
    pub text_right_inset: Num,
    pub applied_cell_style: Option<Seq<char>>,
    pub top_edge_stroke_color: Option<Seq<char>>,
    pub top_edge_stroke_weight: Option<Num>,
    pub top_edge_stroke_tint: Option<Num>,
    pub bottom_edge_stroke_color: Option<Seq<char>>,
    pub bottom_edge_stroke_weight: Option<Num>,
    pub bottom_edge_stroke_tint: Option<Num>,
    pub left_edge_stroke_color: Option<Seq<char>>,
    pub left_edge_stroke_weight: Option<Num>,
    pub left_edge_stroke_tint: Option<Num>,
    pub right_edge_stroke_color: Option<Seq<char>>,
    pub right_edge_stroke_weight: Option<Num>,
    pub right_edge_stroke_tint: Option<Num>,
    pub fill_color: Option<Seq<char>>,
    pub first_baseline_offset: Option<Seq<char>>,
    pub minimum_first_baseline_offset: Option<Num>,
    pub diagonal: CellDiagonalView,
    pub rotation_angle: Option<Num>,
    pub vertical_justification: Option<Seq<char>>,
    pub paragraphs: Seq<ParagraphView>,
}

/// What a cell of a table holds, all the way down.
pub open spec fn cell_view(x: TableCell) -> TableCellView
    decreases x,
{
    TableCellView {
        self_id: x.self_id.deep_view(),
        name: x.name.deep_view(),
        row_span: x.row_span,
        column_span: x.column_span,
        text_top_inset: x.text_top_inset,
        text_left_inset: x.text_left_inset,
        text_bottom_inset: x.text_bottom_inset,
        text_right_inset: x.text_right_inset,
        applied_cell_style: x.applied_cell_style.deep_view(),
        top_edge_stroke_color: x.top_edge_stroke_color.deep_view(),
        top_edge_stroke_weight: x.top_edge_stroke_weight,
        top_edge_stroke_tint: x.top_edge_stroke_tint,
        bottom_edge_stroke_color: x.bottom_edge_stroke_color.deep_view(),
        bottom_edge_stroke_weight: x.bottom_edge_stroke_weight,
        bottom_edge_stroke_tint: x.bottom_edge_stroke_tint,
        left_edge_stroke_color: x.left_edge_stroke_color.deep_view(),
        left_edge_stroke_weight: x.left_edge_stroke_weight,
        left_edge_stroke_tint: x.left_edge_stroke_tint,
        right_edge_stroke_color: x.right_edge_stroke_color.deep_view(),
        right_edge_stroke_weight: x.right_edge_stroke_weight,
        right_edge_stroke_tint: x.right_edge_stroke_tint,
        fill_color: x.fill_color.deep_view(),
        first_baseline_offset: x.first_baseline_offset.deep_view(),
        minimum_first_baseline_offset: x.minimum_first_baseline_offset,
        diagonal: x.diagonal.deep_view(),
        rotation_angle: x.rotation_angle,
        vertical_justification: x.vertical_justification.deep_view(),
        paragraphs: Seq::new(
            x.paragraphs@.len(),
            |i: int|
                if 0 <= i < x.paragraphs@.len() {
                    paragraph_view(x.paragraphs@[i])
                } else {
                    arbitrary()
                },
        ),
    }
}

impl DeepView for TableCell {
    type V = TableCellView;

    open spec fn deep_view(&self) -> TableCellView {
        cell_view(*self)
    }
}

/// A table.
#[derive(Debug, PartialEq)]
pub struct Table {
    pub self_id: Option<String>,
    pub header_row_count: u32,
    pub footer_row_count: u32,
    pub body_row_count: u32,
    pub column_count: u32,
    pub repeating_header: Option<bool>,
    pub repeating_footer: Option<bool>,
    pub applied_table_style: Option<String>,
    pub rows: Vec<TableRow>,
    pub columns: Vec<TableColumn>,
    pub cells: Vec<TableCell>,
    pub border: TableBorder,
    pub row_strokes: TableLineStrokes,
    pub column_strokes: TableLineStrokes,
}

/// What a table holds.
#[verifier::ext_equal]
pub struct TableView {
    pub self_id: Option<Seq<char>>,
    pub header_row_count: u32,
    pub footer_row_count: u32,
    pub body_row_count: u32,
    pub column_count: u32,
    pub repeating_header: Option<bool>,
    pub repeating_footer: Option<bool>,
    pub applied_table_style: Option<Seq<char>>,
    pub rows: Seq<TableRowView>,
    pub columns: Seq<TableColumnView>,
    pub cells: Seq<TableCellView>,
    pub border: TableBorderView,
    pub row_strokes: TableLineStrokesView,
    pub column_strokes: TableLineStrokesView,
}

/// What a table holds, all the way down.
pub open spec fn table_view(x: Table) -> TableView
    decreases x,
{
    TableView {
        self_id: x.self_id.deep_view(),
        header_row_count: x.header_row_count,
        footer_row_count: x.footer_row_count,
        body_row_count: x.body_row_count,
        column_count: x.column_count,
        repeating_header: x.repeating_header,
        repeating_footer: x.repeating_footer,
        applied_table_style: x.applied_table_style.deep_view(),
        rows: x.rows.deep_view(),
        columns: x.columns.deep_view(),
        cells: Seq::new(
            x.cells@.len(),
            |i: int|
                if 0 <= i < x.cells@.len() {
                    cell_view(x.cells@[i])
                } else {
                    arbitrary()
                },
        ),
        border: x.border.deep_view(),
        row_strokes: x.row_strokes.deep_view(),
        column_strokes: x.column_strokes.deep_view(),
    }
}

impl DeepView for Table {
    type V = TableView;

    open spec fn deep_view(&self) -> TableView {
        table_view(*self)
    }
}

/// A paragraph.
#[derive(Debug, PartialEq)]
pub struct Paragraph {
    pub paragraph_style: Option<String>,
    pub justification: Option<Justification>,
    pub first_line_indent: Option<Num>,
    pub left_indent: Option<Num>,
    pub right_indent: Option<Num>,
    pub space_before: Option<Num>,
    pub space_after: Option<Num>,
    pub tab_list: Vec<TabStop>,
    pub bullets_list_type: Option<String>,
    pub bullet_character: Option<u32>,
    pub numbering_format: Option<String>,
    pub applied_numbering_list: Option<String>,
    pub drop_cap_characters: u32,
    pub drop_cap_lines: u32,
    pub drop_cap_detail: u32,
    pub hyphenation: Option<bool>,
    pub keep_lines_together: Option<bool>,
    pub keep_with_next: Option<u32>,
    pub rule_above: ParagraphRule,
    pub rule_below: ParagraphRule,
    pub kinsoku_set: Option<String>,
    pub kinsoku_type: Option<String>,
    pub mojikumi_table: Option<String>,
    pub mojikumi_set: Option<String>,
    pub runs: Vec<CharacterRun>,
    pub anchored_frames: Vec<AnchoredFrame>,
    pub table: Option<Table>,
    pub overprint_fill: Option<bool>,
    pub overprint_stroke: Option<bool>,
    pub footnotes: Vec<Footnote>,
    pub index_markers: Vec<IndexMarker>,
}

/// What a paragraph holds.
#[verifier::ext_equal]
pub struct ParagraphView {
    pub paragraph_style: Option<Seq<char>>,
    pub justification: Option<Justification>,
    pub first_line_indent: Option<Num>,
    pub left_indent: Option<Num>,
    pub right_indent: Option<Num>,
    pub space_before: Option<Num>,
    pub space_after: Option<Num>,
    pub tab_list: Seq<TabStopView>,
    pub bullets_list_type: Option<Seq<char>>,
    pub bullet_character: Option<u32>,
    pub numbering_format: Option<Seq<char>>,
    pub applied_numbering_list: Option<Seq<char>>,
    pub drop_cap_characters: u32,
    pub drop_cap_lines: u32,
    pub drop_cap_detail: u32,
    pub hyphenation: Option<bool>,
    pub keep_lines_together: Option<bool>,
    pub keep_with_next: Option<u32>,
    pub rule_above: ParagraphRuleView,
    pub rule_below: ParagraphRuleView,
    pub kinsoku_set: Option<Seq<char>>,
    pub kinsoku_type: Option<Seq<char>>,
    pub mojikumi_table: Option<Seq<char>>,
    pub mojikumi_set: Option<Seq<char>>,
    pub runs: Seq<CharacterRunView>,
    pub anchored_frames: Seq<AnchoredFrameView>,
    pub table: Option<TableView>,
    pub overprint_fill: Option<bool>,
    pub overprint_stroke: Option<bool>,
    pub footnotes: Seq<FootnoteView>,
    pub index_markers: Seq<IndexMarkerView>,
}

/// What a paragraph holds, all the way down.
pub open spec fn paragraph_view(x: Paragraph) -> ParagraphView
    decreases x,
{
    ParagraphView {
        paragraph_style: x.paragraph_style.deep_view(),
        justification: x.justification,
        first_line_indent: x.first_line_indent,
        left_indent: x.left_indent,
        right_indent: x.right_indent,
        space_before: x.space_before,
        space_after: x.space_after,
        tab_list: x.tab_list.deep_view(),
        bullets_list_type: x.bullets_list_type.deep_view(),
        bullet_character: x.bullet_character,
        numbering_format: x.numbering_format.deep_view(),
        applied_numbering_list: x.applied_numbering_list.deep_view(),
        drop_cap_characters: x.drop_cap_characters,
        drop_cap_lines: x.drop_cap_lines,
        drop_cap_detail: x.drop_cap_detail,
        hyphenation: x.hyphenation,
        keep_lines_together: x.keep_lines_together,
        keep_with_next: x.keep_with_next,
        rule_above: x.rule_above.deep_view(),
        rule_below: x.rule_below.deep_view(),
        kinsoku_set: x.kinsoku_set.deep_view(),
        kinsoku_type: x.kinsoku_type.deep_view(),
        mojikumi_table: x.mojikumi_table.deep_view(),
        mojikumi_set: x.mojikumi_set.deep_view(),
        runs: x.runs.deep_view(),
        anchored_frames: Seq::new(
            x.anchored_frames@.len(),
            |i: int|
                if 0 <= i < x.anchored_frames@.len() {
                    anchored_view(x.anchored_frames@[i])
                } else {
                    arbitrary()
                },
        ),
        table: match x.table {
            None => None,
            Some(t) => Some(table_view(t)),
        },
        overprint_fill: x.overprint_fill,
        overprint_stroke: x.overprint_stroke,
        footnotes: Seq::new(
            x.footnotes@.len(),
            |i: int|
                if 0 <= i < x.footnotes@.len() {
                    footnote_view(x.footnotes@[i])
                } else {
                    arbitrary()
                },
        ),
        index_markers: x.index_markers.deep_view(),
    }
}

impl DeepView for Paragraph {
    type V = ParagraphView;

    open spec fn deep_view(&self) -> ParagraphView {
        paragraph_view(*self)
    }
}

/// The lists inside an item anchored in text are seen as lists are.
pub(crate) proof fn lemma_anchored_view(x: AnchoredFrame)
    ensures
        x.deep_view().children == x.children.deep_view(),
{
    assert(x.deep_view().children =~= x.children.deep_view());
}

/// The lists inside a paragraph are seen as lists are.
pub(crate) proof fn lemma_paragraph_view(x: Paragraph)
    ensures
        x.deep_view().anchored_frames == x.anchored_frames.deep_view(),
        x.deep_view().footnotes == x.footnotes.deep_view(),
{
    assert(x.deep_view().anchored_frames =~= x.anchored_frames.deep_view());
    assert(x.deep_view().footnotes =~= x.footnotes.deep_view());
}

/// The lists inside a table are seen as lists are.
pub(crate) proof fn lemma_table_view(x: Table)
    ensures
        x.deep_view().cells == x.cells.deep_view(),
{
    assert(x.deep_view().cells =~= x.cells.deep_view());
}

/// The lists inside a cell of a table are seen as lists are.
pub(crate) proof fn lemma_cell_view(x: TableCell)
    ensures
        x.deep_view().paragraphs == x.paragraphs.deep_view(),
{
    assert(x.deep_view().paragraphs =~= x.paragraphs.deep_view());
}

/// The lists inside a footnote are seen as lists are.
pub(crate) proof fn lemma_footnote_view(x: Footnote)
    ensures
        x.deep_view().paragraphs == x.paragraphs.deep_view(),
{
    assert(x.deep_view().paragraphs =~= x.paragraphs.deep_view());
}

/// A story.
#[derive(Debug, PartialEq)]
pub struct Story {
    pub paragraphs: Vec<Paragraph>,
    pub optical_margin_alignment: bool,
    pub optical_margin_size: Num,
    pub story_direction: Option<StoryDirection>,
}

/// What a [`Story`] holds.
#[verifier::ext_equal]
pub struct StoryView {
    pub paragraphs: Seq<ParagraphView>,
    pub optical_margin_alignment: bool,
    pub optical_margin_size: Num,
    pub story_direction: Option<StoryDirection>,
}

impl DeepView for Story {
    type V = StoryView;

    open spec fn deep_view(&self) -> StoryView {
        StoryView {
            paragraphs: self.paragraphs.deep_view(),
            optical_margin_alignment: self.optical_margin_alignment,
            optical_margin_size: self.optical_margin_size,
            story_direction: self.story_direction,
        }
    }
}

/// A story without text.
pub open spec fn empty_story() -> StoryView {
    StoryView {
        paragraphs: Seq::empty(),
        optical_margin_alignment: false,
        optical_margin_size: zero(),
        story_direction: None,
    }
}

impl Default for Story {
    fn default() -> (r: Story)
        ensures
            r.deep_view() == empty_story(),
    {
        Story {
            paragraphs: Vec::new(),
            optical_margin_alignment: false,
            optical_margin_size: Num::zero(),
            story_direction: None,
        }
    }
}

/// How many characters of `s` stand before the first colon, or all of them.
pub open spec fn before_colon(s: Seq<char>) -> nat
    decreases s.len(),
{
    if s.len() == 0 || s[0] == ':' {
        0
    } else {
        1 + before_colon(s.skip(1))
    }
}

/// The column and the row that a name such as `2:1` states.
pub open spec fn coords_in(name: Seq<char>) -> Option<(u32, u32)> {
    let k = before_colon(name) as int;
    if k >= name.len() {
        None
    } else {
        match (written_u32(name.take(k)), written_u32(name.skip(k + 1))) {
            (Some(column), Some(row)) => Some((column, row)),
            _ => None,
        }
    }
}

fn find_colon(s: &Vec<char>) -> (r: usize)
    ensures
        r == before_colon(s@),
        r <= s@.len(),
{
    let mut i: usize = 0;
    assert(s@.skip(0) =~= s@);
    while i < s.len() && s[i] != ':'
        invariant
            i <= s@.len(),
            before_colon(s@) == i + before_colon(s@.skip(i as int)),
        decreases s@.len() - i,
    {
        assert(s@.skip(i as int).skip(1) =~= s@.skip(i + 1));
        i = i + 1;
    }
    i
}

impl TableCell {
    /// The column and the row of the cell, by its name.
    pub fn coords(&self) -> (r: Option<(u32, u32)>)
        ensures
            r == match self.name {
                None => None,
                Some(name) => coords_in(name@),
            },
    {
        match &self.name {
            None => None,
            Some(name) => {
                let s: Vec<char> = chars_of(name.as_str());
                let k: usize = find_colon(&s);
                if k >= s.len() {
                    None
                } else {
                    let column: String = text_between(&s, 0, k);
                    let row: String = text_between(&s, k + 1, s.len());
                    assert(column@ =~= name@.take(k as int));
                    assert(row@ =~= name@.skip(k + 1));
                    match (parse_u32(column.as_str()), parse_u32(row.as_str())) {
                        (Some(column), Some(row)) => Some((column, row)),
                        _ => None,
                    }
                }
            },
        }
    }
}

} // verus!
