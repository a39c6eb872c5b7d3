//! A story: its paragraphs, and the tables, footnotes and anchored items in them.
//!
//! The events of the document are taken one by one. A table or a footnote parks
//! the paragraph and the run that it stands in, and gives them back when it ends.
use crate::ParseError;
use crate::decimal::{parse_number, written_number};
use crate::edits::item_at;
use crate::geometry::{parse_bounds, written_bounds, Bounds, Point};
use crate::number::{greater, lesser, zero, Num};
use crate::spread::{deeper, go_back_up, go_deeper, pop_item, popped, shallower};
use crate::story_model::{
    empty_story, lemma_anchored_view, lemma_cell_view, lemma_footnote_view, lemma_paragraph_view,
    lemma_table_view, AUTO_PAGE_NUMBER_MARKER, AnchoredFrame, AnchoredFrameKind, AnchoredFrameView,
    AnchoredObjectSetting, AnchoredObjectSettingView, CellDiagonal, CellDiagonalView, CharacterRun,
    CharacterRunView, Footnote, FootnoteView, IndexMarker, IndexMarkerView, NEXT_PAGE_NUMBER_MARKER,
    Paragraph, ParagraphView, Story, StoryDirection, StoryView, Table, TableBorder, TableBorderView,
    TableCell, TableCellView, TableColumn, TableColumnView, TableLineStrokes, TableLineStrokesView,
    TableRow, TableRowView, TableView,
};
use crate::text::{
    chars_of, numbers, parse_numbers, same_text, starts_after_space, starts_with, trim, trimmed,
    trimmed_start,
};
use crate::text_attrs::{
    otf_features_of, paragraph_rule_of, read_otf_features, read_paragraph_rule, read_tab_stop,
    tab_stop_of, TabStop, TabStopView,
};
use crate::util::{either, first_of, join, push_item};
use crate::xml::{
    decoded, name_is, read_events, read_text, text_content, utf8_text, xml_events, EventView, Tag,
    TagView, XmlEvent,
};
use vstd::prelude::*;
use vstd::utf8::encode_utf8;

verus! {

/// A table whose tag is open, and what waits outside its cell.
#[derive(Debug)]
pub struct TableContext {
    pub table: Table,
    pub outer_paragraph: Option<Paragraph>,
    pub outer_run: Option<CharacterRun>,
    pub outer_cell: Option<TableCell>,
}

/// What a [`TableContext`] holds.
#[verifier::ext_equal]
pub struct TableContextView {
    pub table: TableView,
    pub outer_paragraph: Option<ParagraphView>,
    pub outer_run: Option<CharacterRunView>,
    pub outer_cell: Option<TableCellView>,
}

impl DeepView for TableContext {
    type V = TableContextView;

    open spec fn deep_view(&self) -> TableContextView {
        TableContextView {
            table: self.table.deep_view(),
            outer_paragraph: self.outer_paragraph.deep_view(),
            outer_run: self.outer_run.deep_view(),
            outer_cell: self.outer_cell.deep_view(),
        }
    }
}

/// A footnote whose tag is open, and what waits outside it.
#[derive(Debug)]
pub struct FootnoteContext {
    pub footnote: Footnote,
    pub outer_paragraph: Option<Paragraph>,
    pub outer_run: Option<CharacterRun>,
}

/// What a [`FootnoteContext`] holds.
#[verifier::ext_equal]
pub struct FootnoteContextView {
    pub footnote: FootnoteView,
    pub outer_paragraph: Option<ParagraphView>,
    pub outer_run: Option<CharacterRunView>,
}

impl DeepView for FootnoteContext {
    type V = FootnoteContextView;

    open spec fn deep_view(&self) -> FootnoteContextView {
        FootnoteContextView {
            footnote: self.footnote.deep_view(),
            outer_paragraph: self.outer_paragraph.deep_view(),
            outer_run: self.outer_run.deep_view(),
        }
    }
}

/// What the open list of properties belongs to.
#[derive(Clone, Copy, Debug, PartialEq, Eq, Structural)]
pub enum PropertyHost {
    Nothing,
    Run,
    Paragraph,
}

impl DeepView for PropertyHost {
    type V = PropertyHost;

    open spec fn deep_view(&self) -> PropertyHost {
        *self
    }
}

/// A story in the making.
pub struct Progress {
    pub out: Story,
    /// The paragraph that is open.
    pub paragraph: Option<Paragraph>,
    /// The run that is open.
    pub run: Option<CharacterRun>,
    /// The open tables, outermost first.
    pub tables: Vec<TableContext>,
    /// The cell that is open.
    pub cell: Option<TableCell>,
    /// The open footnotes, outermost first.
    pub footnotes: Vec<FootnoteContext>,
    /// The open sources of links, outermost first.
    pub sources: Vec<String>,
    /// Whether text belongs to the open run.
    pub in_content: bool,
    pub properties: PropertyHost,
    /// The name of the open property.
    pub field: Option<Vec<u8>>,
    /// Its text so far.
    pub field_text: String,
    /// How many tags are open from the outermost anchored item on.
    pub anchored_depth: u32,
    /// The open anchored items, outermost first.
    pub anchored: Vec<AnchoredFrame>,
    /// Whether the box of each comes from its path.
    pub from_path: Vec<bool>,
    /// How many tags are open from one on whose content is not part of the
    /// text.
    pub suppress_depth: u32,
}

/// What a [`Progress`] holds.
#[verifier::ext_equal]
pub struct ProgressView {
    pub out: StoryView,
    pub paragraph: Option<ParagraphView>,
    pub run: Option<CharacterRunView>,
    pub tables: Seq<TableContextView>,
    pub cell: Option<TableCellView>,
    pub footnotes: Seq<FootnoteContextView>,
    pub sources: Seq<Seq<char>>,
    pub in_content: bool,
    pub properties: PropertyHost,
    pub field: Option<Seq<u8>>,
    pub field_text: Seq<char>,
    pub anchored_depth: u32,
    pub anchored: Seq<AnchoredFrameView>,
    pub from_path: Seq<bool>,
    pub suppress_depth: u32,
}

impl View for Progress {
    type V = ProgressView;

    open spec fn view(&self) -> ProgressView {
        ProgressView {
            out: self.out.deep_view(),
            paragraph: self.paragraph.deep_view(),
            run: self.run.deep_view(),
            tables: self.tables.deep_view(),
            cell: self.cell.deep_view(),
            footnotes: self.footnotes.deep_view(),
            sources: self.sources.deep_view(),
            in_content: self.in_content,
            properties: self.properties,
            field: self.field.deep_view(),
            field_text: self.field_text@,
            anchored_depth: self.anchored_depth,
            anchored: self.anchored.deep_view(),
            from_path: self.from_path@,
            suppress_depth: self.suppress_depth,
        }
    }
}

/// What an `AnchoredObjectSetting` tag states.
pub open spec fn anchored_setting_of(tag: TagView) -> AnchoredObjectSettingView {
    AnchoredObjectSettingView {
        anchored_position: tag.text("AnchoredPosition"@),
        spine_relative: tag.flag("SpineRelative"@).unwrap_or(false),
        anchor_x_offset: tag.num("AnchorXoffset"@).unwrap_or(zero()),
        anchor_y_offset: tag.num("AnchorYoffset"@).unwrap_or(zero()),
        anchor_point: tag.text("AnchorPoint"@),
        lock_position: tag.flag("LockPosition"@).unwrap_or(false),
        horizontal_reference_point: tag.text("HorizontalReferencePoint"@),
        horizontal_alignment: tag.text("HorizontalAlignment"@),
        vertical_reference_point: tag.text("VerticalReferencePoint"@),
        vertical_alignment: tag.text("VerticalAlignment"@),
    }
}

/// Reads it from a tag.
pub fn read_anchored_setting(tag: &Tag) -> (r: AnchoredObjectSetting)
    ensures
        r.deep_view() == anchored_setting_of(tag@),
{
    AnchoredObjectSetting {
        anchored_position: tag.text("AnchoredPosition"),
        spine_relative: tag.flag("SpineRelative").unwrap_or(false),
        anchor_x_offset: tag.num("AnchorXoffset").unwrap_or(Num::zero()),
        anchor_y_offset: tag.num("AnchorYoffset").unwrap_or(Num::zero()),
        anchor_point: tag.text("AnchorPoint"),
        lock_position: tag.flag("LockPosition").unwrap_or(false),
        horizontal_reference_point: tag.text("HorizontalReferencePoint"),
        horizontal_alignment: tag.text("HorizontalAlignment"),
        vertical_reference_point: tag.text("VerticalReferencePoint"),
        vertical_alignment: tag.text("VerticalAlignment"),
    }
}

/// The kind of anchored item that a tag opens.
pub open spec fn anchored_kind(name: Seq<u8>) -> Option<AnchoredFrameKind> {
    if name == encode_utf8("TextFrame"@) {
        Some(AnchoredFrameKind::TextFrame)
    } else if name == encode_utf8("Rectangle"@) {
        Some(AnchoredFrameKind::Rectangle)
    } else if name == encode_utf8("Group"@) {
        Some(AnchoredFrameKind::Group)
    } else {
        None
    }
}

fn anchored_kind_from_name(name: &Vec<u8>) -> (r: Option<AnchoredFrameKind>)
    ensures
        r == anchored_kind(name@),
{
    if name_is(name, "TextFrame") {
        Some(AnchoredFrameKind::TextFrame)
    } else if name_is(name, "Rectangle") {
        Some(AnchoredFrameKind::Rectangle)
    } else if name_is(name, "Group") {
        Some(AnchoredFrameKind::Group)
    } else {
        None
    }
}

/// The box that `s` writes as four numbers: top, left, bottom, right.
pub fn parse_bounds_local(s: &str) -> (r: Option<Bounds>)
    ensures
        r == written_bounds(s@),
{
    parse_bounds(s)
}

/// The anchored item that a tag opens, before anything is known from its
/// children.
pub open spec fn anchored_frame_of(tag: TagView, kind: AnchoredFrameKind) -> AnchoredFrameView {
    AnchoredFrameView {
        frame_kind: kind,
        self_id: tag.text("Self"@),
        bounds: tag.bounds("GeometricBounds"@),
        item_transform: tag.matrix("ItemTransform"@),
        parent_story: if kind == AnchoredFrameKind::TextFrame {
            tag.text("ParentStory"@)
        } else {
            None
        },
        setting: None,
        fill_color: tag.text("FillColor"@),
        stroke_color: tag.text("StrokeColor"@),
        stroke_weight: tag.num("StrokeWeight"@),
        fill_tint: tag.tint("FillTint"@),
        gradient_fill_angle: tag.num("GradientFillAngle"@),
        applied_object_style: tag.text("AppliedObjectStyle"@),
        image_link: None,
        image_item_transform: None,
        children: Seq::empty(),
    }
}

/// Reads it from a tag.
pub fn read_anchored_frame(tag: &Tag, kind: AnchoredFrameKind) -> (r: AnchoredFrame)
    ensures
        r.deep_view() == anchored_frame_of(tag@, kind),
{
    let r = AnchoredFrame {
        frame_kind: kind,
        self_id: tag.text("Self"),
        bounds: tag.bounds("GeometricBounds"),
        item_transform: tag.matrix("ItemTransform"),
        parent_story: if kind == AnchoredFrameKind::TextFrame {
            tag.text("ParentStory")
        } else {
            None
        },
        setting: None,
        fill_color: tag.text("FillColor"),
        stroke_color: tag.text("StrokeColor"),
        stroke_weight: tag.num("StrokeWeight"),
        fill_tint: tag.tint("FillTint"),
        gradient_fill_angle: tag.num("GradientFillAngle"),
        applied_object_style: tag.text("AppliedObjectStyle"),
        image_link: None,
        image_item_transform: None,
        children: Vec::new(),
    };
    proof {
        lemma_anchored_view(r);
        assert(r.deep_view().children =~= Seq::empty());
    }
    r
}

/// The paragraph that a `ParagraphStyleRange` tag opens.
pub open spec fn paragraph_of(tag: TagView) -> ParagraphView {
    ParagraphView {
        paragraph_style: tag.text("AppliedParagraphStyle"@),
        justification: tag.justification(),
        first_line_indent: tag.num("FirstLineIndent"@),
        left_indent: tag.num("LeftIndent"@),
        right_indent: tag.num("RightIndent"@),
        space_before: tag.num("SpaceBefore"@),
        space_after: tag.num("SpaceAfter"@),
        tab_list: Seq::empty(),
        bullets_list_type: tag.text("BulletsAndNumberingListType"@),
        bullet_character: None,
        numbering_format: tag.text("NumberingFormat"@),
        applied_numbering_list: tag.numbering_list(),
        drop_cap_characters: tag.count("DropCapCharacters"@).unwrap_or(0),
        drop_cap_lines: tag.count("DropCapLines"@).unwrap_or(0),
        drop_cap_detail: tag.count("DropCapDetail"@).unwrap_or(0),
        hyphenation: tag.flag("Hyphenation"@),
        keep_lines_together: tag.flag("KeepLinesTogether"@),
        keep_with_next: tag.count("KeepWithNext"@),
        rule_above: paragraph_rule_of(tag, "RuleAbove"@),
        rule_below: paragraph_rule_of(tag, "RuleBelow"@),
        kinsoku_set: tag.text("KinsokuSet"@),
        kinsoku_type: tag.text("KinsokuType"@),
        mojikumi_table: tag.text("MojikumiTable"@),
        mojikumi_set: tag.text("MojikumiSet"@),
        runs: Seq::empty(),
        anchored_frames: Seq::empty(),
        table: None,
        overprint_fill: tag.flag("OverprintFill"@),
        overprint_stroke: tag.flag("OverprintStroke"@),
        footnotes: Seq::empty(),
        index_markers: Seq::empty(),
    }
}

/// Reads it from a tag.
pub fn read_paragraph(tag: &Tag) -> (r: Paragraph)
    ensures
        r.deep_view() == paragraph_of(tag@),
{
    let r = Paragraph {
        paragraph_style: tag.text("AppliedParagraphStyle"),
        justification: tag.justification(),
        first_line_indent: tag.num("FirstLineIndent"),
        left_indent: tag.num("LeftIndent"),
        right_indent: tag.num("RightIndent"),
        space_before: tag.num("SpaceBefore"),
        space_after: tag.num("SpaceAfter"),
        tab_list: Vec::new(),
        bullets_list_type: tag.text("BulletsAndNumberingListType"),
        bullet_character: None,
        numbering_format: tag.text("NumberingFormat"),
        applied_numbering_list: tag.numbering_list(),
        drop_cap_characters: tag.count("DropCapCharacters").unwrap_or(0),
        drop_cap_lines: tag.count("DropCapLines").unwrap_or(0),
        drop_cap_detail: tag.count("DropCapDetail").unwrap_or(0),
        hyphenation: tag.flag("Hyphenation"),
        keep_lines_together: tag.flag("KeepLinesTogether"),
        keep_with_next: tag.count("KeepWithNext"),
        rule_above: read_paragraph_rule(tag, "RuleAbove"),
        rule_below: read_paragraph_rule(tag, "RuleBelow"),
        kinsoku_set: tag.text("KinsokuSet"),
        kinsoku_type: tag.text("KinsokuType"),
        mojikumi_table: tag.text("MojikumiTable"),
        mojikumi_set: tag.text("MojikumiSet"),
        runs: Vec::new(),
        anchored_frames: Vec::new(),
        table: None,
        overprint_fill: tag.flag("OverprintFill"),
        overprint_stroke: tag.flag("OverprintStroke"),
        footnotes: Vec::new(),
        index_markers: Vec::new(),
    };
    proof {
        lemma_paragraph_view(r);
        assert(r.deep_view().anchored_frames =~= Seq::empty());
        assert(r.deep_view().footnotes =~= Seq::empty());
    }
    r
}

/// The run that a `CharacterStyleRange` tag opens, as part of the source
/// `source`.
pub open spec fn run_of(tag: TagView, source: Option<Seq<char>>) -> CharacterRunView {
    CharacterRunView {
        character_style: tag.text("AppliedCharacterStyle"@),
        font: tag.text("AppliedFont"@),
        font_style: tag.text("FontStyle"@),
        point_size: tag.num("PointSize"@),
        fill_color: tag.text("FillColor"@),
        fill_tint: tag.tint("FillTint"@),
        capitalization: tag.text("Capitalization"@),
        baseline_shift: tag.num("BaselineShift"@),
        horizontal_scale: tag.num("HorizontalScale"@),
        vertical_scale: tag.num("VerticalScale"@),
        skew: tag.num("Skew"@),
        position: tag.text("Position"@),
        tracking: tag.num("Tracking"@),
        underline: tag.flag("Underline"@),
        strikethru: tag.flag("StrikeThru"@),
        leading: tag.num("Leading"@),
        ruby_flag: tag.flag("RubyFlag"@),
        ruby_type: tag.text("RubyType"@),
        ruby_string: tag.text("RubyString"@),
        kenten_kind: tag.text("KentenKind"@),
        kenten_character: tag.text("KentenCharacter"@),
        kenten_font_size: tag.num("KentenFontSize"@),
        overprint_fill: tag.flag("OverprintFill"@),
        overprint_stroke: tag.flag("OverprintStroke"@),
        stroke_color: tag.named("StrokeColor"@),
        stroke_weight: tag.num("StrokeWeight"@),
        ligatures_on: tag.flag("Ligatures"@),
        kerning_method: tag.text("KerningMethod"@),
        applied_language: tag.text("AppliedLanguage"@),
        otf_features: None,
        otf: otf_features_of(tag),
        applied_conditions: tag.list("AppliedConditions"@),
        hyperlink_source: source,
        text_variable: None,
        text: Seq::empty(),
    }
}

/// Reads it from a tag.
pub fn read_run(tag: &Tag, source: Option<String>) -> (r: CharacterRun)
    ensures
        r.deep_view() == run_of(tag@, source.deep_view()),
{
    CharacterRun {
        character_style: tag.text("AppliedCharacterStyle"),
        font: tag.text("AppliedFont"),
        font_style: tag.text("FontStyle"),
        point_size: tag.num("PointSize"),
        fill_color: tag.text("FillColor"),
        fill_tint: tag.tint("FillTint"),
        capitalization: tag.text("Capitalization"),
        baseline_shift: tag.num("BaselineShift"),
        horizontal_scale: tag.num("HorizontalScale"),
        vertical_scale: tag.num("VerticalScale"),
        skew: tag.num("Skew"),
        position: tag.text("Position"),
        tracking: tag.num("Tracking"),
        underline: tag.flag("Underline"),
        strikethru: tag.flag("StrikeThru"),
        leading: tag.num("Leading"),
        ruby_flag: tag.flag("RubyFlag"),
        ruby_type: tag.text("RubyType"),
        ruby_string: tag.text("RubyString"),
        kenten_kind: tag.text("KentenKind"),
        kenten_character: tag.text("KentenCharacter"),
        kenten_font_size: tag.num("KentenFontSize"),
        overprint_fill: tag.flag("OverprintFill"),
        overprint_stroke: tag.flag("OverprintStroke"),
        stroke_color: tag.named("StrokeColor"),
        stroke_weight: tag.num("StrokeWeight"),
        ligatures_on: tag.flag("Ligatures"),
        kerning_method: tag.text("KerningMethod"),
        applied_language: tag.text("AppliedLanguage"),
        otf_features: None,
        otf: read_otf_features(tag),
        applied_conditions: tag.list("AppliedConditions"),
        hyperlink_source: source,
        text_variable: None,
        text: String::new(),
    }
}

/// The border that a `Table` tag states.
pub open spec fn table_border_of(tag: TagView) -> TableBorderView {
    TableBorderView {
        top_color: tag.text("TopBorderStrokeColor"@),
        top_type: tag.text("TopBorderStrokeType"@),
        top_weight: tag.num("TopBorderStrokeWeight"@),
        top_tint: tag.tint("TopBorderStrokeTint"@),
        top_gap_color: tag.text("TopBorderStrokeGapColor"@),
        top_gap_tint: tag.tint("TopBorderStrokeGapTint"@),
        bottom_color: tag.text("BottomBorderStrokeColor"@),
        bottom_type: tag.text("BottomBorderStrokeType"@),
        bottom_weight: tag.num("BottomBorderStrokeWeight"@),
        bottom_tint: tag.tint("BottomBorderStrokeTint"@),
        bottom_gap_color: tag.text("BottomBorderStrokeGapColor"@),
        bottom_gap_tint: tag.tint("BottomBorderStrokeGapTint"@),
        left_color: tag.text("LeftBorderStrokeColor"@),
        left_type: tag.text("LeftBorderStrokeType"@),
        left_weight: tag.num("LeftBorderStrokeWeight"@),
        left_tint: tag.tint("LeftBorderStrokeTint"@),
        left_gap_color: tag.text("LeftBorderStrokeGapColor"@),
        left_gap_tint: tag.tint("LeftBorderStrokeGapTint"@),
        right_color: tag.text("RightBorderStrokeColor"@),
        right_type: tag.text("RightBorderStrokeType"@),
        right_weight: tag.num("RightBorderStrokeWeight"@),
        right_tint: tag.tint("RightBorderStrokeTint"@),
        right_gap_color: tag.text("RightBorderStrokeGapColor"@),
        right_gap_tint: tag.tint("RightBorderStrokeGapTint"@),
    }
}

/// Reads it from a tag.
pub fn read_table_border(tag: &Tag) -> (r: TableBorder)
    ensures
        r.deep_view() == table_border_of(tag@),
{
    TableBorder {
        top_color: tag.text("TopBorderStrokeColor"),
        top_type: tag.text("TopBorderStrokeType"),
        top_weight: tag.num("TopBorderStrokeWeight"),
        top_tint: tag.tint("TopBorderStrokeTint"),
        top_gap_color: tag.text("TopBorderStrokeGapColor"),
        top_gap_tint: tag.tint("TopBorderStrokeGapTint"),
        bottom_color: tag.text("BottomBorderStrokeColor"),
        bottom_type: tag.text("BottomBorderStrokeType"),
        bottom_weight: tag.num("BottomBorderStrokeWeight"),
        bottom_tint: tag.tint("BottomBorderStrokeTint"),
        bottom_gap_color: tag.text("BottomBorderStrokeGapColor"),
        bottom_gap_tint: tag.tint("BottomBorderStrokeGapTint"),
        left_color: tag.text("LeftBorderStrokeColor"),
        left_type: tag.text("LeftBorderStrokeType"),
        left_weight: tag.num("LeftBorderStrokeWeight"),
        left_tint: tag.tint("LeftBorderStrokeTint"),
        left_gap_color: tag.text("LeftBorderStrokeGapColor"),
        left_gap_tint: tag.tint("LeftBorderStrokeGapTint"),
        right_color: tag.text("RightBorderStrokeColor"),
        right_type: tag.text("RightBorderStrokeType"),
        right_weight: tag.num("RightBorderStrokeWeight"),
        right_tint: tag.tint("RightBorderStrokeTint"),
        right_gap_color: tag.text("RightBorderStrokeGapColor"),
        right_gap_tint: tag.tint("RightBorderStrokeGapTint"),
    }
}

/// The strokes between rows that a `Table` tag states.
pub open spec fn row_strokes_of(tag: TagView) -> TableLineStrokesView {
    TableLineStrokesView {
        start_count: tag.count("StartRowStrokeCount"@),
        start_color: tag.text("StartRowStrokeColor"@),
        start_type: tag.text("StartRowStrokeType"@),
        start_weight: tag.num("StartRowStrokeWeight"@),
        start_tint: tag.tint("StartRowStrokeTint"@),
        start_gap_color: tag.text("StartRowStrokeGapColor"@),
        start_gap_tint: tag.tint("StartRowStrokeGapTint"@),
        end_count: tag.count("EndRowStrokeCount"@),
        end_color: tag.text("EndRowStrokeColor"@),
        end_type: tag.text("EndRowStrokeType"@),
        end_weight: tag.num("EndRowStrokeWeight"@),
        end_tint: tag.tint("EndRowStrokeTint"@),
        end_gap_color: tag.text("EndRowStrokeGapColor"@),
        end_gap_tint: tag.tint("EndRowStrokeGapTint"@),
    }
}

/// Reads it from a tag.
pub fn read_row_strokes(tag: &Tag) -> (r: TableLineStrokes)
    ensures
        r.deep_view() == row_strokes_of(tag@),
{
    TableLineStrokes {
        start_count: tag.count("StartRowStrokeCount"),
        start_color: tag.text("StartRowStrokeColor"),
        start_type: tag.text("StartRowStrokeType"),
        start_weight: tag.num("StartRowStrokeWeight"),
        start_tint: tag.tint("StartRowStrokeTint"),
        start_gap_color: tag.text("StartRowStrokeGapColor"),
        start_gap_tint: tag.tint("StartRowStrokeGapTint"),
        end_count: tag.count("EndRowStrokeCount"),
        end_color: tag.text("EndRowStrokeColor"),
        end_type: tag.text("EndRowStrokeType"),
        end_weight: tag.num("EndRowStrokeWeight"),
        end_tint: tag.tint("EndRowStrokeTint"),
        end_gap_color: tag.text("EndRowStrokeGapColor"),
        end_gap_tint: tag.tint("EndRowStrokeGapTint"),
    }
}

/// The strokes between columns that a `Table` tag states.
pub open spec fn column_strokes_of(tag: TagView) -> TableLineStrokesView {
    TableLineStrokesView {
        start_count: tag.count("StartColumnStrokeCount"@),
        start_color: tag.text("StartColumnStrokeColor"@),
        start_type: tag.text("StartColumnStrokeType"@),
        start_weight: tag.num("StartColumnStrokeWeight"@),
        start_tint: tag.tint("StartColumnStrokeTint"@),
        start_gap_color: tag.text("StartColumnStrokeGapColor"@),
        start_gap_tint: tag.tint("StartColumnStrokeGapTint"@),
        end_count: tag.count("EndColumnStrokeCount"@),
        end_color: tag.text("EndColumnStrokeColor"@),
        end_type: tag.text("EndColumnStrokeType"@),
        end_weight: tag.num("EndColumnStrokeWeight"@),
        end_tint: tag.tint("EndColumnStrokeTint"@),
        end_gap_color: tag.text("EndColumnStrokeGapColor"@),
        end_gap_tint: tag.tint("EndColumnStrokeGapTint"@),
    }
}

/// Reads it from a tag.
pub fn read_column_strokes(tag: &Tag) -> (r: TableLineStrokes)
    ensures
        r.deep_view() == column_strokes_of(tag@),
{
    TableLineStrokes {
        start_count: tag.count("StartColumnStrokeCount"),
        start_color: tag.text("StartColumnStrokeColor"),
        start_type: tag.text("StartColumnStrokeType"),
        start_weight: tag.num("StartColumnStrokeWeight"),
        start_tint: tag.tint("StartColumnStrokeTint"),
        start_gap_color: tag.text("StartColumnStrokeGapColor"),
        start_gap_tint: tag.tint("StartColumnStrokeGapTint"),
        end_count: tag.count("EndColumnStrokeCount"),
        end_color: tag.text("EndColumnStrokeColor"),
        end_type: tag.text("EndColumnStrokeType"),
        end_weight: tag.num("EndColumnStrokeWeight"),
        end_tint: tag.tint("EndColumnStrokeTint"),
        end_gap_color: tag.text("EndColumnStrokeGapColor"),
        end_gap_tint: tag.tint("EndColumnStrokeGapTint"),
    }
}

/// The table that a `Table` tag opens.
pub open spec fn table_of(tag: TagView) -> TableView {
    TableView {
        self_id: tag.text("Self"@),
        header_row_count: tag.count("HeaderRowCount"@).unwrap_or(0),
        footer_row_count: tag.count("FooterRowCount"@).unwrap_or(0),
        body_row_count: tag.count("BodyRowCount"@).unwrap_or(0),
        column_count: tag.count("ColumnCount"@).unwrap_or(0),
        repeating_header: tag.flag("RepeatingHeader"@),
        repeating_footer: tag.flag("RepeatingFooter"@),
        applied_table_style: tag.text("AppliedTableStyle"@),
        rows: Seq::empty(),
        columns: Seq::empty(),
        cells: Seq::empty(),
        border: table_border_of(tag),
        row_strokes: row_strokes_of(tag),
        column_strokes: column_strokes_of(tag),
    }
}

/// Reads it from a tag.
pub fn read_table(tag: &Tag) -> (r: Table)
    ensures
        r.deep_view() == table_of(tag@),
{
    let r = Table {
        self_id: tag.text("Self"),
        header_row_count: tag.count("HeaderRowCount").unwrap_or(0),
        footer_row_count: tag.count("FooterRowCount").unwrap_or(0),
        body_row_count: tag.count("BodyRowCount").unwrap_or(0),
        column_count: tag.count("ColumnCount").unwrap_or(0),
        repeating_header: tag.flag("RepeatingHeader"),
        repeating_footer: tag.flag("RepeatingFooter"),
        applied_table_style: tag.text("AppliedTableStyle"),
        rows: Vec::new(),
        columns: Vec::new(),
        cells: Vec::new(),
        border: read_table_border(tag),
        row_strokes: read_row_strokes(tag),
        column_strokes: read_column_strokes(tag),
    };
    proof {
        lemma_table_view(r);
        assert(r.deep_view().cells =~= Seq::empty());
    }
    r
}

/// The diagonal lines that a `Cell` tag states.
pub open spec fn diagonal_of(tag: TagView) -> CellDiagonalView {
    CellDiagonalView {
        left_line_drawn: tag.flag("LeftLineDrawn"@),
        left_line_color: tag.text("LeftLineStrokeColor"@),
        left_line_weight: tag.num("LeftLineStrokeWeight"@),
        left_line_tint: tag.tint("LeftLineStrokeTint"@),
        right_line_drawn: tag.flag("RightLineDrawn"@),
        right_line_color: tag.text("RightLineStrokeColor"@),
        right_line_weight: tag.num("RightLineStrokeWeight"@),
        right_line_tint: tag.tint("RightLineStrokeTint"@),
        diagonal_in_front: tag.flag("DiagonalLineInFront"@),
    }
}

/// Reads it from a tag.
pub fn read_diagonal(tag: &Tag) -> (r: CellDiagonal)
    ensures
        r.deep_view() == diagonal_of(tag@),
{
    CellDiagonal {
        left_line_drawn: tag.flag("LeftLineDrawn"),
        left_line_color: tag.text("LeftLineStrokeColor"),
        left_line_weight: tag.num("LeftLineStrokeWeight"),
        left_line_tint: tag.tint("LeftLineStrokeTint"),
        right_line_drawn: tag.flag("RightLineDrawn"),
        right_line_color: tag.text("RightLineStrokeColor"),
        right_line_weight: tag.num("RightLineStrokeWeight"),
        right_line_tint: tag.tint("RightLineStrokeTint"),
        diagonal_in_front: tag.flag("DiagonalLineInFront"),
    }
}

/// The cell that a `Cell` tag opens.
pub open spec fn cell_of(tag: TagView) -> TableCellView {
    TableCellView {
        self_id: tag.text("Self"@),
        name: tag.text("Name"@),
        row_span: tag.count("RowSpan"@).unwrap_or(1),
        column_span: tag.count("ColumnSpan"@).unwrap_or(1),
        text_top_inset: tag.num("TextTopInset"@).unwrap_or(zero()),
        text_left_inset: tag.num("TextLeftInset"@).unwrap_or(zero()),
        text_bottom_inset: tag.num("TextBottomInset"@).unwrap_or(zero()),
        text_right_inset: tag.num("TextRightInset"@).unwrap_or(zero()),
        applied_cell_style: tag.text("AppliedCellStyle"@),
        top_edge_stroke_color: tag.text("TopEdgeStrokeColor"@),
        top_edge_stroke_weight: tag.num("TopEdgeStrokeWeight"@),
        top_edge_stroke_tint: tag.tint("TopEdgeStrokeTint"@),
        bottom_edge_stroke_color: tag.text("BottomEdgeStrokeColor"@),
        bottom_edge_stroke_weight: tag.num("BottomEdgeStrokeWeight"@),
        bottom_edge_stroke_tint: tag.tint("BottomEdgeStrokeTint"@),
        left_edge_stroke_color: tag.text("LeftEdgeStrokeColor"@),
        left_edge_stroke_weight: tag.num("LeftEdgeStrokeWeight"@),
        left_edge_stroke_tint: tag.tint("LeftEdgeStrokeTint"@),
        right_edge_stroke_color: tag.text("RightEdgeStrokeColor"@),
        right_edge_stroke_weight: tag.num("RightEdgeStrokeWeight"@),
        right_edge_stroke_tint: tag.tint("RightEdgeStrokeTint"@),
        fill_color: tag.text("FillColor"@),
        first_baseline_offset: tag.text("FirstBaselineOffset"@),
        minimum_first_baseline_offset: tag.num("MinimumFirstBaselineOffset"@),
        diagonal: diagonal_of(tag),
        rotation_angle: tag.num("RotationAngle"@),
        vertical_justification: tag.text("VerticalJustification"@),
        paragraphs: Seq::empty(),
    }
}

/// Reads it from a tag.
pub fn read_cell(tag: &Tag) -> (r: TableCell)
    ensures
        r.deep_view() == cell_of(tag@),
{
    let r = TableCell {
        self_id: tag.text("Self"),
        name: tag.text("Name"),
        row_span: tag.count("RowSpan").unwrap_or(1),
        column_span: tag.count("ColumnSpan").unwrap_or(1),
        text_top_inset: tag.num("TextTopInset").unwrap_or(Num::zero()),
        text_left_inset: tag.num("TextLeftInset").unwrap_or(Num::zero()),
        text_bottom_inset: tag.num("TextBottomInset").unwrap_or(Num::zero()),
        text_right_inset: tag.num("TextRightInset").unwrap_or(Num::zero()),
        applied_cell_style: tag.text("AppliedCellStyle"),
        top_edge_stroke_color: tag.text("TopEdgeStrokeColor"),
        top_edge_stroke_weight: tag.num("TopEdgeStrokeWeight"),
        top_edge_stroke_tint: tag.tint("TopEdgeStrokeTint"),
        bottom_edge_stroke_color: tag.text("BottomEdgeStrokeColor"),
        bottom_edge_stroke_weight: tag.num("BottomEdgeStrokeWeight"),
        bottom_edge_stroke_tint: tag.tint("BottomEdgeStrokeTint"),
        left_edge_stroke_color: tag.text("LeftEdgeStrokeColor"),
        left_edge_stroke_weight: tag.num("LeftEdgeStrokeWeight"),
        left_edge_stroke_tint: tag.tint("LeftEdgeStrokeTint"),
        right_edge_stroke_color: tag.text("RightEdgeStrokeColor"),
        right_edge_stroke_weight: tag.num("RightEdgeStrokeWeight"),
        right_edge_stroke_tint: tag.tint("RightEdgeStrokeTint"),
        fill_color: tag.text("FillColor"),
        first_baseline_offset: tag.text("FirstBaselineOffset"),
        minimum_first_baseline_offset: tag.num("MinimumFirstBaselineOffset"),
        diagonal: read_diagonal(tag),
        rotation_angle: tag.num("RotationAngle"),
        vertical_justification: tag.text("VerticalJustification"),
        paragraphs: Vec::new(),
    };
    proof {
        lemma_cell_view(r);
        assert(r.deep_view().paragraphs =~= Seq::empty());
    }
    r
}

/// The row that a `Row` tag states.
pub open spec fn row_of(tag: TagView) -> TableRowView {
    TableRowView {
        self_id: tag.text("Self"@),
        name: tag.text("Name"@),
        single_row_height: tag.num("SingleRowHeight"@),
        minimum_height: tag.num("MinimumHeight"@),
        maximum_height: tag.num("MaximumHeight"@),
    }
}

/// Reads it from a tag.
pub fn read_row(tag: &Tag) -> (r: TableRow)
    ensures
        r.deep_view() == row_of(tag@),
{
    TableRow {
        self_id: tag.text("Self"),
        name: tag.text("Name"),
        single_row_height: tag.num("SingleRowHeight"),
        minimum_height: tag.num("MinimumHeight"),
        maximum_height: tag.num("MaximumHeight"),
    }
}

/// The column that a `Column` tag states.
pub open spec fn column_of(tag: TagView) -> TableColumnView {
    TableColumnView {
        self_id: tag.text("Self"@),
        name: tag.text("Name"@),
        single_column_width: tag.num("SingleColumnWidth"@),
    }
}

/// Reads it from a tag.
pub fn read_column(tag: &Tag) -> (r: TableColumn)
    ensures
        r.deep_view() == column_of(tag@),
{
    TableColumn {
        self_id: tag.text("Self"),
        name: tag.text("Name"),
        single_column_width: tag.num("SingleColumnWidth"),
    }
}

/// The mark that the tag of an index mark states: under the name of its topic,
/// or else under the identifier of the topic. With neither there is none.
pub open spec fn marker_of(tag: TagView) -> Option<IndexMarkerView> {
    match either(tag.text("TopicName"@), tag.text("AppliedTopic"@)) {
        None => None,
        Some(topic_name) => Some(
            IndexMarkerView {
                topic_name,
                applied_topic: tag.text("AppliedTopic"@),
                sort_order: tag.text("SortOrder"@),
            },
        ),
    }
}

/// Reads it from a tag.
pub fn parse_index_marker(tag: &Tag) -> (r: Option<IndexMarker>)
    ensures
        r.deep_view() == marker_of(tag@),
{
    match first_of(tag.text("TopicName"), tag.text("AppliedTopic")) {
        None => None,
        Some(topic_name) => Some(
            IndexMarker {
                topic_name,
                applied_topic: tag.text("AppliedTopic"),
                sort_order: tag.text("SortOrder"),
            },
        ),
    }
}

impl ParagraphView {
    /// The paragraph with a run added.
    pub open spec fn with_run(self, run: CharacterRunView) -> ParagraphView {
        ParagraphView { runs: self.runs.push(run), ..self }
    }
}

impl Paragraph {
    fn put_run(&mut self, run: CharacterRun)
        ensures
            final(self).deep_view() == old(self).deep_view().with_run(run.deep_view()),
    {
        proof {
            lemma_paragraph_view(*self);
        }
        push_item(&mut self.runs, run);
        proof {
            lemma_paragraph_view(*self);
        }
    }
}

impl ParagraphView {
    /// The paragraph with an anchored item added.
    pub open spec fn with_anchored(self, frame: AnchoredFrameView) -> ParagraphView {
        ParagraphView { anchored_frames: self.anchored_frames.push(frame), ..self }
    }
}

impl Paragraph {
    fn put_anchored(&mut self, frame: AnchoredFrame)
        ensures
            final(self).deep_view() == old(self).deep_view().with_anchored(frame.deep_view()),
    {
        proof {
            lemma_paragraph_view(*self);
        }
        push_item(&mut self.anchored_frames, frame);
        proof {
            lemma_paragraph_view(*self);
        }
    }
}

impl ParagraphView {
    /// The paragraph with its table replaced.
    pub open spec fn with_table(self, table: TableView) -> ParagraphView {
        ParagraphView { table: Some(table), ..self }
    }
}

impl Paragraph {
    fn put_table(&mut self, table: Table)
        ensures
            final(self).deep_view() == old(self).deep_view().with_table(table.deep_view()),
    {
        proof {
            lemma_paragraph_view(*self);
        }
        self.table = Some(table);
        proof {
            lemma_paragraph_view(*self);
        }
    }
}

impl ParagraphView {
    /// The paragraph with a footnote added.
    pub open spec fn with_footnote(self, note: FootnoteView) -> ParagraphView {
        ParagraphView { footnotes: self.footnotes.push(note), ..self }
    }
}

impl Paragraph {
    fn put_footnote(&mut self, note: Footnote)
        ensures
            final(self).deep_view() == old(self).deep_view().with_footnote(note.deep_view()),
    {
        proof {
            lemma_paragraph_view(*self);
        }
        push_item(&mut self.footnotes, note);
        proof {
            lemma_paragraph_view(*self);
        }
    }
}

impl ParagraphView {
    /// The paragraph with an index mark added.
    pub open spec fn with_marker(self, marker: IndexMarkerView) -> ParagraphView {
        ParagraphView { index_markers: self.index_markers.push(marker), ..self }
    }
}

impl Paragraph {
    fn put_marker(&mut self, marker: IndexMarker)
        ensures
            final(self).deep_view() == old(self).deep_view().with_marker(marker.deep_view()),
    {
        proof {
            lemma_paragraph_view(*self);
        }
        push_item(&mut self.index_markers, marker);
        proof {
            lemma_paragraph_view(*self);
        }
    }
}

impl ParagraphView {
    /// The paragraph with a tab stop added.
    pub open spec fn with_tab_stop(self, stop: TabStopView) -> ParagraphView {
        ParagraphView { tab_list: self.tab_list.push(stop), ..self }
    }
}

impl Paragraph {
    fn put_tab_stop(&mut self, stop: TabStop)
        ensures
            final(self).deep_view() == old(self).deep_view().with_tab_stop(stop.deep_view()),
    {
        proof {
            lemma_paragraph_view(*self);
        }
        push_item(&mut self.tab_list, stop);
        proof {
            lemma_paragraph_view(*self);
        }
    }
}

impl ParagraphView {
    /// The paragraph with its bullet replaced.
    pub open spec fn with_bullet(self, bullet: u32) -> ParagraphView {
        ParagraphView { bullet_character: Some(bullet), ..self }
    }
}

impl Paragraph {
    fn put_bullet(&mut self, bullet: u32)
        ensures
            final(self).deep_view() == old(self).deep_view().with_bullet(bullet),
    {
        proof {
            lemma_paragraph_view(*self);
        }
        self.bullet_character = Some(bullet);
        proof {
            lemma_paragraph_view(*self);
        }
    }
}

impl TableCellView {
    /// The cell with a paragraph added.
    pub open spec fn with_paragraph(self, paragraph: ParagraphView) -> TableCellView {
        TableCellView { paragraphs: self.paragraphs.push(paragraph), ..self }
    }
}

impl TableCell {
    fn put_paragraph(&mut self, paragraph: Paragraph)
        ensures
            final(self).deep_view() == old(self).deep_view().with_paragraph(paragraph.deep_view()),
    {
        proof {
            lemma_cell_view(*self);
        }
        push_item(&mut self.paragraphs, paragraph);
        proof {
            lemma_cell_view(*self);
        }
    }
}

impl FootnoteView {
    /// The footnote with a paragraph added.
    pub open spec fn with_paragraph(self, paragraph: ParagraphView) -> FootnoteView {
        FootnoteView { paragraphs: self.paragraphs.push(paragraph), ..self }
    }
}

impl Footnote {
    fn put_paragraph(&mut self, paragraph: Paragraph)
        ensures
            final(self).deep_view() == old(self).deep_view().with_paragraph(paragraph.deep_view()),
    {
        proof {
            lemma_footnote_view(*self);
        }
        push_item(&mut self.paragraphs, paragraph);
        proof {
            lemma_footnote_view(*self);
        }
    }
}

impl TableView {
    /// The table with a row added.
    pub open spec fn with_row(self, row: TableRowView) -> TableView {
        TableView { rows: self.rows.push(row), ..self }
    }
}

impl Table {
    fn put_row(&mut self, row: TableRow)
        ensures
            final(self).deep_view() == old(self).deep_view().with_row(row.deep_view()),
    {
        proof {
            lemma_table_view(*self);
        }
        push_item(&mut self.rows, row);
        proof {
            lemma_table_view(*self);
        }
    }
}

impl TableView {
    /// The table with a column added.
    pub open spec fn with_column(self, column: TableColumnView) -> TableView {
        TableView { columns: self.columns.push(column), ..self }
    }
}

impl Table {
    fn put_column(&mut self, column: TableColumn)
        ensures
            final(self).deep_view() == old(self).deep_view().with_column(column.deep_view()),
    {
        proof {
            lemma_table_view(*self);
        }
        push_item(&mut self.columns, column);
        proof {
            lemma_table_view(*self);
        }
    }
}

impl TableView {
    /// The table with a cell added.
    pub open spec fn with_cell(self, cell: TableCellView) -> TableView {
        TableView { cells: self.cells.push(cell), ..self }
    }
}

impl Table {
    fn put_cell(&mut self, cell: TableCell)
        ensures
            final(self).deep_view() == old(self).deep_view().with_cell(cell.deep_view()),
    {
        proof {
            lemma_table_view(*self);
        }
        push_item(&mut self.cells, cell);
        proof {
            lemma_table_view(*self);
        }
    }
}

impl AnchoredFrameView {
    /// The item with another inside it.
    pub open spec fn with_child(self, child: AnchoredFrameView) -> AnchoredFrameView {
        AnchoredFrameView { children: self.children.push(child), ..self }
    }
}

impl AnchoredFrame {
    fn put_child(&mut self, child: AnchoredFrame)
        ensures
            final(self).deep_view() == old(self).deep_view().with_child(child.deep_view()),
    {
        proof {
            lemma_anchored_view(*self);
        }
        push_item(&mut self.children, child);
        proof {
            lemma_anchored_view(*self);
        }
    }
}

impl AnchoredFrameView {
    /// The item with its setting replaced by what a tag states.
    pub open spec fn with_setting(self, tag: TagView) -> AnchoredFrameView {
        AnchoredFrameView { setting: Some(anchored_setting_of(tag)), ..self }
    }
}

impl AnchoredFrame {
    fn put_setting(&mut self, tag: &Tag)
        ensures
            final(self).deep_view() == old(self).deep_view().with_setting(tag@),
    {
        proof {
            lemma_anchored_view(*self);
        }
        self.setting = Some(read_anchored_setting(tag));
        proof {
            lemma_anchored_view(*self);
        }
    }
}

impl AnchoredFrameView {
    /// The item with its box replaced.
    pub open spec fn with_bounds(self, bounds: Bounds) -> AnchoredFrameView {
        AnchoredFrameView { bounds: Some(bounds), ..self }
    }
}

impl AnchoredFrame {
    fn put_bounds(&mut self, bounds: Bounds)
        ensures
            final(self).deep_view() == old(self).deep_view().with_bounds(bounds),
    {
        proof {
            lemma_anchored_view(*self);
        }
        self.bounds = Some(bounds);
        proof {
            lemma_anchored_view(*self);
        }
    }
}

impl AnchoredFrameView {
    /// The item with what the tag of an image or of its link states. What was stated first stays.
    pub open spec fn with_image(self, tag: TagView) -> AnchoredFrameView {
        AnchoredFrameView {
            image_link: either(
                self.image_link,
                either(tag.text("LinkResourceURI"@), tag.text("href"@)),
            ),
            image_item_transform: either(
                self.image_item_transform,
                if tag.is("Image"@) { tag.matrix("ItemTransform"@) } else { None },
            ),
            ..self
        }
    }
}

impl AnchoredFrame {
    fn put_image(&mut self, tag: &Tag)
        ensures
            final(self).deep_view() == old(self).deep_view().with_image(tag@),
    {
        proof {
            lemma_anchored_view(*self);
        }
        if self.image_link.is_none() {
            self.image_link = first_of(tag.text("LinkResourceURI"), tag.text("href"));
        }
        if tag.is("Image") && self.image_item_transform.is_none() {
            self.image_item_transform = tag.matrix("ItemTransform");
        }
        proof {
            lemma_anchored_view(*self);
        }
    }
}

impl CharacterRunView {
    /// The run with its text replaced.
    pub open spec fn with_text(self, text: Seq<char>) -> CharacterRunView {
        CharacterRunView { text, ..self }
    }
}

impl CharacterRun {
    fn put_text(&mut self, text: String)
        ensures
            final(self).deep_view() == old(self).deep_view().with_text(text@),
    {
        self.text = text;
    }
}

impl CharacterRunView {
    /// The run with the variable whose value it shows replaced.
    pub open spec fn with_text_variable(self, variable: Option<Seq<char>>) -> CharacterRunView {
        CharacterRunView { text_variable: variable, ..self }
    }
}

impl CharacterRun {
    fn put_text_variable(&mut self, variable: Option<String>)
        ensures
            final(self).deep_view() == old(self).deep_view().with_text_variable(
                variable.deep_view(),
            ),
    {
        self.text_variable = variable;
    }
}

impl CharacterRunView {
    /// The run with its font replaced.
    pub open spec fn with_font(self, font: Seq<char>) -> CharacterRunView {
        CharacterRunView { font: Some(font), ..self }
    }
}

impl CharacterRun {
    fn put_font(&mut self, font: String)
        ensures
            final(self).deep_view() == old(self).deep_view().with_font(font@),
    {
        self.font = Some(font);
    }
}

impl CharacterRunView {
    /// The run with its font style replaced.
    pub open spec fn with_font_style(self, style: Seq<char>) -> CharacterRunView {
        CharacterRunView { font_style: Some(style), ..self }
    }
}

impl CharacterRun {
    fn put_font_style(&mut self, style: String)
        ensures
            final(self).deep_view() == old(self).deep_view().with_font_style(style@),
    {
        self.font_style = Some(style);
    }
}

impl CharacterRunView {
    /// The run with its leading replaced.
    pub open spec fn with_leading(self, leading: Num) -> CharacterRunView {
        CharacterRunView { leading: Some(leading), ..self }
    }
}

impl CharacterRun {
    fn put_leading(&mut self, leading: Num)
        ensures
            final(self).deep_view() == old(self).deep_view().with_leading(leading),
    {
        self.leading = Some(leading);
    }
}

impl CharacterRunView {
    /// The run with a character added to its text.
    pub open spec fn with_char(self, c: char) -> CharacterRunView {
        CharacterRunView { text: self.text.push(c), ..self }
    }
}

impl CharacterRun {
    fn put_char(&mut self, c: char)
        ensures
            final(self).deep_view() == old(self).deep_view().with_char(c),
    {
        self.text.push(c);
    }
}

impl TableContextView {
    /// The open table with what waits outside its cell replaced.
    pub open spec fn with_outer(
        self,
        paragraph: Option<ParagraphView>,
        run: Option<CharacterRunView>,
    ) -> TableContextView {
        TableContextView { outer_paragraph: paragraph, outer_run: run, ..self }
    }
}

impl TableContext {
    fn put_outer(&mut self, paragraph: Option<Paragraph>, run: Option<CharacterRun>)
        ensures
            final(self).deep_view() == old(self).deep_view().with_outer(
                paragraph.deep_view(),
                run.deep_view(),
            ),
    {
        self.outer_paragraph = paragraph;
        self.outer_run = run;
    }
}

impl TableContextView {
    /// The open table with a row added.
    pub open spec fn with_row(self, row: TableRowView) -> TableContextView {
        TableContextView { table: self.table.with_row(row), ..self }
    }
}

impl TableContext {
    fn put_row(&mut self, row: TableRow)
        ensures
            final(self).deep_view() == old(self).deep_view().with_row(row.deep_view()),
    {
        self.table.put_row(row);
    }
}

impl TableContextView {
    /// The open table with a column added.
    pub open spec fn with_column(self, column: TableColumnView) -> TableContextView {
        TableContextView { table: self.table.with_column(column), ..self }
    }
}

impl TableContext {
    fn put_column(&mut self, column: TableColumn)
        ensures
            final(self).deep_view() == old(self).deep_view().with_column(column.deep_view()),
    {
        self.table.put_column(column);
    }
}

impl TableContextView {
    /// The open table with a cell added.
    pub open spec fn with_cell(self, cell: TableCellView) -> TableContextView {
        TableContextView { table: self.table.with_cell(cell), ..self }
    }
}

impl TableContext {
    fn put_cell(&mut self, cell: TableCell)
        ensures
            final(self).deep_view() == old(self).deep_view().with_cell(cell.deep_view()),
    {
        self.table.put_cell(cell);
    }
}

impl FootnoteContextView {
    /// The open footnote with a paragraph added.
    pub open spec fn with_paragraph(self, paragraph: ParagraphView) -> FootnoteContextView {
        FootnoteContextView { footnote: self.footnote.with_paragraph(paragraph), ..self }
    }
}

impl FootnoteContext {
    fn put_paragraph(&mut self, paragraph: Paragraph)
        ensures
            final(self).deep_view() == old(self).deep_view().with_paragraph(paragraph.deep_view()),
    {
        self.footnote.put_paragraph(paragraph);
    }
}

/// The two numbers that the attribute `Anchor` lists, where it lists two.
pub open spec fn anchor_of(tag: TagView) -> Option<Point> {
    match tag.text("Anchor"@) {
        None => None,
        Some(s) => {
            let n = numbers(s, false);
            if n.len() == 2 {
                Some((n[0], n[1]))
            } else {
                None
            }
        },
    }
}

fn read_anchor(tag: &Tag) -> (r: Option<Point>)
    ensures
        r == anchor_of(tag@),
{
    match tag.text("Anchor") {
        None => None,
        Some(s) => {
            let n: Vec<Num> = parse_numbers(s.as_str(), false);
            if n.len() == 2 {
                Some((n[0], n[1]))
            } else {
                None
            }
        },
    }
}

/// The box of an anchored item after a point of its path: a box that the item's
/// tag stated stays, another grows to hold the point.
pub open spec fn grown(bounds: Option<Bounds>, from_path: bool, p: Point) -> Bounds {
    match bounds {
        None => Bounds { top: p.1, left: p.0, bottom: p.1, right: p.0 },
        Some(b) => if from_path {
            Bounds {
                top: lesser(b.top, p.1),
                left: lesser(b.left, p.0),
                bottom: greater(b.bottom, p.1),
                right: greater(b.right, p.0),
            }
        } else {
            b
        },
    }
}

fn grow(bounds: Option<Bounds>, from_path: bool, p: Point) -> (r: Bounds)
    ensures
        r == grown(bounds, from_path, p),
{
    match bounds {
        None => Bounds { top: p.1, left: p.0, bottom: p.1, right: p.0 },
        Some(b) => if from_path {
            Bounds {
                top: b.top.lesser(p.1),
                left: b.left.lesser(p.0),
                bottom: b.bottom.greater(p.1),
                right: b.right.greater(p.0),
            }
        } else {
            b
        },
    }
}

/// `s` with its last element replaced.
pub open spec fn with_last<T>(s: Seq<T>, x: T) -> Seq<T> {
    if s.len() > 0 {
        s.update(s.len() - 1, x)
    } else {
        s
    }
}

/// `st` after a `PathPointType` tag inside an anchored item.
pub open spec fn after_path_point(st: ProgressView, tag: TagView) -> ProgressView {
    match anchor_of(tag) {
        Some(p) if st.anchored.len() > 0 && st.from_path.len() > 0 => {
            let top = st.anchored.last();
            ProgressView {
                anchored: with_last(
                    st.anchored,
                    top.with_bounds(grown(top.bounds, st.from_path.last(), p)),
                ),
                from_path: if top.bounds is None {
                    with_last(st.from_path, true)
                } else {
                    st.from_path
                },
                ..st
            }
        },
        _ => st,
    }
}

fn anchored_extend_path_bounds(st: &mut Progress, tag: &Tag)
    ensures
        final(st)@ == after_path_point(old(st)@, tag@),
{
    let n: usize = st.anchored.len();
    let m: usize = st.from_path.len();
    if n > 0 && m > 0 {
        if let Some(p) = read_anchor(tag) {
            proof {
                assert(st.anchored.deep_view().last() == st.anchored@[n - 1].deep_view());
            }
            let before: Option<Bounds> = st.anchored[n - 1].bounds;
            let now: Bounds = grow(before, st.from_path[m - 1], p);
            item_at(&mut st.anchored, n - 1).put_bounds(now);
            if before.is_none() {
                st.from_path.set(m - 1, true);
            }
        }
    }
}

/// `st` with another anchored item opened.
pub open spec fn with_anchored(st: ProgressView, frame: AnchoredFrameView) -> ProgressView {
    ProgressView {
        anchored: st.anchored.push(frame),
        from_path: st.from_path.push(frame.bounds is None),
        ..st
    }
}

fn open_anchored(st: &mut Progress, frame: AnchoredFrame)
    ensures
        final(st)@ == with_anchored(old(st)@, frame.deep_view()),
{
    st.from_path.push(frame.bounds.is_none());
    push_item(&mut st.anchored, frame);
}

/// `st` with the innermost anchored item closed: it goes into the item round it,
/// or onto the paragraph.
pub open spec fn without_anchored(st: ProgressView) -> ProgressView {
    let flags = popped(st.from_path);
    if st.anchored.len() == 0 {
        ProgressView { from_path: flags, ..st }
    } else {
        let frame = st.anchored.last();
        let rest = st.anchored.drop_last();
        if rest.len() > 0 {
            ProgressView {
                from_path: flags,
                anchored: with_last(rest, rest.last().with_child(frame)),
                ..st
            }
        } else {
            ProgressView {
                from_path: flags,
                anchored: rest,
                paragraph: match st.paragraph {
                    None => None,
                    Some(p) => Some(p.with_anchored(frame)),
                },
                ..st
            }
        }
    }
}

fn finalise_anchored_top(st: &mut Progress)
    ensures
        final(st)@ == without_anchored(old(st)@),
{
    let ghost before = st@;
    let ignored = st.from_path.pop();
    assert(st.from_path@ =~= popped(before.from_path));
    if let Some(frame) = st.anchored.pop() {
        assert(before.anchored.last() == frame.deep_view());
        assert(st.anchored.deep_view() =~= before.anchored.drop_last());
        let n: usize = st.anchored.len();
        if n > 0 {
            assert(st.anchored.deep_view().last() == st.anchored@[n - 1].deep_view());
            item_at(&mut st.anchored, n - 1).put_child(frame);
        } else if let Some(p) = st.paragraph.take() {
            let mut p: Paragraph = p;
            p.put_anchored(frame);
            st.paragraph = Some(p);
        }
    } else {
        assert(st.anchored.deep_view() =~= before.anchored);
    }
}

/// `st` after a tag inside an anchored item, apart from how deep it leads.
#[verifier::opaque]
pub open spec fn after_anchored_tag(st: ProgressView, tag: TagView) -> ProgressView {
    match anchored_kind(tag.name) {
        Some(kind) => if tag.empty {
            without_anchored(with_anchored(st, anchored_frame_of(tag, kind)))
        } else {
            with_anchored(st, anchored_frame_of(tag, kind))
        },
        None => if tag.is("AnchoredObjectSetting"@) {
            ProgressView {
                anchored: with_last(st.anchored, st.anchored.last().with_setting(tag)),
                ..st
            }
        } else if tag.is("Image"@) || tag.is("Link"@) {
            ProgressView {
                anchored: with_last(st.anchored, st.anchored.last().with_image(tag)),
                ..st
            }
        } else if tag.is("PathPointType"@) {
            after_path_point(st, tag)
        } else {
            st
        },
    }
}

fn on_anchored_tag(st: &mut Progress, tag: &Tag)
    ensures
        final(st)@ == after_anchored_tag(old(st)@, tag@),
{
    proof {
        reveal(after_anchored_tag);
    }
    if let Some(kind) = anchored_kind_from_name(&tag.name) {
        open_anchored(st, read_anchored_frame(tag, kind));
        if tag.empty {
            finalise_anchored_top(st);
        }
    } else if tag.is("AnchoredObjectSetting") {
        let n: usize = st.anchored.len();
        if n > 0 {
            assert(st.anchored.deep_view().last() == st.anchored@[n - 1].deep_view());
            item_at(&mut st.anchored, n - 1).put_setting(tag);
        }
    } else if tag.is("Image") || tag.is("Link") {
        let n: usize = st.anchored.len();
        if n > 0 {
            assert(st.anchored.deep_view().last() == st.anchored@[n - 1].deep_view());
            item_at(&mut st.anchored, n - 1).put_image(tag);
        }
    } else if tag.is("PathPointType") {
        anchored_extend_path_bounds(st, tag);
    }
}

/// `out` with what a `StoryPreference` tag states.
pub open spec fn with_story_preference(out: StoryView, tag: TagView) -> StoryView {
    StoryView {
        optical_margin_alignment: tag.flag("OpticalMarginAlignment"@).unwrap_or(
            out.optical_margin_alignment,
        ),
        optical_margin_size: tag.num("OpticalMarginSize"@).unwrap_or(out.optical_margin_size),
        ..out
    }
}

fn on_story_preference(out: &mut Story, tag: &Tag)
    ensures
        final(out).deep_view() == with_story_preference(old(out).deep_view(), tag@),
{
    out.optical_margin_alignment = tag.flag("OpticalMarginAlignment").unwrap_or(
        out.optical_margin_alignment,
    );
    out.optical_margin_size = tag.num("OpticalMarginSize").unwrap_or(out.optical_margin_size);
}

/// Whether a tag opens the source of a link or of a reference.
pub open spec fn is_source(name: Seq<u8>) -> bool {
    name == encode_utf8("HyperlinkTextSource"@) || name == encode_utf8("CrossReferenceSource"@)
}

fn test_source(name: &Vec<u8>) -> (r: bool)
    ensures
        r == is_source(name@),
{
    name_is(name, "HyperlinkTextSource") || name_is(name, "CrossReferenceSource")
}

/// `st` after an opening tag that opens a table, a cell or a footnote.
#[verifier::opaque]
pub open spec fn after_block_start(st: ProgressView, tag: TagView) -> ProgressView {
    if tag.is("Table"@) {
        ProgressView {
            tables: st.tables.push(
                TableContextView {
                    table: table_of(tag),
                    outer_paragraph: None,
                    outer_run: None,
                    outer_cell: st.cell,
                },
            ),
            cell: None,
            ..st
        }
    } else if tag.is("Footnote"@) {
        ProgressView {
            footnotes: st.footnotes.push(
                FootnoteContextView {
                    footnote: FootnoteView {
                        self_id: tag.text("Self"@),
                        paragraphs: Seq::empty(),
                    },
                    outer_paragraph: st.paragraph,
                    outer_run: st.run,
                },
            ),
            paragraph: None,
            run: None,
            ..st
        }
    } else if st.tables.len() > 0 {
        ProgressView {
            tables: with_last(st.tables, st.tables.last().with_outer(st.paragraph, st.run)),
            paragraph: None,
            run: None,
            cell: Some(cell_of(tag)),
            ..st
        }
    } else {
        ProgressView { cell: Some(cell_of(tag)), ..st }
    }
}

fn read_footnote(tag: &Tag) -> (r: Footnote)
    ensures
        r.deep_view() == (FootnoteView { self_id: tag@.text("Self"@), paragraphs: Seq::empty() }),
{
    let r = Footnote { self_id: tag.text("Self"), paragraphs: Vec::new() };
    proof {
        lemma_footnote_view(r);
        assert(r.deep_view().paragraphs =~= Seq::empty());
    }
    r
}

fn on_block_start(st: &mut Progress, tag: &Tag)
    ensures
        final(st)@ == after_block_start(old(st)@, tag@),
{
    proof {
        reveal(after_block_start);
    }
    if tag.is("Table") {
        let waiting: Option<TableCell> = st.cell.take();
        push_item(
            &mut st.tables,
            TableContext {
                table: read_table(tag),
                outer_paragraph: None,
                outer_run: None,
                outer_cell: waiting,
            },
        );
    } else if tag.is("Footnote") {
        let paragraph: Option<Paragraph> = st.paragraph.take();
        let run: Option<CharacterRun> = st.run.take();
        push_item(
            &mut st.footnotes,
            FootnoteContext {
                footnote: read_footnote(tag),
                outer_paragraph: paragraph,
                outer_run: run,
            },
        );
    } else {
        let n: usize = st.tables.len();
        if n > 0 {
            assert(st.tables.deep_view().last() == st.tables@[n - 1].deep_view());
            let paragraph: Option<Paragraph> = st.paragraph.take();
            let run: Option<CharacterRun> = st.run.take();
            item_at(&mut st.tables, n - 1).put_outer(paragraph, run);
        }
        st.cell = Some(read_cell(tag));
    }
}

/// The innermost source, if one is open.
pub open spec fn current_source(sources: Seq<Seq<char>>) -> Option<Seq<char>> {
    if sources.len() > 0 {
        Some(sources.last())
    } else {
        None
    }
}

fn last_source(sources: &Vec<String>) -> (r: Option<String>)
    ensures
        r.deep_view() == current_source(sources.deep_view()),
{
    let n: usize = sources.len();
    if n > 0 {
        assert(sources.deep_view().last() == sources@[n - 1]@);
        Some(sources[n - 1].clone())
    } else {
        None
    }
}

/// `paragraph` with the stop that a `TabStop` tag states.
pub open spec fn with_stop_of(
    paragraph: Option<ParagraphView>,
    tag: TagView,
) -> Option<ParagraphView> {
    match (paragraph, tab_stop_of(tag)) {
        (Some(p), Some(stop)) => Some(p.with_tab_stop(stop)),
        _ => paragraph,
    }
}

fn add_stop_of(paragraph: Option<Paragraph>, tag: &Tag) -> (r: Option<Paragraph>)
    ensures
        r.deep_view() == with_stop_of(paragraph.deep_view(), tag@),
{
    match paragraph {
        None => None,
        Some(p) => {
            let mut p: Paragraph = p;
            if let Some(stop) = read_tab_stop(tag) {
                p.put_tab_stop(stop);
            }
            Some(p)
        },
    }
}

/// What a list of properties that opens now belongs to.
pub open spec fn property_host(st: ProgressView) -> PropertyHost {
    if st.run is Some {
        PropertyHost::Run
    } else if st.paragraph is Some {
        PropertyHost::Paragraph
    } else {
        PropertyHost::Nothing
    }
}

/// `st` after an opening tag in the flow of the text.
#[verifier::opaque]
pub open spec fn after_flow_start(st: ProgressView, tag: TagView) -> ProgressView {
    if tag.is("Story"@) {
        match tag.text("StoryDirection"@) {
            None => st,
            Some(s) => ProgressView {
                out: StoryView { story_direction: StoryDirection::named(s), ..st.out },
                ..st
            },
        }
    } else if is_source(tag.name) {
        ProgressView {
            sources: st.sources.push(tag.text("Self"@).unwrap_or(Seq::empty())),
            ..st
        }
    } else if tag.is("StoryPreference"@) {
        ProgressView { out: with_story_preference(st.out, tag), ..st }
    } else if tag.is("ParagraphStyleRange"@) {
        ProgressView { paragraph: Some(paragraph_of(tag)), ..st }
    } else if tag.is("Table"@) || tag.is("Footnote"@) || tag.is("Cell"@) {
        after_block_start(st, tag)
    } else if tag.is("TabStop"@) {
        ProgressView { paragraph: with_stop_of(st.paragraph, tag), ..st }
    } else if tag.is("CharacterStyleRange"@) {
        ProgressView { run: Some(run_of(tag, current_source(st.sources))), ..st }
    } else if tag.is("Content"@) {
        ProgressView { in_content: true, ..st }
    } else if tag.is("Properties"@) {
        ProgressView { properties: property_host(st), ..st }
    } else if st.properties != PropertyHost::Nothing {
        ProgressView { field: Some(tag.name), field_text: Seq::empty(), ..st }
    } else {
        st
    }
}

fn copy_bytes(v: &Vec<u8>) -> (r: Vec<u8>)
    ensures
        r@ == v@,
        r.deep_view() == v@,
{
    let mut r: Vec<u8> = Vec::new();
    crate::util::append_bytes(&mut r, v);
    assert(r@ =~= v@);
    assert(r.deep_view() =~= v@);
    r
}

fn on_flow_start(st: &mut Progress, tag: &Tag)
    ensures
        final(st)@ == after_flow_start(old(st)@, tag@),
{
    proof {
        reveal(after_flow_start);
    }
    if tag.is("Story") {
        if let Some(s) = tag.text("StoryDirection") {
            st.out.story_direction = StoryDirection::from_idml(s.as_str());
        }
    } else if test_source(&tag.name) {
        match tag.text("Self") {
            None => push_item(&mut st.sources, String::new()),
            Some(id) => push_item(&mut st.sources, id),
        }
    } else if tag.is("StoryPreference") {
        on_story_preference(&mut st.out, tag);
    } else if tag.is("ParagraphStyleRange") {
        st.paragraph = Some(read_paragraph(tag));
    } else if tag.is("Table") || tag.is("Footnote") || tag.is("Cell") {
        on_block_start(st, tag);
    } else if tag.is("TabStop") {
        let p: Option<Paragraph> = st.paragraph.take();
        st.paragraph = add_stop_of(p, tag);
    } else if tag.is("CharacterStyleRange") {
        let source: Option<String> = last_source(&st.sources);
        st.run = Some(read_run(tag, source));
    } else if tag.is("Content") {
        st.in_content = true;
    } else if tag.is("Properties") {
        st.properties = if st.run.is_some() {
            PropertyHost::Run
        } else if st.paragraph.is_some() {
            PropertyHost::Paragraph
        } else {
            PropertyHost::Nothing
        };
    } else if st.properties != PropertyHost::Nothing {
        st.field = Some(copy_bytes(&tag.name));
        st.field_text = String::new();
    }
}

/// Whether the content of the tag is not part of the text: hidden text, notes,
/// and the entries of an index.
pub open spec fn is_silent(tag: TagView) -> bool {
    ||| tag.is("HiddenText"@)
    ||| tag.is("Note"@)
    ||| tag.is("Index"@)
    ||| tag.is("IndexEntry"@)
}

fn test_silent(tag: &Tag) -> (r: bool)
    ensures
        r == is_silent(tag@),
{
    tag.is("HiddenText") || tag.is("Note") || tag.is("Index") || tag.is("IndexEntry")
}

/// `st` after an opening tag.
#[verifier::opaque]
pub open spec fn after_start(st: ProgressView, tag: TagView) -> ProgressView {
    if st.suppress_depth > 0 {
        ProgressView { suppress_depth: deeper(st.suppress_depth), ..st }
    } else if st.anchored_depth > 0 {
        ProgressView {
            anchored_depth: deeper(st.anchored_depth),
            ..after_anchored_tag(st, tag)
        }
    } else if st.run is Some && anchored_kind(tag.name) is Some {
        ProgressView { anchored_depth: 1, ..after_anchored_tag(st, tag) }
    } else if is_silent(tag) {
        ProgressView { suppress_depth: 1, ..st }
    } else {
        after_flow_start(st, tag)
    }
}

fn on_start(st: &mut Progress, tag: &Tag)
    ensures
        final(st)@ == after_start(old(st)@, tag@),
{
    proof {
        reveal(after_start);
    }
    if st.suppress_depth > 0 {
        st.suppress_depth = go_deeper(st.suppress_depth);
    } else if st.anchored_depth > 0 {
        let depth: u32 = go_deeper(st.anchored_depth);
        on_anchored_tag(st, tag);
        st.anchored_depth = depth;
    } else if st.run.is_some() && anchored_kind_from_name(&tag.name).is_some() {
        on_anchored_tag(st, tag);
        st.anchored_depth = 1;
    } else if test_silent(tag) {
        st.suppress_depth = 1;
    } else {
        on_flow_start(st, tag);
    }
}

/// `paragraph` with `run` added, where there is a paragraph and the run has
/// text.
pub open spec fn with_run_text(
    paragraph: Option<ParagraphView>,
    run: CharacterRunView,
) -> Option<ParagraphView> {
    match paragraph {
        Some(p) if run.text.len() > 0 => Some(p.with_run(run)),
        _ => paragraph,
    }
}

fn has_text(s: &String) -> (r: bool)
    ensures
        r == (s@.len() > 0),
{
    let none: String = String::new();
    let empty: bool = same_text(s.as_str(), none.as_str());
    assert(s@.len() == 0 ==> s@ =~= none@);
    !empty
}

fn add_run_text(paragraph: Option<Paragraph>, run: CharacterRun) -> (r: Option<Paragraph>)
    ensures
        r.deep_view() == with_run_text(paragraph.deep_view(), run.deep_view()),
{
    match paragraph {
        None => None,
        Some(p) => {
            let mut p: Paragraph = p;
            if has_text(&run.text) {
                p.put_run(run);
            }
            Some(p)
        },
    }
}

/// `st` after a `TextVariableInstance` tag: the value of the variable is a run
/// of its own, behind one with the text before it.
#[verifier::opaque]
pub open spec fn after_variable(st: ProgressView, tag: TagView) -> ProgressView {
    match st.run {
        None => st,
        Some(run) => {
            let before = with_run_text(st.paragraph, run.with_text_variable(None));
            let rest = if run.text.len() > 0 {
                run.with_text(Seq::empty())
            } else {
                run
            };
            let value = rest.with_text(
                tag.text("ResultText"@).unwrap_or(Seq::empty()),
            ).with_text_variable(
                tag.text("AssociatedTextVariable"@),
            );
            ProgressView {
                paragraph: with_run_text(before, value),
                run: Some(rest),
                ..st
            }
        },
    }
}

fn on_variable(st: &mut Progress, tag: &Tag)
    ensures
        final(st)@ == after_variable(old(st)@, tag@),
{
    proof {
        reveal(after_variable);
    }
    if let Some(run) = st.run.take() {
        let mut run: CharacterRun = run;
        let ghost start = run.deep_view();
        let paragraph: Option<Paragraph> = st.paragraph.take();
        let ghost outside = paragraph.deep_view();
        let mut flushed: CharacterRun = run.copy();
        flushed.put_text_variable(None);
        let before: Option<Paragraph> = add_run_text(paragraph, flushed);
        if has_text(&run.text) {
            run.put_text(String::new());
        }
        let mut value: CharacterRun = run.copy();
        let shown: String = match tag.text("ResultText") {
            None => String::new(),
            Some(s) => s,
        };
        value.put_text(shown);
        value.put_text_variable(tag.text("AssociatedTextVariable"));
        st.paragraph = add_run_text(before, value);
        st.run = Some(run);
    }
}

/// `run` with a character added, where there is a run.
pub open spec fn with_char_in(run: Option<CharacterRunView>, c: char) -> Option<CharacterRunView> {
    match run {
        None => None,
        Some(r) => Some(r.with_char(c)),
    }
}

fn add_char_in(run: Option<CharacterRun>, c: char) -> (r: Option<CharacterRun>)
    ensures
        r.deep_view() == with_char_in(run.deep_view(), c),
{
    match run {
        None => None,
        Some(x) => {
            let mut x: CharacterRun = x;
            x.put_char(c);
            Some(x)
        },
    }
}

/// `st` after a self-closing tag in the flow of the text.
#[verifier::opaque]
pub open spec fn after_flow_empty(st: ProgressView, tag: TagView) -> ProgressView {
    if tag.is("StoryPreference"@) {
        ProgressView { out: with_story_preference(st.out, tag), ..st }
    } else if tag.is("BulletChar"@) && st.properties == PropertyHost::Paragraph {
        ProgressView {
            paragraph: match (st.paragraph, tag.count("BulletCharacterValue"@)) {
                (Some(p), Some(bullet)) => Some(p.with_bullet(bullet)),
                _ => st.paragraph,
            },
            ..st
        }
    } else if tag.is("Br"@) {
        ProgressView { run: with_char_in(st.run, '\n'), ..st }
    } else if tag.is("TextVariableInstance"@) {
        after_variable(st, tag)
    } else if tag.is("Tab"@) {
        ProgressView { run: with_char_in(st.run, '\t'), ..st }
    } else if tag.is("TabStop"@) {
        ProgressView { paragraph: with_stop_of(st.paragraph, tag), ..st }
    } else if tag.is("Row"@) {
        ProgressView { tables: with_last(st.tables, st.tables.last().with_row(row_of(tag))), ..st }
    } else if tag.is("Column"@) {
        ProgressView {
            tables: with_last(st.tables, st.tables.last().with_column(column_of(tag))),
            ..st
        }
    } else {
        st
    }
}

fn on_flow_empty(st: &mut Progress, tag: &Tag)
    ensures
        final(st)@ == after_flow_empty(old(st)@, tag@),
{
    proof {
        reveal(after_flow_empty);
    }
    if tag.is("StoryPreference") {
        on_story_preference(&mut st.out, tag);
    } else if tag.is("BulletChar") && st.properties == PropertyHost::Paragraph {
        if let Some(p) = st.paragraph.take() {
            let mut p: Paragraph = p;
            if let Some(bullet) = tag.count("BulletCharacterValue") {
                p.put_bullet(bullet);
            }
            st.paragraph = Some(p);
        }
    } else if tag.is("Br") {
        let run: Option<CharacterRun> = st.run.take();
        st.run = add_char_in(run, '\n');
    } else if tag.is("TextVariableInstance") {
        on_variable(st, tag);
    } else if tag.is("Tab") {
        let run: Option<CharacterRun> = st.run.take();
        st.run = add_char_in(run, '\t');
    } else if tag.is("TabStop") {
        let p: Option<Paragraph> = st.paragraph.take();
        st.paragraph = add_stop_of(p, tag);
    } else if tag.is("Row") {
        let n: usize = st.tables.len();
        if n > 0 {
            assert(st.tables.deep_view().last() == st.tables@[n - 1].deep_view());
            item_at(&mut st.tables, n - 1).put_row(read_row(tag));
        }
    } else if tag.is("Column") {
        let n: usize = st.tables.len();
        if n > 0 {
            assert(st.tables.deep_view().last() == st.tables@[n - 1].deep_view());
            item_at(&mut st.tables, n - 1).put_column(read_column(tag));
        }
    }
}

/// Whether the tag is an index mark.
pub open spec fn is_marker(tag: TagView) -> bool {
    tag.is("PageReference"@) || tag.is("IndexEntry"@) || tag.is("Index"@)
}

/// `st` after a self-closing tag.
#[verifier::opaque]
pub open spec fn after_empty(st: ProgressView, tag: TagView) -> ProgressView {
    if st.suppress_depth > 0 {
        st
    } else if st.anchored_depth > 0 {
        after_anchored_tag(st, tag)
    } else if tag.is("HiddenText"@) || tag.is("Note"@) {
        st
    } else if is_marker(tag) {
        ProgressView {
            paragraph: match (st.paragraph, marker_of(tag)) {
                (Some(p), Some(marker)) => Some(p.with_marker(marker)),
                _ => st.paragraph,
            },
            ..st
        }
    } else if st.run is Some && anchored_kind(tag.name) is Some {
        after_anchored_tag(st, tag)
    } else {
        after_flow_empty(st, tag)
    }
}

fn on_empty(st: &mut Progress, tag: &Tag)
    ensures
        final(st)@ == after_empty(old(st)@, tag@),
{
    proof {
        reveal(after_empty);
    }
    if st.suppress_depth > 0 {
    } else if st.anchored_depth > 0 {
        on_anchored_tag(st, tag);
    } else if tag.is("HiddenText") || tag.is("Note") {
    } else if tag.is("PageReference") || tag.is("IndexEntry") || tag.is("Index") {
        if let Some(p) = st.paragraph.take() {
            let mut p: Paragraph = p;
            if let Some(marker) = parse_index_marker(tag) {
                p.put_marker(marker);
            }
            st.paragraph = Some(p);
        }
    } else if st.run.is_some() && anchored_kind_from_name(&tag.name).is_some() {
        on_anchored_tag(st, tag);
    } else {
        on_flow_empty(st, tag);
    }
}

/// `run` with the property `name` given the value `value`: the font, the font
/// style and the leading count.
pub open spec fn with_run_property(
    run: Option<CharacterRunView>,
    name: Seq<u8>,
    value: Seq<char>,
) -> Option<CharacterRunView> {
    match run {
        None => None,
        Some(r) => if name == encode_utf8("AppliedFont"@) {
            if value.len() > 0 {
                Some(r.with_font(value))
            } else {
                run
            }
        } else if name == encode_utf8("FontStyle"@) {
            if value.len() > 0 {
                Some(r.with_font_style(value))
            } else {
                run
            }
        } else if name == encode_utf8("Leading"@) {
            match written_number(value) {
                None => run,
                Some(n) => Some(r.with_leading(n)),
            }
        } else {
            run
        },
    }
}

fn add_run_property(run: Option<CharacterRun>, name: &Vec<u8>, value: String) -> (r: Option<
    CharacterRun,
>)
    ensures
        r.deep_view() == with_run_property(run.deep_view(), name@, value@),
{
    match run {
        None => None,
        Some(x) => {
            let mut x: CharacterRun = x;
            if name_is(name, "AppliedFont") {
                if has_text(&value) {
                    x.put_font(value);
                }
            } else if name_is(name, "FontStyle") {
                if has_text(&value) {
                    x.put_font_style(value);
                }
            } else if name_is(name, "Leading") {
                if let Some(n) = parse_number(value.as_str()) {
                    x.put_leading(n);
                }
            }
            Some(x)
        },
    }
}

/// `st` with a finished paragraph put where it belongs: into the footnote that
/// is open, else into the cell that is open, else into the story. One without
/// text and table is dropped.
pub open spec fn with_paragraph(st: ProgressView, p: ParagraphView) -> ProgressView {
    if p.runs.len() == 0 && p.table is None {
        st
    } else if st.footnotes.len() > 0 {
        ProgressView {
            footnotes: with_last(st.footnotes, st.footnotes.last().with_paragraph(p)),
            ..st
        }
    } else {
        match st.cell {
            Some(cell) => ProgressView { cell: Some(cell.with_paragraph(p)), ..st },
            None => ProgressView {
                out: StoryView { paragraphs: st.out.paragraphs.push(p), ..st.out },
                ..st
            },
        }
    }
}

fn place_paragraph(st: &mut Progress, p: Paragraph)
    ensures
        final(st)@ == with_paragraph(old(st)@, p.deep_view()),
{
    if p.runs.len() == 0 && p.table.is_none() {
        return;
    }
    let n: usize = st.footnotes.len();
    if n > 0 {
        assert(st.footnotes.deep_view().last() == st.footnotes@[n - 1].deep_view());
        item_at(&mut st.footnotes, n - 1).put_paragraph(p);
    } else if let Some(cell) = st.cell.take() {
        let mut cell: TableCell = cell;
        cell.put_paragraph(p);
        st.cell = Some(cell);
    } else {
        push_item(&mut st.out.paragraphs, p);
    }
}

/// `st` after the closing tag of a table, a cell or a footnote.
#[verifier::opaque]
pub open spec fn after_block_end(st: ProgressView, name: Seq<u8>) -> ProgressView {
    if name == encode_utf8("Cell"@) {
        if st.tables.len() > 0 {
            let ctx = st.tables.last();
            let filled = match st.cell {
                None => ctx,
                Some(cell) => ctx.with_cell(cell),
            };
            ProgressView {
                cell: None,
                tables: with_last(st.tables, filled.with_outer(None, None)),
                paragraph: ctx.outer_paragraph,
                run: ctx.outer_run,
                ..st
            }
        } else {
            ProgressView { cell: None, ..st }
        }
    } else if name == encode_utf8("Table"@) {
        if st.tables.len() > 0 {
            let ctx = st.tables.last();
            ProgressView {
                tables: st.tables.drop_last(),
                paragraph: match st.paragraph {
                    None => None,
                    Some(p) => Some(p.with_table(ctx.table)),
                },
                cell: either(ctx.outer_cell, st.cell),
                ..st
            }
        } else {
            st
        }
    } else if st.footnotes.len() > 0 {
        let ctx = st.footnotes.last();
        ProgressView {
            footnotes: st.footnotes.drop_last(),
            paragraph: match ctx.outer_paragraph {
                None => None,
                Some(p) => Some(p.with_footnote(ctx.footnote)),
            },
            run: ctx.outer_run,
            ..st
        }
    } else {
        st
    }
}

impl TableContext {
    fn take_outer(&mut self) -> (r: (Option<Paragraph>, Option<CharacterRun>))
        ensures
            r.0.deep_view() == old(self).deep_view().outer_paragraph,
            r.1.deep_view() == old(self).deep_view().outer_run,
            final(self).deep_view() == old(self).deep_view().with_outer(None, None),
    {
        let p: Option<Paragraph> = self.outer_paragraph.take();
        let r: Option<CharacterRun> = self.outer_run.take();
        (p, r)
    }
}

fn on_block_end(st: &mut Progress, name: &Vec<u8>)
    ensures
        final(st)@ == after_block_end(old(st)@, name@),
{
    proof {
        reveal(after_block_end);
    }
    let ghost before = st@;
    if name_is(name, "Cell") {
        let n: usize = st.tables.len();
        let cell: Option<TableCell> = st.cell.take();
        if n > 0 {
            assert(before.tables.last() == st.tables@[n - 1].deep_view());
            if let Some(cell) = cell {
                item_at(&mut st.tables, n - 1).put_cell(cell);
            }
            assert(st.tables.deep_view().len() == n);
            let (p, r) = item_at(&mut st.tables, n - 1).take_outer();
            st.paragraph = p;
            st.run = r;
            assert(st.tables.deep_view() =~= after_block_end(before, name@).tables);
        }
    } else if name_is(name, "Table") {
        if let Some(ctx) = st.tables.pop() {
            assert(before.tables.last() == ctx.deep_view());
            assert(st.tables.deep_view() =~= before.tables.drop_last());
            if let Some(p) = st.paragraph.take() {
                let mut p: Paragraph = p;
                p.put_table(ctx.table);
                st.paragraph = Some(p);
            }
            if ctx.outer_cell.is_some() {
                st.cell = ctx.outer_cell;
            }
        } else {
            assert(st.tables.deep_view() =~= before.tables);
        }
    } else {
        if let Some(ctx) = st.footnotes.pop() {
            assert(before.footnotes.last() == ctx.deep_view());
            assert(st.footnotes.deep_view() =~= before.footnotes.drop_last());
            st.run = ctx.outer_run;
            st.paragraph = match ctx.outer_paragraph {
                None => None,
                Some(p) => {
                    let mut p: Paragraph = p;
                    p.put_footnote(ctx.footnote);
                    Some(p)
                },
            };
        } else {
            assert(st.footnotes.deep_view() =~= before.footnotes);
        }
    }
}

/// `st` after a closing tag in the flow of the text.
#[verifier::opaque]
pub open spec fn after_flow_end(st: ProgressView, name: Seq<u8>) -> ProgressView {
    if name == encode_utf8("Content"@) {
        ProgressView { in_content: false, ..st }
    } else if name == encode_utf8("Properties"@) {
        ProgressView {
            properties: PropertyHost::Nothing,
            field: None,
            field_text: Seq::empty(),
            ..st
        }
    } else if st.properties != PropertyHost::Nothing && st.field == Some(name) {
        ProgressView {
            run: if st.properties == PropertyHost::Run {
                with_run_property(st.run, name, trimmed(st.field_text))
            } else {
                st.run
            },
            field: None,
            field_text: Seq::empty(),
            ..st
        }
    } else if name == encode_utf8("CharacterStyleRange"@) {
        match st.run {
            None => st,
            Some(run) => ProgressView {
                run: None,
                paragraph: with_run_text(st.paragraph, run),
                ..st
            },
        }
    } else if is_source(name) {
        ProgressView { sources: popped(st.sources), ..st }
    } else if name == encode_utf8("ParagraphStyleRange"@) {
        match st.paragraph {
            None => st,
            Some(p) => with_paragraph(ProgressView { paragraph: None, ..st }, p),
        }
    } else if name == encode_utf8("Cell"@) || name == encode_utf8("Table"@) || name == encode_utf8(
        "Footnote"@,
    ) {
        after_block_end(st, name)
    } else {
        st
    }
}

fn field_is(field: &Option<Vec<u8>>, name: &Vec<u8>) -> (r: bool)
    ensures
        r == (field.deep_view() == Some(name@)),
{
    match field {
        None => false,
        Some(f) => {
            assert(f.deep_view() =~= f@);
            crate::text::same_bytes(f.as_slice(), name.as_slice())
        },
    }
}

fn on_flow_end(st: &mut Progress, name: &Vec<u8>)
    ensures
        final(st)@ == after_flow_end(old(st)@, name@),
{
    proof {
        reveal(after_flow_end);
    }
    if name_is(name, "Content") {
        st.in_content = false;
    } else if name_is(name, "Properties") {
        st.properties = PropertyHost::Nothing;
        st.field = None;
        st.field_text = String::new();
    } else if st.properties != PropertyHost::Nothing && field_is(&st.field, name) {
        if st.properties == PropertyHost::Run {
            let value: String = trim(st.field_text.as_str());
            let run: Option<CharacterRun> = st.run.take();
            st.run = add_run_property(run, name, value);
        }
        st.field = None;
        st.field_text = String::new();
    } else if name_is(name, "CharacterStyleRange") {
        if let Some(run) = st.run.take() {
            let p: Option<Paragraph> = st.paragraph.take();
            st.paragraph = add_run_text(p, run);
        }
    } else if test_source(name) {
        pop_item(&mut st.sources);
    } else if name_is(name, "ParagraphStyleRange") {
        if let Some(p) = st.paragraph.take() {
            place_paragraph(st, p);
        }
    } else if name_is(name, "Cell") || name_is(name, "Table") || name_is(name, "Footnote") {
        on_block_end(st, name);
    }
}

/// `st` after a closing tag.
#[verifier::opaque]
pub open spec fn after_end(st: ProgressView, name: Seq<u8>) -> ProgressView {
    if st.suppress_depth > 0 {
        ProgressView { suppress_depth: shallower(st.suppress_depth), ..st }
    } else if st.anchored_depth > 0 {
        let st = ProgressView { anchored_depth: shallower(st.anchored_depth), ..st };
        if anchored_kind(name) is Some {
            without_anchored(st)
        } else {
            st
        }
    } else {
        after_flow_end(st, name)
    }
}

fn on_end(st: &mut Progress, name: &Vec<u8>)
    ensures
        final(st)@ == after_end(old(st)@, name@),
{
    proof {
        reveal(after_end);
    }
    if st.suppress_depth > 0 {
        st.suppress_depth = go_back_up(st.suppress_depth);
    } else if st.anchored_depth > 0 {
        st.anchored_depth = go_back_up(st.anchored_depth);
        if anchored_kind_from_name(name).is_some() {
            finalise_anchored_top(st);
        }
    } else {
        on_flow_end(st, name);
    }
}

/// Text as it flows: the separators of lines and of paragraphs are line feeds.
pub open spec fn flowed(s: Seq<char>) -> Seq<char> {
    s.map_values(
        |c: char|
            if c == '\u{2028}' || c == '\u{2029}' {
                '\n'
            } else {
                c
            },
    )
}

/// `run` with `s` added to its text.
pub open spec fn with_flow(
    run: Option<CharacterRunView>,
    s: Seq<char>,
) -> Option<CharacterRunView> {
    match run {
        None => None,
        Some(r) => Some(r.with_text(r.text + flowed(s))),
    }
}

fn add_flow(run: Option<CharacterRun>, s: &str) -> (r: Option<CharacterRun>)
    ensures
        r.deep_view() == with_flow(run.deep_view(), s@),
{
    match run {
        None => None,
        Some(x) => {
            let mut x: CharacterRun = x;
            let ghost before = x.deep_view();
            let chars: Vec<char> = chars_of(s);
            let mut text: String = x.text.clone();
            let mut i: usize = 0;
            assert(before.text + flowed(s@.take(0)) =~= before.text);
            while i < chars.len()
                invariant
                    i <= chars@.len(),
                    chars@ == s@,
                    text@ == before.text + flowed(s@.take(i as int)),
                decreases chars@.len() - i,
            {
                let c: char = chars[i];
                let shown: char = if c == '\u{2028}' || c == '\u{2029}' {
                    '\n'
                } else {
                    c
                };
                text.push(shown);
                assert(flowed(s@.take(i + 1)) =~= flowed(s@.take(i as int)).push(shown));
                assert(before.text + flowed(s@.take(i + 1)) =~= (before.text + flowed(
                    s@.take(i as int),
                )).push(shown));
                i = i + 1;
            }
            assert(s@.take(s@.len() as int) =~= s@);
            x.put_text(text);
            Some(x)
        },
    }
}

/// `st` after a piece of text: it belongs to the open run inside `Content`, or
/// else to the open property. Where nothing is part of the text, it is none.
pub open spec fn after_piece(st: ProgressView, s: Seq<char>) -> ProgressView {
    if st.suppress_depth > 0 {
        st
    } else if st.in_content {
        ProgressView { run: with_flow(st.run, s), ..st }
    } else if st.field is Some {
        ProgressView { field_text: st.field_text + s, ..st }
    } else {
        st
    }
}

fn on_piece(st: &mut Progress, s: &str)
    ensures
        final(st)@ == after_piece(old(st)@, s@),
{
    if st.suppress_depth > 0 {
    } else if st.in_content {
        let run: Option<CharacterRun> = st.run.take();
        st.run = add_flow(run, s);
    } else if st.field.is_some() {
        st.field_text.append(s);
    }
}

/// A text with its character and entity references resolved, or `None` where
/// one of them is unknown.
pub uninterp spec fn unescaped_text(s: Seq<char>) -> Option<Seq<char>>;

/// `quick_xml::escape::unescape`: a function of the text alone.
#[verifier::external_body]
fn unescape(s: &str) -> (r: Option<String>)
    ensures
        r.deep_view() == unescaped_text(s@),
{
    quick_xml::escape::unescape(s).ok().map(|c| c.into_owned())
}

/// A reference as it is written, given its name.
pub open spec fn written_reference(name: Seq<char>) -> Seq<char> {
    "&"@ + name + ";"@
}

/// The text of a reference, given what it resolves to: nothing where it is
/// unknown or its name is not UTF-8.
pub open spec fn reference_text(raw: Seq<u8>) -> Seq<char> {
    match decoded(raw) {
        None => Seq::empty(),
        Some(name) => unescaped_text(written_reference(name)).unwrap_or(Seq::empty()),
    }
}

/// Resolves a reference.
pub fn resolve_reference(raw: &Vec<u8>) -> (r: String)
    ensures
        r@ == reference_text(raw@),
{
    match utf8_text(raw.as_slice()) {
        None => String::new(),
        Some(name) => {
            let open: String = join("&", name.as_str());
            let whole: String = join(open.as_str(), ";");
            match unescape(whole.as_str()) {
                None => String::new(),
                Some(s) => s,
            }
        },
    }
}

/// The mark that a processing instruction puts into the text: for the number of
/// this page or of the next.
pub open spec fn instruction_mark(raw: Seq<u8>) -> Option<char> {
    let s = trimmed_start(decoded(raw).unwrap_or(Seq::empty()));
    if starts_with(s, "ACE 18"@) {
        Some(AUTO_PAGE_NUMBER_MARKER)
    } else if starts_with(s, "ACE 19"@) {
        Some(NEXT_PAGE_NUMBER_MARKER)
    } else {
        None
    }
}

fn read_instruction(raw: &Vec<u8>) -> (r: Option<char>)
    ensures
        r == instruction_mark(raw@),
{
    let s: String = match utf8_text(raw.as_slice()) {
        None => String::new(),
        Some(s) => s,
    };
    if starts_after_space(s.as_str(), "ACE 18") {
        Some(AUTO_PAGE_NUMBER_MARKER)
    } else if starts_after_space(s.as_str(), "ACE 19") {
        Some(NEXT_PAGE_NUMBER_MARKER)
    } else {
        None
    }
}

/// `st` after a processing instruction.
pub open spec fn after_instruction(st: ProgressView, raw: Seq<u8>) -> ProgressView {
    match instruction_mark(raw) {
        Some(mark) if st.in_content && st.suppress_depth == 0 => ProgressView {
            run: with_char_in(st.run, mark),
            ..st
        },
        _ => st,
    }
}

fn on_instruction(st: &mut Progress, raw: &Vec<u8>)
    ensures
        final(st)@ == after_instruction(old(st)@, raw@),
{
    if st.in_content && st.suppress_depth == 0 {
        if let Some(mark) = read_instruction(raw) {
            let run: Option<CharacterRun> = st.run.take();
            st.run = add_char_in(run, mark);
        }
    }
}

/// `st` after one event.
#[verifier::opaque]
pub open spec fn after_event(st: ProgressView, event: EventView) -> ProgressView {
    match event {
        EventView::Open(tag) => if tag.empty {
            after_empty(st, tag)
        } else {
            after_start(st, tag)
        },
        EventView::End(name) => after_end(st, name),
        EventView::Text(raw) => after_piece(st, text_content(raw)),
        EventView::Reference(raw) => after_piece(st, reference_text(raw)),
        EventView::Instruction(raw) => after_instruction(st, raw),
        _ => st,
    }
}

/// Nothing read yet.
pub open spec fn at_start() -> ProgressView {
    ProgressView {
        out: empty_story(),
        paragraph: None,
        run: None,
        tables: Seq::empty(),
        cell: None,
        footnotes: Seq::empty(),
        sources: Seq::empty(),
        in_content: false,
        properties: PropertyHost::Nothing,
        field: None,
        field_text: Seq::empty(),
        anchored_depth: 0,
        anchored: Seq::empty(),
        from_path: Seq::empty(),
        suppress_depth: 0,
    }
}

/// What stands after the first `n` events.
pub open spec fn after_events(events: Seq<EventView>, n: nat) -> ProgressView
    decreases n,
{
    if n == 0 {
        at_start()
    } else {
        after_event(after_events(events, (n - 1) as nat), events[n - 1])
    }
}

/// The story that the events of a document state.
pub open spec fn story_of(events: Seq<EventView>) -> StoryView {
    after_events(events, events.len()).out
}

fn on_event(st: &mut Progress, event: &XmlEvent)
    ensures
        final(st)@ == after_event(old(st)@, event.deep_view()),
{
    proof {
        reveal(after_event);
    }
    match event {
        XmlEvent::Open(tag) => {
            if tag.empty {
                on_empty(st, tag)
            } else {
                on_start(st, tag)
            }
        },
        XmlEvent::End(name) => on_end(st, name),
        XmlEvent::Text(raw) => {
            let s: String = read_text(raw.as_slice());
            on_piece(st, s.as_str())
        },
        XmlEvent::Reference(raw) => {
            let s: String = resolve_reference(raw);
            on_piece(st, s.as_str())
        },
        XmlEvent::Instruction(raw) => on_instruction(st, raw),
        _ => {},
    }
}

/// Builds the story from the events of its part.
pub fn story_from_events(events: &Vec<XmlEvent>) -> (r: Story)
    ensures
        r.deep_view() == story_of(events.deep_view()),
{
    let mut st = Progress {
        out: Story::default(),
        paragraph: None,
        run: None,
        tables: Vec::new(),
        cell: None,
        footnotes: Vec::new(),
        sources: Vec::new(),
        in_content: false,
        properties: PropertyHost::Nothing,
        field: None,
        field_text: String::new(),
        anchored_depth: 0,
        anchored: Vec::new(),
        from_path: Vec::new(),
        suppress_depth: 0,
    };
    assert(st@ =~= at_start());
    let mut i: usize = 0;
    while i < events.len()
        invariant
            i <= events@.len(),
            st@ == after_events(events.deep_view(), i as nat),
        decreases events@.len() - i,
    {
        on_event(&mut st, &events[i]);
        i = i + 1;
    }
    st.out
}

/// Parses the part of a story.
pub fn parse_story(xml: &[u8]) -> (r: Result<Story, ParseError>)
    ensures
        match r {
            Ok(story) => xml_events(xml@, false) matches Some(events) && story.deep_view()
                == story_of(events),
            Err(e) => e is Xml && xml_events(xml@, false) is None,
        },
{
    match read_events(xml, false) {
        Err(e) => Err(e),
        Ok(events) => Ok(story_from_events(&events)),
    }
}

} // verus!
