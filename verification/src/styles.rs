//! `Resources/Styles.xml`: the styles of a document.
//!
//! A style states what it states; what it leaves open comes from the style that
//! it is based on, when it is resolved.
use crate::ParseError;
use crate::idmap::IdMap;
use crate::number::{zero, Num};
use crate::page_items::Corners;
use crate::shapes::{corner_of, read_corner};
use crate::text::{chars_of, numbers, parse_numbers, same_text};
use crate::text_attrs::{
    otf_features_of, paragraph_rule_of, read_otf_features, read_paragraph_rule, read_tab_stop,
    tab_stop_of, Justification, OtfFeatures, OtfFeaturesView, ParagraphRule, ParagraphRuleView,
    TabStop, TabStopView,
};
use crate::util::{either, push_item};
use crate::xml::{
    name_is, read_events, read_text, text_content, xml_events, EventView, Tag, TagView, XmlEvent,
};
use vstd::prelude::*;
use vstd::utf8::encode_utf8;

verus! {

/// The border of a paragraph.
#[derive(Debug, PartialEq)]
pub struct ParagraphBorder {
    pub on: Option<bool>,
    pub color: Option<String>,
    pub tint: Option<Num>,
    pub weight: Option<Num>,
    pub offset_top: Option<Num>,
    pub offset_left: Option<Num>,
    pub offset_bottom: Option<Num>,
    pub offset_right: Option<Num>,
    pub width: Option<String>,
    pub corners: Corners,
}

/// What a [`ParagraphBorder`] holds.
#[verifier::ext_equal]
pub struct ParagraphBorderView {
    pub on: Option<bool>,
    pub color: Option<Seq<char>>,
    pub tint: Option<Num>,
    pub weight: Option<Num>,
    pub offset_top: Option<Num>,
    pub offset_left: Option<Num>,
    pub offset_bottom: Option<Num>,
    pub offset_right: Option<Num>,
    pub width: Option<Seq<char>>,
    pub corners: Corners,
}

impl DeepView for ParagraphBorder {
    type V = ParagraphBorderView;

    open spec fn deep_view(&self) -> ParagraphBorderView {
        ParagraphBorderView {
            on: self.on,
            color: self.color.deep_view(),
            tint: self.tint,
            weight: self.weight,
            offset_top: self.offset_top,
            offset_left: self.offset_left,
            offset_bottom: self.offset_bottom,
            offset_right: self.offset_right,
            width: self.width.deep_view(),
            corners: self.corners,
        }
    }
}

/// The shading of a paragraph.
#[derive(Debug, PartialEq)]
pub struct ParagraphShading {
    pub on: Option<bool>,
    pub color: Option<String>,
    pub tint: Option<Num>,
    pub width: Option<String>,
    pub offset_top: Option<Num>,
    pub offset_left: Option<Num>,
    pub offset_bottom: Option<Num>,
    pub offset_right: Option<Num>,
    pub top_origin: Option<String>,
    pub bottom_origin: Option<String>,
    pub clip_to_frame: Option<bool>,
    pub overprint: Option<bool>,
    pub suppress_printing: Option<bool>,
}

/// What a [`ParagraphShading`] holds.
#[verifier::ext_equal]
pub struct ParagraphShadingView {
    pub on: Option<bool>,
    pub color: Option<Seq<char>>,
    pub tint: Option<Num>,
    pub width: Option<Seq<char>>,
    pub offset_top: Option<Num>,
    pub offset_left: Option<Num>,
    pub offset_bottom: Option<Num>,
    pub offset_right: Option<Num>,
    pub top_origin: Option<Seq<char>>,
    pub bottom_origin: Option<Seq<char>>,
    pub clip_to_frame: Option<bool>,
    pub overprint: Option<bool>,
    pub suppress_printing: Option<bool>,
}

impl DeepView for ParagraphShading {
    type V = ParagraphShadingView;

    open spec fn deep_view(&self) -> ParagraphShadingView {
        ParagraphShadingView {
            on: self.on,
            color: self.color.deep_view(),
            tint: self.tint,
            width: self.width.deep_view(),
            offset_top: self.offset_top,
            offset_left: self.offset_left,
            offset_bottom: self.offset_bottom,
            offset_right: self.offset_right,
            top_origin: self.top_origin.deep_view(),
            bottom_origin: self.bottom_origin.deep_view(),
            clip_to_frame: self.clip_to_frame,
            overprint: self.overprint,
            suppress_printing: self.suppress_printing,
        }
    }
}

/// A character style.
#[derive(Debug, PartialEq)]
pub struct CharacterStyleDef {
    pub self_id: String,
    pub name: Option<String>,
    pub based_on: Option<String>,
    pub font: Option<String>,
    pub font_style: Option<String>,
    pub point_size: Option<Num>,
    pub fill_color: Option<String>,
    pub fill_tint: Option<Num>,
    pub stroke_color: Option<String>,
    pub stroke_weight: Option<Num>,
    pub capitalization: Option<String>,
    pub baseline_shift: Option<Num>,
    pub horizontal_scale: Option<Num>,
    pub vertical_scale: Option<Num>,
    pub skew: Option<Num>,
    pub position: Option<String>,
    pub tracking: Option<Num>,
    pub underline: Option<bool>,
    pub strikethru: Option<bool>,
    pub overprint_fill: Option<bool>,
    pub overprint_stroke: Option<bool>,
    pub ruby_flag: Option<bool>,
    pub ruby_type: Option<String>,
    pub ruby_string: Option<String>,
    pub kenten_kind: Option<String>,
    pub kenten_character: Option<String>,
    pub kenten_font_size: Option<Num>,
    pub ligatures_on: Option<bool>,
    pub kerning_method: Option<String>,
    pub otf: OtfFeatures,
}

/// What a [`CharacterStyleDef`] holds.
#[verifier::ext_equal]
pub struct CharacterStyleDefView {
    pub self_id: Seq<char>,
    pub name: Option<Seq<char>>,
    pub based_on: Option<Seq<char>>,
    pub font: Option<Seq<char>>,
    pub font_style: Option<Seq<char>>,
    pub point_size: Option<Num>,
    pub fill_color: Option<Seq<char>>,
    pub fill_tint: Option<Num>,
    pub stroke_color: Option<Seq<char>>,
    pub stroke_weight: Option<Num>,
    pub capitalization: Option<Seq<char>>,
    pub baseline_shift: Option<Num>,
    pub horizontal_scale: Option<Num>,
    pub vertical_scale: Option<Num>,
    pub skew: Option<Num>,
    pub position: Option<Seq<char>>,
    pub tracking: Option<Num>,
    pub underline: Option<bool>,
    pub strikethru: Option<bool>,
    pub overprint_fill: Option<bool>,
    pub overprint_stroke: Option<bool>,
    pub ruby_flag: Option<bool>,
    pub ruby_type: Option<Seq<char>>,
    pub ruby_string: Option<Seq<char>>,
    pub kenten_kind: Option<Seq<char>>,
    pub kenten_character: Option<Seq<char>>,
    pub kenten_font_size: Option<Num>,
    pub ligatures_on: Option<bool>,
    pub kerning_method: Option<Seq<char>>,
    pub otf: OtfFeaturesView,
}

impl DeepView for CharacterStyleDef {
    type V = CharacterStyleDefView;

    open spec fn deep_view(&self) -> CharacterStyleDefView {
        CharacterStyleDefView {
            self_id: self.self_id@,
            name: self.name.deep_view(),
            based_on: self.based_on.deep_view(),
            font: self.font.deep_view(),
            font_style: self.font_style.deep_view(),
            point_size: self.point_size,
            fill_color: self.fill_color.deep_view(),
            fill_tint: self.fill_tint,
            stroke_color: self.stroke_color.deep_view(),
            stroke_weight: self.stroke_weight,
            capitalization: self.capitalization.deep_view(),
            baseline_shift: self.baseline_shift,
            horizontal_scale: self.horizontal_scale,
            vertical_scale: self.vertical_scale,
            skew: self.skew,
            position: self.position.deep_view(),
            tracking: self.tracking,
            underline: self.underline,
            strikethru: self.strikethru,
            overprint_fill: self.overprint_fill,
            overprint_stroke: self.overprint_stroke,
            ruby_flag: self.ruby_flag,
            ruby_type: self.ruby_type.deep_view(),
            ruby_string: self.ruby_string.deep_view(),
            kenten_kind: self.kenten_kind.deep_view(),
            kenten_character: self.kenten_character.deep_view(),
            kenten_font_size: self.kenten_font_size,
            ligatures_on: self.ligatures_on,
            kerning_method: self.kerning_method.deep_view(),
            otf: self.otf.deep_view(),
        }
    }
}

/// What ends a nested style.
#[derive(Clone, Copy, Debug, PartialEq, Eq, Structural)]
pub enum NestedDelimiter {
    Words,
    Sentences,
    Characters,
    AnyDigit,
    AnyLetter,
    AnyDoubleQuotes,
    AnySingleQuotes,
    Tab,
    ForcedLineBreak,
    EndNestedStyle,
    /// One character.
    Char(char),
    Unknown,
}

impl DeepView for NestedDelimiter {
    type V = NestedDelimiter;

    open spec fn deep_view(&self) -> NestedDelimiter {
        *self
    }
}

/// The delimiter that `s` names: one of those known, or a single character.
pub open spec fn delimiter_named(s: Seq<char>) -> NestedDelimiter {
    if s == "Words"@ {
        NestedDelimiter::Words
    } else if s == "Sentences"@ {
        NestedDelimiter::Sentences
    } else if s == "Characters"@ {
        NestedDelimiter::Characters
    } else if s == "ANY_DIGIT"@ || s == "AnyDigit"@ {
        NestedDelimiter::AnyDigit
    } else if s == "ANY_LETTER"@ || s == "AnyLetter"@ {
        NestedDelimiter::AnyLetter
    } else if s == "ANY_DOUBLE_QUOTES"@ || s == "AnyDoubleQuotes"@ {
        NestedDelimiter::AnyDoubleQuotes
    } else if s == "ANY_SINGLE_QUOTES"@ || s == "AnySingleQuotes"@ {
        NestedDelimiter::AnySingleQuotes
    } else if s == "Tab"@ || s == "tab"@ {
        NestedDelimiter::Tab
    } else if s == "ForcedLineBreak"@ {
        NestedDelimiter::ForcedLineBreak
    } else if s == "EndNestedStyle"@ {
        NestedDelimiter::EndNestedStyle
    } else if s.len() == 1 {
        NestedDelimiter::Char(s[0])
    } else {
        NestedDelimiter::Unknown
    }
}

/// Reads a delimiter.
pub fn parse_nested_delimiter(s: &str) -> (r: NestedDelimiter)
    ensures
        r == delimiter_named(s@),
{
    if same_text(s, "Words") {
        NestedDelimiter::Words
    } else if same_text(s, "Sentences") {
        NestedDelimiter::Sentences
    } else if same_text(s, "Characters") {
        NestedDelimiter::Characters
    } else if same_text(s, "ANY_DIGIT") || same_text(s, "AnyDigit") {
        NestedDelimiter::AnyDigit
    } else if same_text(s, "ANY_LETTER") || same_text(s, "AnyLetter") {
        NestedDelimiter::AnyLetter
    } else if same_text(s, "ANY_DOUBLE_QUOTES") || same_text(s, "AnyDoubleQuotes") {
        NestedDelimiter::AnyDoubleQuotes
    } else if same_text(s, "ANY_SINGLE_QUOTES") || same_text(s, "AnySingleQuotes") {
        NestedDelimiter::AnySingleQuotes
    } else if same_text(s, "Tab") || same_text(s, "tab") {
        NestedDelimiter::Tab
    } else if same_text(s, "ForcedLineBreak") {
        NestedDelimiter::ForcedLineBreak
    } else if same_text(s, "EndNestedStyle") {
        NestedDelimiter::EndNestedStyle
    } else {
        let chars: Vec<char> = chars_of(s);
        if chars.len() == 1 {
            NestedDelimiter::Char(chars[0])
        } else {
            NestedDelimiter::Unknown
        }
    }
}

/// A character style for the start of a paragraph.
#[derive(Debug, PartialEq)]
pub struct NestedStyle {
    pub applied_character_style: String,
    pub delimiter: NestedDelimiter,
    pub repetition: i32,
    pub inclusive: bool,
}

/// What a [`NestedStyle`] holds.
#[verifier::ext_equal]
pub struct NestedStyleView {
    pub applied_character_style: Seq<char>,
    pub delimiter: NestedDelimiter,
    pub repetition: i32,
    pub inclusive: bool,
}

impl DeepView for NestedStyle {
    type V = NestedStyleView;

    open spec fn deep_view(&self) -> NestedStyleView {
        NestedStyleView {
            applied_character_style: self.applied_character_style@,
            delimiter: self.delimiter,
            repetition: self.repetition,
            inclusive: self.inclusive,
        }
    }
}

/// A paragraph style.
#[derive(Debug, PartialEq)]
pub struct ParagraphStyleDef {
    pub self_id: String,
    pub name: Option<String>,
    pub based_on: Option<String>,
    pub font: Option<String>,
    pub font_style: Option<String>,
    pub point_size: Option<Num>,
    pub fill_color: Option<String>,
    pub fill_tint: Option<Num>,
    pub stroke_color: Option<String>,
    pub stroke_weight: Option<Num>,
    pub capitalization: Option<String>,
    pub baseline_shift: Option<Num>,
    pub horizontal_scale: Option<Num>,
    pub vertical_scale: Option<Num>,
    pub skew: Option<Num>,
    pub position: Option<String>,
    pub tracking: Option<Num>,
    pub justification: Option<Justification>,
    pub first_line_indent: Option<Num>,
    pub left_indent: Option<Num>,
    pub right_indent: Option<Num>,
    pub space_before: Option<Num>,
    pub space_after: Option<Num>,
    pub underline: Option<bool>,
    pub strikethru: Option<bool>,
    pub tab_list: Vec<TabStop>,
    pub bullets_list_type: Option<String>,
    pub bullet_character: Option<u32>,
    pub bullets_text_after: Option<String>,
    pub numbering_format: Option<String>,
    pub bullets_character_style: Option<String>,
    pub bullets_and_numbering_digits_character_style: Option<String>,
    pub numbering_expression: Option<String>,
    pub numbering_start_at: Option<u32>,
    pub numbering_continue: Option<bool>,
    pub applied_numbering_list: Option<String>,
    pub next_style: Option<String>,
    pub hyphenation: Option<bool>,
    pub hyphenation_zone: Option<Num>,
    pub applied_language: Option<String>,
    pub minimum_word_spacing: Option<Num>,
    pub desired_word_spacing: Option<Num>,
    pub maximum_word_spacing: Option<Num>,
    pub minimum_letter_spacing: Option<Num>,
    pub desired_letter_spacing: Option<Num>,
    pub maximum_letter_spacing: Option<Num>,
    pub minimum_glyph_scaling: Option<Num>,
    pub desired_glyph_scaling: Option<Num>,
    pub maximum_glyph_scaling: Option<Num>,
    pub drop_cap_characters: Option<u32>,
    pub drop_cap_lines: Option<u32>,
    pub drop_cap_detail: Option<u32>,
    pub overprint_fill: Option<bool>,
    pub overprint_stroke: Option<bool>,
    pub kinsoku_set: Option<String>,
    pub kinsoku_type: Option<String>,
    pub mojikumi_table: Option<String>,
    pub mojikumi_set: Option<String>,
    pub shading: ParagraphShading,
    pub rule_above: ParagraphRule,
    pub rule_below: ParagraphRule,
    pub border: ParagraphBorder,
    pub nested_styles: Vec<NestedStyle>,
}

/// What a [`ParagraphStyleDef`] holds.
#[verifier::ext_equal]
pub struct ParagraphStyleDefView {
    pub self_id: Seq<char>,
    pub name: Option<Seq<char>>,
    pub based_on: Option<Seq<char>>,
    pub font: Option<Seq<char>>,
    pub font_style: Option<Seq<char>>,
    pub point_size: Option<Num>,
    pub fill_color: Option<Seq<char>>,
    pub fill_tint: Option<Num>,
    pub stroke_color: Option<Seq<char>>,
    pub stroke_weight: Option<Num>,
    pub capitalization: Option<Seq<char>>,
    pub baseline_shift: Option<Num>,
    pub horizontal_scale: Option<Num>,
    pub vertical_scale: Option<Num>,
    pub skew: Option<Num>,
    pub position: Option<Seq<char>>,
    pub tracking: Option<Num>,
    pub justification: Option<Justification>,
    pub first_line_indent: Option<Num>,
    pub left_indent: Option<Num>,
    pub right_indent: Option<Num>,
    pub space_before: Option<Num>,
    pub space_after: Option<Num>,
    pub underline: Option<bool>,
    pub strikethru: Option<bool>,
    pub tab_list: Seq<TabStopView>,
    pub bullets_list_type: Option<Seq<char>>,
    pub bullet_character: Option<u32>,
    pub bullets_text_after: Option<Seq<char>>,
    pub numbering_format: Option<Seq<char>>,
    pub bullets_character_style: Option<Seq<char>>,
    pub bullets_and_numbering_digits_character_style: Option<Seq<char>>,
    pub numbering_expression: Option<Seq<char>>,
    pub numbering_start_at: Option<u32>,
    pub numbering_continue: Option<bool>,
    pub applied_numbering_list: Option<Seq<char>>,
    pub next_style: Option<Seq<char>>,
    pub hyphenation: Option<bool>,
    pub hyphenation_zone: Option<Num>,
    pub applied_language: Option<Seq<char>>,
    pub minimum_word_spacing: Option<Num>,
    pub desired_word_spacing: Option<Num>,
    pub maximum_word_spacing: Option<Num>,
    pub minimum_letter_spacing: Option<Num>,
    pub desired_letter_spacing: Option<Num>,
    pub maximum_letter_spacing: Option<Num>,
    pub minimum_glyph_scaling: Option<Num>,
    pub desired_glyph_scaling: Option<Num>,
    pub maximum_glyph_scaling: Option<Num>,
    pub drop_cap_characters: Option<u32>,
    pub drop_cap_lines: Option<u32>,
    pub drop_cap_detail: Option<u32>,
    pub overprint_fill: Option<bool>,
    pub overprint_stroke: Option<bool>,
    pub kinsoku_set: Option<Seq<char>>,
    pub kinsoku_type: Option<Seq<char>>,
    pub mojikumi_table: Option<Seq<char>>,
    pub mojikumi_set: Option<Seq<char>>,
    pub shading: ParagraphShadingView,
    pub rule_above: ParagraphRuleView,
    pub rule_below: ParagraphRuleView,
    pub border: ParagraphBorderView,
    pub nested_styles: Seq<NestedStyleView>,
}

impl DeepView for ParagraphStyleDef {
    type V = ParagraphStyleDefView;

    open spec fn deep_view(&self) -> ParagraphStyleDefView {
        ParagraphStyleDefView {
            self_id: self.self_id@,
            name: self.name.deep_view(),
            based_on: self.based_on.deep_view(),
            font: self.font.deep_view(),
            font_style: self.font_style.deep_view(),
            point_size: self.point_size,
            fill_color: self.fill_color.deep_view(),
            fill_tint: self.fill_tint,
            stroke_color: self.stroke_color.deep_view(),
            stroke_weight: self.stroke_weight,
            capitalization: self.capitalization.deep_view(),
            baseline_shift: self.baseline_shift,
            horizontal_scale: self.horizontal_scale,
            vertical_scale: self.vertical_scale,
            skew: self.skew,
            position: self.position.deep_view(),
            tracking: self.tracking,
            justification: self.justification,
            first_line_indent: self.first_line_indent,
            left_indent: self.left_indent,
            right_indent: self.right_indent,
            space_before: self.space_before,
            space_after: self.space_after,
            underline: self.underline,
            strikethru: self.strikethru,
            tab_list: self.tab_list.deep_view(),
            bullets_list_type: self.bullets_list_type.deep_view(),
            bullet_character: self.bullet_character,
            bullets_text_after: self.bullets_text_after.deep_view(),
            numbering_format: self.numbering_format.deep_view(),
            bullets_character_style: self.bullets_character_style.deep_view(),
            bullets_and_numbering_digits_character_style: self.bullets_and_numbering_digits_character_style.deep_view(),
            numbering_expression: self.numbering_expression.deep_view(),
            numbering_start_at: self.numbering_start_at,
            numbering_continue: self.numbering_continue,
            applied_numbering_list: self.applied_numbering_list.deep_view(),
            next_style: self.next_style.deep_view(),
            hyphenation: self.hyphenation,
            hyphenation_zone: self.hyphenation_zone,
            applied_language: self.applied_language.deep_view(),
            minimum_word_spacing: self.minimum_word_spacing,
            desired_word_spacing: self.desired_word_spacing,
            maximum_word_spacing: self.maximum_word_spacing,
            minimum_letter_spacing: self.minimum_letter_spacing,
            desired_letter_spacing: self.desired_letter_spacing,
            maximum_letter_spacing: self.maximum_letter_spacing,
            minimum_glyph_scaling: self.minimum_glyph_scaling,
            desired_glyph_scaling: self.desired_glyph_scaling,
            maximum_glyph_scaling: self.maximum_glyph_scaling,
            drop_cap_characters: self.drop_cap_characters,
            drop_cap_lines: self.drop_cap_lines,
            drop_cap_detail: self.drop_cap_detail,
            overprint_fill: self.overprint_fill,
            overprint_stroke: self.overprint_stroke,
            kinsoku_set: self.kinsoku_set.deep_view(),
            kinsoku_type: self.kinsoku_type.deep_view(),
            mojikumi_table: self.mojikumi_table.deep_view(),
            mojikumi_set: self.mojikumi_set.deep_view(),
            shading: self.shading.deep_view(),
            rule_above: self.rule_above.deep_view(),
            rule_below: self.rule_below.deep_view(),
            border: self.border.deep_view(),
            nested_styles: self.nested_styles.deep_view(),
        }
    }
}

/// A condition that text may depend on.
#[derive(Debug, PartialEq)]
pub struct ConditionDef {
    pub self_id: String,
    pub name: Option<String>,
    pub visible: Option<bool>,
    pub indicator_method: Option<String>,
}

/// What a [`ConditionDef`] holds.
#[verifier::ext_equal]
pub struct ConditionDefView {
    pub self_id: Seq<char>,
    pub name: Option<Seq<char>>,
    pub visible: Option<bool>,
    pub indicator_method: Option<Seq<char>>,
}

impl DeepView for ConditionDef {
    type V = ConditionDefView;

    open spec fn deep_view(&self) -> ConditionDefView {
        ConditionDefView {
            self_id: self.self_id@,
            name: self.name.deep_view(),
            visible: self.visible,
            indicator_method: self.indicator_method.deep_view(),
        }
    }
}

/// A set of conditions.
#[derive(Debug, PartialEq)]
pub struct ConditionSetDef {
    pub self_id: String,
    pub name: Option<String>,
    pub conditions: Vec<String>,
}

/// What a [`ConditionSetDef`] holds.
#[verifier::ext_equal]
pub struct ConditionSetDefView {
    pub self_id: Seq<char>,
    pub name: Option<Seq<char>>,
    pub conditions: Seq<Seq<char>>,
}

impl DeepView for ConditionSetDef {
    type V = ConditionSetDefView;

    open spec fn deep_view(&self) -> ConditionSetDefView {
        ConditionSetDefView {
            self_id: self.self_id@,
            name: self.name.deep_view(),
            conditions: self.conditions.deep_view(),
        }
    }
}

/// A list that numbers run through.
#[derive(Debug, PartialEq)]
pub struct NumberingListDef {
    pub self_id: String,
    pub name: Option<String>,
    pub continue_across_stories: Option<bool>,
    pub continue_across_documents: Option<bool>,
}

/// What a [`NumberingListDef`] holds.
#[verifier::ext_equal]
pub struct NumberingListDefView {
    pub self_id: Seq<char>,
    pub name: Option<Seq<char>>,
    pub continue_across_stories: Option<bool>,
    pub continue_across_documents: Option<bool>,
}

impl DeepView for NumberingListDef {
    type V = NumberingListDefView;

    open spec fn deep_view(&self) -> NumberingListDefView {
        NumberingListDefView {
            self_id: self.self_id@,
            name: self.name.deep_view(),
            continue_across_stories: self.continue_across_stories,
            continue_across_documents: self.continue_across_documents,
        }
    }
}

/// A table style.
#[derive(Debug, PartialEq)]
pub struct TableStyleDef {
    pub self_id: String,
    pub name: Option<String>,
    pub based_on: Option<String>,
    pub header_region_cell_style: Option<String>,
    pub body_region_cell_style: Option<String>,
    pub footer_region_cell_style: Option<String>,
    pub left_column_region_cell_style: Option<String>,
    pub right_column_region_cell_style: Option<String>,
    pub top_border_stroke_color: Option<String>,
    pub top_border_stroke_weight: Option<Num>,
    pub bottom_border_stroke_color: Option<String>,
    pub bottom_border_stroke_weight: Option<Num>,
    pub left_border_stroke_color: Option<String>,
    pub left_border_stroke_weight: Option<Num>,
    pub right_border_stroke_color: Option<String>,
    pub right_border_stroke_weight: Option<Num>,
    pub alternating_fills: Option<String>,
    pub start_row_fill_color: Option<String>,
    pub start_row_fill_count: Option<u32>,
    pub start_row_fill_tint: Option<Num>,
    pub end_row_fill_color: Option<String>,
    pub end_row_fill_count: Option<u32>,
    pub end_row_fill_tint: Option<Num>,
    pub skip_first_alternating_fill_rows: Option<u32>,
    pub skip_last_alternating_fill_rows: Option<u32>,
    pub start_column_fill_color: Option<String>,
    pub start_column_fill_count: Option<u32>,
    pub start_column_fill_tint: Option<Num>,
    pub end_column_fill_color: Option<String>,
    pub end_column_fill_count: Option<u32>,
    pub end_column_fill_tint: Option<Num>,
    pub skip_first_alternating_fill_columns: Option<u32>,
    pub skip_last_alternating_fill_columns: Option<u32>,
}

/// What a [`TableStyleDef`] holds.
#[verifier::ext_equal]
pub struct TableStyleDefView {
    pub self_id: Seq<char>,
    pub name: Option<Seq<char>>,
    pub based_on: Option<Seq<char>>,
    pub header_region_cell_style: Option<Seq<char>>,
    pub body_region_cell_style: Option<Seq<char>>,
    pub footer_region_cell_style: Option<Seq<char>>,
    pub left_column_region_cell_style: Option<Seq<char>>,
    pub right_column_region_cell_style: Option<Seq<char>>,
    pub top_border_stroke_color: Option<Seq<char>>,
    pub top_border_stroke_weight: Option<Num>,
    pub bottom_border_stroke_color: Option<Seq<char>>,
    pub bottom_border_stroke_weight: Option<Num>,
    pub left_border_stroke_color: Option<Seq<char>>,
    pub left_border_stroke_weight: Option<Num>,
    pub right_border_stroke_color: Option<Seq<char>>,
    pub right_border_stroke_weight: Option<Num>,
    pub alternating_fills: Option<Seq<char>>,
    pub start_row_fill_color: Option<Seq<char>>,
    pub start_row_fill_count: Option<u32>,
    pub start_row_fill_tint: Option<Num>,
    pub end_row_fill_color: Option<Seq<char>>,
    pub end_row_fill_count: Option<u32>,
    pub end_row_fill_tint: Option<Num>,
    pub skip_first_alternating_fill_rows: Option<u32>,
    pub skip_last_alternating_fill_rows: Option<u32>,
    pub start_column_fill_color: Option<Seq<char>>,
    pub start_column_fill_count: Option<u32>,
    pub start_column_fill_tint: Option<Num>,
    pub end_column_fill_color: Option<Seq<char>>,
    pub end_column_fill_count: Option<u32>,
    pub end_column_fill_tint: Option<Num>,
    pub skip_first_alternating_fill_columns: Option<u32>,
    pub skip_last_alternating_fill_columns: Option<u32>,
}

impl DeepView for TableStyleDef {
    type V = TableStyleDefView;

    open spec fn deep_view(&self) -> TableStyleDefView {
        TableStyleDefView {
            self_id: self.self_id@,
            name: self.name.deep_view(),
            based_on: self.based_on.deep_view(),
            header_region_cell_style: self.header_region_cell_style.deep_view(),
            body_region_cell_style: self.body_region_cell_style.deep_view(),
            footer_region_cell_style: self.footer_region_cell_style.deep_view(),
            left_column_region_cell_style: self.left_column_region_cell_style.deep_view(),
            right_column_region_cell_style: self.right_column_region_cell_style.deep_view(),
            top_border_stroke_color: self.top_border_stroke_color.deep_view(),
            top_border_stroke_weight: self.top_border_stroke_weight,
            bottom_border_stroke_color: self.bottom_border_stroke_color.deep_view(),
            bottom_border_stroke_weight: self.bottom_border_stroke_weight,
            left_border_stroke_color: self.left_border_stroke_color.deep_view(),
            left_border_stroke_weight: self.left_border_stroke_weight,
            right_border_stroke_color: self.right_border_stroke_color.deep_view(),
            right_border_stroke_weight: self.right_border_stroke_weight,
            alternating_fills: self.alternating_fills.deep_view(),
            start_row_fill_color: self.start_row_fill_color.deep_view(),
            start_row_fill_count: self.start_row_fill_count,
            start_row_fill_tint: self.start_row_fill_tint,
            end_row_fill_color: self.end_row_fill_color.deep_view(),
            end_row_fill_count: self.end_row_fill_count,
            end_row_fill_tint: self.end_row_fill_tint,
            skip_first_alternating_fill_rows: self.skip_first_alternating_fill_rows,
            skip_last_alternating_fill_rows: self.skip_last_alternating_fill_rows,
            start_column_fill_color: self.start_column_fill_color.deep_view(),
            start_column_fill_count: self.start_column_fill_count,
            start_column_fill_tint: self.start_column_fill_tint,
            end_column_fill_color: self.end_column_fill_color.deep_view(),
            end_column_fill_count: self.end_column_fill_count,
            end_column_fill_tint: self.end_column_fill_tint,
            skip_first_alternating_fill_columns: self.skip_first_alternating_fill_columns,
            skip_last_alternating_fill_columns: self.skip_last_alternating_fill_columns,
        }
    }
}

/// A cell style.
#[derive(Debug, PartialEq)]
pub struct CellStyleDef {
    pub self_id: String,
    pub name: Option<String>,
    pub based_on: Option<String>,
    pub fill_color: Option<String>,
    pub vertical_justification: Option<String>,
    pub rotation_angle: Option<Num>,
    pub top_edge_stroke_color: Option<String>,
    pub top_edge_stroke_weight: Option<Num>,
    pub bottom_edge_stroke_color: Option<String>,
    pub bottom_edge_stroke_weight: Option<Num>,
    pub left_edge_stroke_color: Option<String>,
    pub left_edge_stroke_weight: Option<Num>,
    pub right_edge_stroke_color: Option<String>,
    pub right_edge_stroke_weight: Option<Num>,
}

/// What a [`CellStyleDef`] holds.
#[verifier::ext_equal]
pub struct CellStyleDefView {
    pub self_id: Seq<char>,
    pub name: Option<Seq<char>>,
    pub based_on: Option<Seq<char>>,
    pub fill_color: Option<Seq<char>>,
    pub vertical_justification: Option<Seq<char>>,
    pub rotation_angle: Option<Num>,
    pub top_edge_stroke_color: Option<Seq<char>>,
    pub top_edge_stroke_weight: Option<Num>,
    pub bottom_edge_stroke_color: Option<Seq<char>>,
    pub bottom_edge_stroke_weight: Option<Num>,
    pub left_edge_stroke_color: Option<Seq<char>>,
    pub left_edge_stroke_weight: Option<Num>,
    pub right_edge_stroke_color: Option<Seq<char>>,
    pub right_edge_stroke_weight: Option<Num>,
}

impl DeepView for CellStyleDef {
    type V = CellStyleDefView;

    open spec fn deep_view(&self) -> CellStyleDefView {
        CellStyleDefView {
            self_id: self.self_id@,
            name: self.name.deep_view(),
            based_on: self.based_on.deep_view(),
            fill_color: self.fill_color.deep_view(),
            vertical_justification: self.vertical_justification.deep_view(),
            rotation_angle: self.rotation_angle,
            top_edge_stroke_color: self.top_edge_stroke_color.deep_view(),
            top_edge_stroke_weight: self.top_edge_stroke_weight,
            bottom_edge_stroke_color: self.bottom_edge_stroke_color.deep_view(),
            bottom_edge_stroke_weight: self.bottom_edge_stroke_weight,
            left_edge_stroke_color: self.left_edge_stroke_color.deep_view(),
            left_edge_stroke_weight: self.left_edge_stroke_weight,
            right_edge_stroke_color: self.right_edge_stroke_color.deep_view(),
            right_edge_stroke_weight: self.right_edge_stroke_weight,
        }
    }
}

/// An object style.
#[derive(Debug, PartialEq)]
pub struct ObjectStyleDef {
    pub self_id: String,
    pub name: Option<String>,
    pub based_on: Option<String>,
    pub fill_color: Option<String>,
    pub fill_tint: Option<Num>,
    pub stroke_color: Option<String>,
    pub stroke_tint: Option<Num>,
    pub stroke_weight: Option<Num>,
    pub corner_radius: Option<Num>,
    pub corner_option: Option<String>,
}

/// What a [`ObjectStyleDef`] holds.
#[verifier::ext_equal]
pub struct ObjectStyleDefView {
    pub self_id: Seq<char>,
    pub name: Option<Seq<char>>,
    pub based_on: Option<Seq<char>>,
    pub fill_color: Option<Seq<char>>,
    pub fill_tint: Option<Num>,
    pub stroke_color: Option<Seq<char>>,
    pub stroke_tint: Option<Num>,
    pub stroke_weight: Option<Num>,
    pub corner_radius: Option<Num>,
    pub corner_option: Option<Seq<char>>,
}

impl DeepView for ObjectStyleDef {
    type V = ObjectStyleDefView;

    open spec fn deep_view(&self) -> ObjectStyleDefView {
        ObjectStyleDefView {
            self_id: self.self_id@,
            name: self.name.deep_view(),
            based_on: self.based_on.deep_view(),
            fill_color: self.fill_color.deep_view(),
            fill_tint: self.fill_tint,
            stroke_color: self.stroke_color.deep_view(),
            stroke_tint: self.stroke_tint,
            stroke_weight: self.stroke_weight,
            corner_radius: self.corner_radius,
            corner_option: self.corner_option.deep_view(),
        }
    }
}

/// One level of a table of contents.
#[derive(Debug, PartialEq)]
pub struct TOCStyleEntryDef {
    pub name: Option<String>,
    pub include_style: Option<String>,
    pub format_style: Option<String>,
    pub level: Option<u32>,
    pub page_number: Option<String>,
    pub separator: Option<String>,
}

/// What a [`TOCStyleEntryDef`] holds.
#[verifier::ext_equal]
pub struct TOCStyleEntryDefView {
    pub name: Option<Seq<char>>,
    pub include_style: Option<Seq<char>>,
    pub format_style: Option<Seq<char>>,
    pub level: Option<u32>,
    pub page_number: Option<Seq<char>>,
    pub separator: Option<Seq<char>>,
}

impl DeepView for TOCStyleEntryDef {
    type V = TOCStyleEntryDefView;

    open spec fn deep_view(&self) -> TOCStyleEntryDefView {
        TOCStyleEntryDefView {
            name: self.name.deep_view(),
            include_style: self.include_style.deep_view(),
            format_style: self.format_style.deep_view(),
            level: self.level,
            page_number: self.page_number.deep_view(),
            separator: self.separator.deep_view(),
        }
    }
}

/// A style of tables of contents.
#[derive(Debug, PartialEq)]
pub struct TOCStyleDef {
    pub self_id: String,
    pub name: Option<String>,
    pub title: Option<String>,
    pub title_style: Option<String>,
    pub include_book_documents: Option<bool>,
    pub include_hidden: Option<bool>,
    pub run_in: Option<bool>,
    pub entries: Vec<TOCStyleEntryDef>,
}

/// What a [`TOCStyleDef`] holds.
#[verifier::ext_equal]
pub struct TOCStyleDefView {
    pub self_id: Seq<char>,
    pub name: Option<Seq<char>>,
    pub title: Option<Seq<char>>,
    pub title_style: Option<Seq<char>>,
    pub include_book_documents: Option<bool>,
    pub include_hidden: Option<bool>,
    pub run_in: Option<bool>,
    pub entries: Seq<TOCStyleEntryDefView>,
}

impl DeepView for TOCStyleDef {
    type V = TOCStyleDefView;

    open spec fn deep_view(&self) -> TOCStyleDefView {
        TOCStyleDefView {
            self_id: self.self_id@,
            name: self.name.deep_view(),
            title: self.title.deep_view(),
            title_style: self.title_style.deep_view(),
            include_book_documents: self.include_book_documents,
            include_hidden: self.include_hidden,
            run_in: self.run_in,
            entries: self.entries.deep_view(),
        }
    }
}

/// The kind of a stroke style.
#[derive(Clone, Copy, Debug, PartialEq, Eq, Structural)]
pub enum StrokeStyleKind {
    Dashed,
    Dotted,
    Striped,
    Wavy,
}

impl DeepView for StrokeStyleKind {
    type V = StrokeStyleKind;

    open spec fn deep_view(&self) -> StrokeStyleKind {
        *self
    }
}

/// A stripe of a striped stroke, in parts of its weight.
#[derive(Clone, Copy, Debug, PartialEq, Eq)]
pub struct StripeDef {
    pub left: Num,
    pub width: Num,
}

impl DeepView for StripeDef {
    type V = StripeDef;

    open spec fn deep_view(&self) -> StripeDef {
        *self
    }
}

/// A stroke style.
#[derive(Debug, PartialEq)]
pub struct StrokeStyleDef {
    pub self_id: String,
    pub name: Option<String>,
    pub kind: StrokeStyleKind,
    pub pattern: Vec<Num>,
    pub stripes: Vec<StripeDef>,
    pub wave_width: Option<Num>,
    pub wave_length: Option<Num>,
    pub gap_color: Option<String>,
    pub gap_tint: Option<Num>,
}

/// What a [`StrokeStyleDef`] holds.
#[verifier::ext_equal]
pub struct StrokeStyleDefView {
    pub self_id: Seq<char>,
    pub name: Option<Seq<char>>,
    pub kind: StrokeStyleKind,
    pub pattern: Seq<Num>,
    pub stripes: Seq<StripeDef>,
    pub wave_width: Option<Num>,
    pub wave_length: Option<Num>,
    pub gap_color: Option<Seq<char>>,
    pub gap_tint: Option<Num>,
}

impl DeepView for StrokeStyleDef {
    type V = StrokeStyleDefView;

    open spec fn deep_view(&self) -> StrokeStyleDefView {
        StrokeStyleDefView {
            self_id: self.self_id@,
            name: self.name.deep_view(),
            kind: self.kind,
            pattern: self.pattern@,
            stripes: self.stripes@,
            wave_width: self.wave_width,
            wave_length: self.wave_length,
            gap_color: self.gap_color.deep_view(),
            gap_tint: self.gap_tint,
        }
    }
}

/// The styles of a document, by their identifiers.
#[derive(Debug)]
pub struct StyleSheet {
    pub character_styles: IdMap<CharacterStyleDef>,
    pub paragraph_styles: IdMap<ParagraphStyleDef>,
    pub object_styles: IdMap<ObjectStyleDef>,
    pub cell_styles: IdMap<CellStyleDef>,
    pub table_styles: IdMap<TableStyleDef>,
    pub toc_styles: IdMap<TOCStyleDef>,
    pub stroke_styles: IdMap<StrokeStyleDef>,
    pub conditions: IdMap<ConditionDef>,
    pub condition_sets: IdMap<ConditionSetDef>,
    pub numbering_lists: IdMap<NumberingListDef>,
}

/// What a [`StyleSheet`] holds.
#[verifier::ext_equal]
pub struct StyleSheetView {
    pub character_styles: Map<Seq<char>, CharacterStyleDefView>,
    pub paragraph_styles: Map<Seq<char>, ParagraphStyleDefView>,
    pub object_styles: Map<Seq<char>, ObjectStyleDefView>,
    pub cell_styles: Map<Seq<char>, CellStyleDefView>,
    pub table_styles: Map<Seq<char>, TableStyleDefView>,
    pub toc_styles: Map<Seq<char>, TOCStyleDefView>,
    pub stroke_styles: Map<Seq<char>, StrokeStyleDefView>,
    pub conditions: Map<Seq<char>, ConditionDefView>,
    pub condition_sets: Map<Seq<char>, ConditionSetDefView>,
    pub numbering_lists: Map<Seq<char>, NumberingListDefView>,
}

impl DeepView for StyleSheet {
    type V = StyleSheetView;

    open spec fn deep_view(&self) -> StyleSheetView {
        StyleSheetView {
            character_styles: self.character_styles.deep_view(),
            paragraph_styles: self.paragraph_styles.deep_view(),
            object_styles: self.object_styles.deep_view(),
            cell_styles: self.cell_styles.deep_view(),
            table_styles: self.table_styles.deep_view(),
            toc_styles: self.toc_styles.deep_view(),
            stroke_styles: self.stroke_styles.deep_view(),
            conditions: self.conditions.deep_view(),
            condition_sets: self.condition_sets.deep_view(),
            numbering_lists: self.numbering_lists.deep_view(),
        }
    }
}

/// No styles.
pub open spec fn no_styles() -> StyleSheetView {
    StyleSheetView {
        character_styles: Map::empty(),
        paragraph_styles: Map::empty(),
        object_styles: Map::empty(),
        cell_styles: Map::empty(),
        table_styles: Map::empty(),
        toc_styles: Map::empty(),
        stroke_styles: Map::empty(),
        conditions: Map::empty(),
        condition_sets: Map::empty(),
        numbering_lists: Map::empty(),
    }
}

impl Default for StyleSheet {
    fn default() -> (r: StyleSheet)
        ensures
            r.deep_view() == no_styles(),
    {
        StyleSheet {
            character_styles: IdMap::new(),
            paragraph_styles: IdMap::new(),
            object_styles: IdMap::new(),
            cell_styles: IdMap::new(),
            table_styles: IdMap::new(),
            toc_styles: IdMap::new(),
            stroke_styles: IdMap::new(),
            conditions: IdMap::new(),
            condition_sets: IdMap::new(),
            numbering_lists: IdMap::new(),
        }
    }
}

/// What a tag states about the corners of a paragraph border.
pub open spec fn border_corners_of(tag: TagView) -> Corners {
    Corners {
        top_left: corner_of(
            tag,
            "ParagraphBorderTopLeftCornerOption"@,
            "ParagraphBorderTopLeftCornerRadius"@,
        ),
        top_right: corner_of(
            tag,
            "ParagraphBorderTopRightCornerOption"@,
            "ParagraphBorderTopRightCornerRadius"@,
        ),
        bottom_right: corner_of(
            tag,
            "ParagraphBorderBottomRightCornerOption"@,
            "ParagraphBorderBottomRightCornerRadius"@,
        ),
        bottom_left: corner_of(
            tag,
            "ParagraphBorderBottomLeftCornerOption"@,
            "ParagraphBorderBottomLeftCornerRadius"@,
        ),
    }
}

/// Reads it from a tag.
pub fn read_border_corners(tag: &Tag) -> (r: Corners)
    ensures
        r.deep_view() == border_corners_of(tag@),
{
    Corners {
        top_left: read_corner(
            tag,
            "ParagraphBorderTopLeftCornerOption",
            "ParagraphBorderTopLeftCornerRadius",
        ),
        top_right: read_corner(
            tag,
            "ParagraphBorderTopRightCornerOption",
            "ParagraphBorderTopRightCornerRadius",
        ),
        bottom_right: read_corner(
            tag,
            "ParagraphBorderBottomRightCornerOption",
            "ParagraphBorderBottomRightCornerRadius",
        ),
        bottom_left: read_corner(
            tag,
            "ParagraphBorderBottomLeftCornerOption",
            "ParagraphBorderBottomLeftCornerRadius",
        ),
    }
}

/// The border that a tag states for a paragraph.
pub open spec fn paragraph_border_of(tag: TagView) -> ParagraphBorderView {
    ParagraphBorderView {
        on: tag.flag("ParagraphBorderOn"@),
        color: tag.text("ParagraphBorderColor"@),
        tint: tag.num("ParagraphBorderTint"@),
        weight: tag.num("ParagraphBorderWeight"@),
        offset_top: tag.num("ParagraphBorderTopOffset"@),
        offset_left: tag.num("ParagraphBorderLeftOffset"@),
        offset_bottom: tag.num("ParagraphBorderBottomOffset"@),
        offset_right: tag.num("ParagraphBorderRightOffset"@),
        width: tag.text("ParagraphBorderWidth"@),
        corners: border_corners_of(tag),
    }
}

/// Reads it from a tag.
pub fn read_paragraph_border(tag: &Tag) -> (r: ParagraphBorder)
    ensures
        r.deep_view() == paragraph_border_of(tag@),
{
    ParagraphBorder {
        on: tag.flag("ParagraphBorderOn"),
        color: tag.text("ParagraphBorderColor"),
        tint: tag.num("ParagraphBorderTint"),
        weight: tag.num("ParagraphBorderWeight"),
        offset_top: tag.num("ParagraphBorderTopOffset"),
        offset_left: tag.num("ParagraphBorderLeftOffset"),
        offset_bottom: tag.num("ParagraphBorderBottomOffset"),
        offset_right: tag.num("ParagraphBorderRightOffset"),
        width: tag.text("ParagraphBorderWidth"),
        corners: read_border_corners(tag),
    }
}

/// The shading that a tag states for a paragraph.
pub open spec fn paragraph_shading_of(tag: TagView) -> ParagraphShadingView {
    ParagraphShadingView {
        on: tag.flag("ParagraphShadingOn"@),
        color: tag.text("ParagraphShadingColor"@),
        tint: tag.num("ParagraphShadingTint"@),
        width: tag.text("ParagraphShadingWidth"@),
        offset_top: tag.num("ParagraphShadingTopOffset"@),
        offset_left: tag.num("ParagraphShadingLeftOffset"@),
        offset_bottom: tag.num("ParagraphShadingBottomOffset"@),
        offset_right: tag.num("ParagraphShadingRightOffset"@),
        top_origin: tag.text("ParagraphShadingTopOrigin"@),
        bottom_origin: tag.text("ParagraphShadingBottomOrigin"@),
        clip_to_frame: tag.flag("ParagraphShadingClipToFrame"@),
        overprint: tag.flag("ParagraphShadingOverprint"@),
        suppress_printing: tag.flag("ParagraphShadingSuppressPrinting"@),
    }
}

/// Reads it from a tag.
pub fn read_paragraph_shading(tag: &Tag) -> (r: ParagraphShading)
    ensures
        r.deep_view() == paragraph_shading_of(tag@),
{
    ParagraphShading {
        on: tag.flag("ParagraphShadingOn"),
        color: tag.text("ParagraphShadingColor"),
        tint: tag.num("ParagraphShadingTint"),
        width: tag.text("ParagraphShadingWidth"),
        offset_top: tag.num("ParagraphShadingTopOffset"),
        offset_left: tag.num("ParagraphShadingLeftOffset"),
        offset_bottom: tag.num("ParagraphShadingBottomOffset"),
        offset_right: tag.num("ParagraphShadingRightOffset"),
        top_origin: tag.text("ParagraphShadingTopOrigin"),
        bottom_origin: tag.text("ParagraphShadingBottomOrigin"),
        clip_to_frame: tag.flag("ParagraphShadingClipToFrame"),
        overprint: tag.flag("ParagraphShadingOverprint"),
        suppress_printing: tag.flag("ParagraphShadingSuppressPrinting"),
    }
}

/// The style that a `CharacterStyle` tag states.
#[verifier::opaque]
pub open spec fn character_style_of(tag: TagView) -> Option<CharacterStyleDefView> {
    match tag.text("Self"@) {
        None => None,
        Some(self_id) => Some(CharacterStyleDefView {
            self_id: self_id,
            name: tag.text("Name"@),
            based_on: tag.text("BasedOn"@),
            font: tag.text("AppliedFont"@),
            font_style: tag.text("FontStyle"@),
            point_size: tag.num("PointSize"@),
            fill_color: tag.text("FillColor"@),
            fill_tint: tag.tint("FillTint"@),
            stroke_color: tag.named("StrokeColor"@),
            stroke_weight: tag.num("StrokeWeight"@),
            capitalization: tag.text("Capitalization"@),
            baseline_shift: tag.num("BaselineShift"@),
            horizontal_scale: tag.num("HorizontalScale"@),
            vertical_scale: tag.num("VerticalScale"@),
            skew: tag.num("Skew"@),
            position: tag.text("Position"@),
            tracking: tag.num("Tracking"@),
            underline: tag.flag("Underline"@),
            strikethru: tag.flag("StrikeThru"@),
            overprint_fill: tag.flag("OverprintFill"@),
            overprint_stroke: tag.flag("OverprintStroke"@),
            ruby_flag: tag.flag("RubyFlag"@),
            ruby_type: tag.text("RubyType"@),
            ruby_string: tag.text("RubyString"@),
            kenten_kind: tag.text("KentenKind"@),
            kenten_character: tag.text("KentenCharacter"@),
            kenten_font_size: tag.num("KentenFontSize"@),
            ligatures_on: tag.flag("Ligatures"@),
            kerning_method: tag.text("KerningMethod"@),
            otf: otf_features_of(tag),
        }),
    }
}

/// Reads it from a tag.
pub fn read_character_style(tag: &Tag) -> (r: Option<CharacterStyleDef>)
    ensures
        r.deep_view() == character_style_of(tag@),
{
    proof {
        reveal(character_style_of);
    }
    match tag.text("Self") {
        None => None,
        Some(self_id) => Some(CharacterStyleDef {
            self_id: self_id,
            name: tag.text("Name"),
            based_on: tag.text("BasedOn"),
            font: tag.text("AppliedFont"),
            font_style: tag.text("FontStyle"),
            point_size: tag.num("PointSize"),
            fill_color: tag.text("FillColor"),
            fill_tint: tag.tint("FillTint"),
            stroke_color: tag.named("StrokeColor"),
            stroke_weight: tag.num("StrokeWeight"),
            capitalization: tag.text("Capitalization"),
            baseline_shift: tag.num("BaselineShift"),
            horizontal_scale: tag.num("HorizontalScale"),
            vertical_scale: tag.num("VerticalScale"),
            skew: tag.num("Skew"),
            position: tag.text("Position"),
            tracking: tag.num("Tracking"),
            underline: tag.flag("Underline"),
            strikethru: tag.flag("StrikeThru"),
            overprint_fill: tag.flag("OverprintFill"),
            overprint_stroke: tag.flag("OverprintStroke"),
            ruby_flag: tag.flag("RubyFlag"),
            ruby_type: tag.text("RubyType"),
            ruby_string: tag.text("RubyString"),
            kenten_kind: tag.text("KentenKind"),
            kenten_character: tag.text("KentenCharacter"),
            kenten_font_size: tag.num("KentenFontSize"),
            ligatures_on: tag.flag("Ligatures"),
            kerning_method: tag.text("KerningMethod"),
            otf: read_otf_features(tag),
        }),
    }
}

/// The style that a `ParagraphStyle` tag states, before anything is known from
/// its children.
#[verifier::opaque]
pub open spec fn paragraph_style_of(tag: TagView) -> Option<ParagraphStyleDefView> {
    match tag.text("Self"@) {
        None => None,
        Some(self_id) => Some(ParagraphStyleDefView {
            self_id: self_id,
            name: tag.text("Name"@),
            based_on: tag.text("BasedOn"@),
            font: tag.text("AppliedFont"@),
            font_style: tag.text("FontStyle"@),
            point_size: tag.num("PointSize"@),
            fill_color: tag.text("FillColor"@),
            fill_tint: tag.tint("FillTint"@),
            stroke_color: tag.named("StrokeColor"@),
            stroke_weight: tag.num("StrokeWeight"@),
            capitalization: tag.text("Capitalization"@),
            baseline_shift: tag.num("BaselineShift"@),
            horizontal_scale: tag.num("HorizontalScale"@),
            vertical_scale: tag.num("VerticalScale"@),
            skew: tag.num("Skew"@),
            position: tag.text("Position"@),
            tracking: tag.num("Tracking"@),
            justification: tag.justification(),
            first_line_indent: tag.num("FirstLineIndent"@),
            left_indent: tag.num("LeftIndent"@),
            right_indent: tag.num("RightIndent"@),
            space_before: tag.num("SpaceBefore"@),
            space_after: tag.num("SpaceAfter"@),
            underline: tag.flag("Underline"@),
            strikethru: tag.flag("StrikeThru"@),
            tab_list: Seq::empty(),
            bullets_list_type: tag.text("BulletsAndNumberingListType"@),
            bullet_character: None,
            bullets_text_after: tag.text("BulletsTextAfter"@),
            numbering_format: tag.text("NumberingFormat"@),
            bullets_character_style: tag.text("BulletsCharacterStyle"@),
            bullets_and_numbering_digits_character_style: tag.text(
                "BulletsAndNumberingDigitsCharacterStyle"@,
            ),
            numbering_expression: tag.text("NumberingExpression"@),
            numbering_start_at: tag.count("NumberingStartAt"@),
            numbering_continue: tag.flag("NumberingContinue"@),
            applied_numbering_list: tag.numbering_list(),
            next_style: tag.text("NextStyle"@),
            hyphenation: tag.flag("Hyphenation"@),
            hyphenation_zone: tag.num("HyphenationZone"@),
            applied_language: tag.text("AppliedLanguage"@),
            minimum_word_spacing: tag.num("MinimumWordSpacing"@),
            desired_word_spacing: tag.num("DesiredWordSpacing"@),
            maximum_word_spacing: tag.num("MaximumWordSpacing"@),
            minimum_letter_spacing: tag.num("MinimumLetterSpacing"@),
            desired_letter_spacing: tag.num("DesiredLetterSpacing"@),
            maximum_letter_spacing: tag.num("MaximumLetterSpacing"@),
            minimum_glyph_scaling: tag.num("MinimumGlyphScaling"@),
            desired_glyph_scaling: tag.num("DesiredGlyphScaling"@),
            maximum_glyph_scaling: tag.num("MaximumGlyphScaling"@),
            drop_cap_characters: tag.count("DropCapCharacters"@),
            drop_cap_lines: tag.count("DropCapLines"@),
            drop_cap_detail: tag.count("DropCapDetail"@),
            overprint_fill: tag.flag("OverprintFill"@),
            overprint_stroke: tag.flag("OverprintStroke"@),
            kinsoku_set: tag.text("KinsokuSet"@),
            kinsoku_type: tag.text("KinsokuType"@),
            mojikumi_table: tag.text("MojikumiTable"@),
            mojikumi_set: tag.text("MojikumiSet"@),
            shading: paragraph_shading_of(tag),
            rule_above: paragraph_rule_of(tag, "RuleAbove"@),
            rule_below: paragraph_rule_of(tag, "RuleBelow"@),
            border: paragraph_border_of(tag),
            nested_styles: Seq::empty(),
        }),
    }
}

/// Reads it from a tag.
pub fn read_paragraph_style(tag: &Tag) -> (r: Option<ParagraphStyleDef>)
    ensures
        r.deep_view() == paragraph_style_of(tag@),
{
    proof {
        reveal(paragraph_style_of);
    }
    match tag.text("Self") {
        None => None,
        Some(self_id) => Some(ParagraphStyleDef {
            self_id: self_id,
            name: tag.text("Name"),
            based_on: tag.text("BasedOn"),
            font: tag.text("AppliedFont"),
            font_style: tag.text("FontStyle"),
            point_size: tag.num("PointSize"),
            fill_color: tag.text("FillColor"),
            fill_tint: tag.tint("FillTint"),
            stroke_color: tag.named("StrokeColor"),
            stroke_weight: tag.num("StrokeWeight"),
            capitalization: tag.text("Capitalization"),
            baseline_shift: tag.num("BaselineShift"),
            horizontal_scale: tag.num("HorizontalScale"),
            vertical_scale: tag.num("VerticalScale"),
            skew: tag.num("Skew"),
            position: tag.text("Position"),
            tracking: tag.num("Tracking"),
            justification: tag.justification(),
            first_line_indent: tag.num("FirstLineIndent"),
            left_indent: tag.num("LeftIndent"),
            right_indent: tag.num("RightIndent"),
            space_before: tag.num("SpaceBefore"),
            space_after: tag.num("SpaceAfter"),
            underline: tag.flag("Underline"),
            strikethru: tag.flag("StrikeThru"),
            tab_list: Vec::new(),
            bullets_list_type: tag.text("BulletsAndNumberingListType"),
            bullet_character: None,
            bullets_text_after: tag.text("BulletsTextAfter"),
            numbering_format: tag.text("NumberingFormat"),
            bullets_character_style: tag.text("BulletsCharacterStyle"),
            bullets_and_numbering_digits_character_style: tag.text(
                "BulletsAndNumberingDigitsCharacterStyle",
            ),
            numbering_expression: tag.text("NumberingExpression"),
            numbering_start_at: tag.count("NumberingStartAt"),
            numbering_continue: tag.flag("NumberingContinue"),
            applied_numbering_list: tag.numbering_list(),
            next_style: tag.text("NextStyle"),
            hyphenation: tag.flag("Hyphenation"),
            hyphenation_zone: tag.num("HyphenationZone"),
            applied_language: tag.text("AppliedLanguage"),
            minimum_word_spacing: tag.num("MinimumWordSpacing"),
            desired_word_spacing: tag.num("DesiredWordSpacing"),
            maximum_word_spacing: tag.num("MaximumWordSpacing"),
            minimum_letter_spacing: tag.num("MinimumLetterSpacing"),
            desired_letter_spacing: tag.num("DesiredLetterSpacing"),
            maximum_letter_spacing: tag.num("MaximumLetterSpacing"),
            minimum_glyph_scaling: tag.num("MinimumGlyphScaling"),
            desired_glyph_scaling: tag.num("DesiredGlyphScaling"),
            maximum_glyph_scaling: tag.num("MaximumGlyphScaling"),
            drop_cap_characters: tag.count("DropCapCharacters"),
            drop_cap_lines: tag.count("DropCapLines"),
            drop_cap_detail: tag.count("DropCapDetail"),
            overprint_fill: tag.flag("OverprintFill"),
            overprint_stroke: tag.flag("OverprintStroke"),
            kinsoku_set: tag.text("KinsokuSet"),
            kinsoku_type: tag.text("KinsokuType"),
            mojikumi_table: tag.text("MojikumiTable"),
            mojikumi_set: tag.text("MojikumiSet"),
            shading: read_paragraph_shading(tag),
            rule_above: read_paragraph_rule(tag, "RuleAbove"),
            rule_below: read_paragraph_rule(tag, "RuleBelow"),
            border: read_paragraph_border(tag),
            nested_styles: Vec::new(),
        }),
    }
}

/// The style that an `ObjectStyle` tag states.
#[verifier::opaque]
pub open spec fn object_style_of(tag: TagView) -> Option<ObjectStyleDefView> {
    match tag.text("Self"@) {
        None => None,
        Some(self_id) => Some(ObjectStyleDefView {
            self_id: self_id,
            name: tag.text("Name"@),
            based_on: tag.text("BasedOn"@),
            fill_color: tag.named("FillColor"@),
            fill_tint: tag.tint("FillTint"@),
            stroke_color: tag.named("StrokeColor"@),
            stroke_tint: tag.tint("StrokeTint"@),
            stroke_weight: tag.num("StrokeWeight"@),
            corner_radius: tag.num("CornerRadius"@),
            corner_option: tag.text("CornerOption"@),
        }),
    }
}

/// Reads it from a tag.
pub fn read_object_style(tag: &Tag) -> (r: Option<ObjectStyleDef>)
    ensures
        r.deep_view() == object_style_of(tag@),
{
    proof {
        reveal(object_style_of);
    }
    match tag.text("Self") {
        None => None,
        Some(self_id) => Some(ObjectStyleDef {
            self_id: self_id,
            name: tag.text("Name"),
            based_on: tag.text("BasedOn"),
            fill_color: tag.named("FillColor"),
            fill_tint: tag.tint("FillTint"),
            stroke_color: tag.named("StrokeColor"),
            stroke_tint: tag.tint("StrokeTint"),
            stroke_weight: tag.num("StrokeWeight"),
            corner_radius: tag.num("CornerRadius"),
            corner_option: tag.text("CornerOption"),
        }),
    }
}

/// The style that a `CellStyle` tag states.
#[verifier::opaque]
pub open spec fn cell_style_of(tag: TagView) -> Option<CellStyleDefView> {
    match tag.text("Self"@) {
        None => None,
        Some(self_id) => Some(CellStyleDefView {
            self_id: self_id,
            name: tag.text("Name"@),
            based_on: tag.text("BasedOn"@),
            fill_color: tag.named("FillColor"@),
            vertical_justification: tag.text("VerticalJustification"@),
            rotation_angle: tag.num("RotationAngle"@),
            top_edge_stroke_color: tag.named("TopEdgeStrokeColor"@),
            top_edge_stroke_weight: tag.num("TopEdgeStrokeWeight"@),
            bottom_edge_stroke_color: tag.named("BottomEdgeStrokeColor"@),
            bottom_edge_stroke_weight: tag.num("BottomEdgeStrokeWeight"@),
            left_edge_stroke_color: tag.named("LeftEdgeStrokeColor"@),
            left_edge_stroke_weight: tag.num("LeftEdgeStrokeWeight"@),
            right_edge_stroke_color: tag.named("RightEdgeStrokeColor"@),
            right_edge_stroke_weight: tag.num("RightEdgeStrokeWeight"@),
        }),
    }
}

/// Reads it from a tag.
pub fn read_cell_style(tag: &Tag) -> (r: Option<CellStyleDef>)
    ensures
        r.deep_view() == cell_style_of(tag@),
{
    proof {
        reveal(cell_style_of);
    }
    match tag.text("Self") {
        None => None,
        Some(self_id) => Some(CellStyleDef {
            self_id: self_id,
            name: tag.text("Name"),
            based_on: tag.text("BasedOn"),
            fill_color: tag.named("FillColor"),
            vertical_justification: tag.text("VerticalJustification"),
            rotation_angle: tag.num("RotationAngle"),
            top_edge_stroke_color: tag.named("TopEdgeStrokeColor"),
            top_edge_stroke_weight: tag.num("TopEdgeStrokeWeight"),
            bottom_edge_stroke_color: tag.named("BottomEdgeStrokeColor"),
            bottom_edge_stroke_weight: tag.num("BottomEdgeStrokeWeight"),
            left_edge_stroke_color: tag.named("LeftEdgeStrokeColor"),
            left_edge_stroke_weight: tag.num("LeftEdgeStrokeWeight"),
            right_edge_stroke_color: tag.named("RightEdgeStrokeColor"),
            right_edge_stroke_weight: tag.num("RightEdgeStrokeWeight"),
        }),
    }
}

/// The style that a `TableStyle` tag states.
#[verifier::opaque]
pub open spec fn table_style_of(tag: TagView) -> Option<TableStyleDefView> {
    match tag.text("Self"@) {
        None => None,
        Some(self_id) => Some(TableStyleDefView {
            self_id: self_id,
            name: tag.text("Name"@),
            based_on: tag.text("BasedOn"@),
            header_region_cell_style: tag.named("HeaderRegionCellStyle"@),
            body_region_cell_style: tag.named("BodyRegionCellStyle"@),
            footer_region_cell_style: tag.named("FooterRegionCellStyle"@),
            left_column_region_cell_style: tag.named("LeftColumnRegionCellStyle"@),
            right_column_region_cell_style: tag.named("RightColumnRegionCellStyle"@),
            top_border_stroke_color: tag.named("TopBorderStrokeColor"@),
            top_border_stroke_weight: tag.num("TopBorderStrokeWeight"@),
            bottom_border_stroke_color: tag.named("BottomBorderStrokeColor"@),
            bottom_border_stroke_weight: tag.num("BottomBorderStrokeWeight"@),
            left_border_stroke_color: tag.named("LeftBorderStrokeColor"@),
            left_border_stroke_weight: tag.num("LeftBorderStrokeWeight"@),
            right_border_stroke_color: tag.named("RightBorderStrokeColor"@),
            right_border_stroke_weight: tag.num("RightBorderStrokeWeight"@),
            alternating_fills: tag.text("AlternatingFills"@),
            start_row_fill_color: tag.named("StartRowFillColor"@),
            start_row_fill_count: tag.count("StartRowFillCount"@),
            start_row_fill_tint: tag.tint("StartRowFillTint"@),
            end_row_fill_color: tag.named("EndRowFillColor"@),
            end_row_fill_count: tag.count("EndRowFillCount"@),
            end_row_fill_tint: tag.tint("EndRowFillTint"@),
            skip_first_alternating_fill_rows: tag.count("SkipFirstAlternatingFillRows"@),
            skip_last_alternating_fill_rows: tag.count("SkipLastAlternatingFillRows"@),
            start_column_fill_color: tag.named("StartColumnFillColor"@),
            start_column_fill_count: tag.count("StartColumnFillCount"@),
            start_column_fill_tint: tag.tint("StartColumnFillTint"@),
            end_column_fill_color: tag.named("EndColumnFillColor"@),
            end_column_fill_count: tag.count("EndColumnFillCount"@),
            end_column_fill_tint: tag.tint("EndColumnFillTint"@),
            skip_first_alternating_fill_columns: tag.count("SkipFirstAlternatingFillColumns"@),
            skip_last_alternating_fill_columns: tag.count("SkipLastAlternatingFillColumns"@),
        }),
    }
}

/// Reads it from a tag.
pub fn read_table_style(tag: &Tag) -> (r: Option<TableStyleDef>)
    ensures
        r.deep_view() == table_style_of(tag@),
{
    proof {
        reveal(table_style_of);
    }
    match tag.text("Self") {
        None => None,
        Some(self_id) => Some(TableStyleDef {
            self_id: self_id,
            name: tag.text("Name"),
            based_on: tag.text("BasedOn"),
            header_region_cell_style: tag.named("HeaderRegionCellStyle"),
            body_region_cell_style: tag.named("BodyRegionCellStyle"),
            footer_region_cell_style: tag.named("FooterRegionCellStyle"),
            left_column_region_cell_style: tag.named("LeftColumnRegionCellStyle"),
            right_column_region_cell_style: tag.named("RightColumnRegionCellStyle"),
            top_border_stroke_color: tag.named("TopBorderStrokeColor"),
            top_border_stroke_weight: tag.num("TopBorderStrokeWeight"),
            bottom_border_stroke_color: tag.named("BottomBorderStrokeColor"),
            bottom_border_stroke_weight: tag.num("BottomBorderStrokeWeight"),
            left_border_stroke_color: tag.named("LeftBorderStrokeColor"),
            left_border_stroke_weight: tag.num("LeftBorderStrokeWeight"),
            right_border_stroke_color: tag.named("RightBorderStrokeColor"),
            right_border_stroke_weight: tag.num("RightBorderStrokeWeight"),
            alternating_fills: tag.text("AlternatingFills"),
            start_row_fill_color: tag.named("StartRowFillColor"),
            start_row_fill_count: tag.count("StartRowFillCount"),
            start_row_fill_tint: tag.tint("StartRowFillTint"),
            end_row_fill_color: tag.named("EndRowFillColor"),
            end_row_fill_count: tag.count("EndRowFillCount"),
            end_row_fill_tint: tag.tint("EndRowFillTint"),
            skip_first_alternating_fill_rows: tag.count("SkipFirstAlternatingFillRows"),
            skip_last_alternating_fill_rows: tag.count("SkipLastAlternatingFillRows"),
            start_column_fill_color: tag.named("StartColumnFillColor"),
            start_column_fill_count: tag.count("StartColumnFillCount"),
            start_column_fill_tint: tag.tint("StartColumnFillTint"),
            end_column_fill_color: tag.named("EndColumnFillColor"),
            end_column_fill_count: tag.count("EndColumnFillCount"),
            end_column_fill_tint: tag.tint("EndColumnFillTint"),
            skip_first_alternating_fill_columns: tag.count("SkipFirstAlternatingFillColumns"),
            skip_last_alternating_fill_columns: tag.count("SkipLastAlternatingFillColumns"),
        }),
    }
}

/// The style that a `TOCStyle` tag states, its levels still missing.
#[verifier::opaque]
pub open spec fn toc_style_of(tag: TagView) -> Option<TOCStyleDefView> {
    match tag.text("Self"@) {
        None => None,
        Some(self_id) => Some(TOCStyleDefView {
            self_id: self_id,
            name: tag.text("Name"@),
            title: tag.text("Title"@),
            title_style: tag.text("TitleStyle"@),
            include_book_documents: tag.flag("IncludeBookDocuments"@),
            include_hidden: tag.flag("IncludeHidden"@),
            run_in: tag.flag("RunIn"@),
            entries: Seq::empty(),
        }),
    }
}

/// Reads it from a tag.
pub fn read_toc_style(tag: &Tag) -> (r: Option<TOCStyleDef>)
    ensures
        r.deep_view() == toc_style_of(tag@),
{
    proof {
        reveal(toc_style_of);
    }
    match tag.text("Self") {
        None => None,
        Some(self_id) => Some(TOCStyleDef {
            self_id: self_id,
            name: tag.text("Name"),
            title: tag.text("Title"),
            title_style: tag.text("TitleStyle"),
            include_book_documents: tag.flag("IncludeBookDocuments"),
            include_hidden: tag.flag("IncludeHidden"),
            run_in: tag.flag("RunIn"),
            entries: Vec::new(),
        }),
    }
}

/// The level that a `TOCStyleEntry` tag states.
pub open spec fn toc_entry_of(tag: TagView) -> TOCStyleEntryDefView {
    TOCStyleEntryDefView {
        name: tag.text("Name"@),
        include_style: tag.text("IncludeStyle"@),
        format_style: tag.text("FormatStyle"@),
        level: tag.count("Level"@),
        page_number: tag.text("PageNumber"@),
        separator: tag.text("Separator"@),
    }
}

/// Reads it from a tag.
pub fn read_toc_entry(tag: &Tag) -> (r: TOCStyleEntryDef)
    ensures
        r.deep_view() == toc_entry_of(tag@),
{
    TOCStyleEntryDef {
        name: tag.text("Name"),
        include_style: tag.text("IncludeStyle"),
        format_style: tag.text("FormatStyle"),
        level: tag.count("Level"),
        page_number: tag.text("PageNumber"),
        separator: tag.text("Separator"),
    }
}

/// The condition that a `Condition` tag states.
pub open spec fn condition_of(tag: TagView) -> Option<ConditionDefView> {
    match tag.text("Self"@) {
        None => None,
        Some(self_id) => Some(ConditionDefView {
            self_id: self_id,
            name: tag.text("Name"@),
            visible: tag.flag("Visible"@),
            indicator_method: tag.text("IndicatorMethod"@),
        }),
    }
}

/// Reads it from a tag.
pub fn read_condition(tag: &Tag) -> (r: Option<ConditionDef>)
    ensures
        r.deep_view() == condition_of(tag@),
{
    match tag.text("Self") {
        None => None,
        Some(self_id) => Some(ConditionDef {
            self_id: self_id,
            name: tag.text("Name"),
            visible: tag.flag("Visible"),
            indicator_method: tag.text("IndicatorMethod"),
        }),
    }
}

/// The set that a `ConditionSet` tag states.
pub open spec fn condition_set_of(tag: TagView) -> Option<ConditionSetDefView> {
    match tag.text("Self"@) {
        None => None,
        Some(self_id) => Some(ConditionSetDefView {
            self_id: self_id,
            name: tag.text("Name"@),
            conditions: tag.list("Conditions"@),
        }),
    }
}

/// Reads it from a tag.
pub fn read_condition_set(tag: &Tag) -> (r: Option<ConditionSetDef>)
    ensures
        r.deep_view() == condition_set_of(tag@),
{
    match tag.text("Self") {
        None => None,
        Some(self_id) => Some(ConditionSetDef {
            self_id: self_id,
            name: tag.text("Name"),
            conditions: tag.list("Conditions"),
        }),
    }
}

/// The list that a `NumberingList` tag states.
pub open spec fn numbering_list_of(tag: TagView) -> Option<NumberingListDefView> {
    match tag.text("Self"@) {
        None => None,
        Some(self_id) => Some(NumberingListDefView {
            self_id: self_id,
            name: tag.text("Name"@),
            continue_across_stories: tag.flag("ContinueNumbersAcrossStories"@),
            continue_across_documents: tag.flag("ContinueNumbersAcrossDocuments"@),
        }),
    }
}

/// Reads it from a tag.
pub fn read_numbering_list(tag: &Tag) -> (r: Option<NumberingListDef>)
    ensures
        r.deep_view() == numbering_list_of(tag@),
{
    match tag.text("Self") {
        None => None,
        Some(self_id) => Some(NumberingListDef {
            self_id: self_id,
            name: tag.text("Name"),
            continue_across_stories: tag.flag("ContinueNumbersAcrossStories"),
            continue_across_documents: tag.flag("ContinueNumbersAcrossDocuments"),
        }),
    }
}

/// The delimiter of a `NestedStyle` tag.
pub open spec fn delimiter_of(tag: TagView) -> NestedDelimiter {
    delimiter_named(tag.text("Delimiter"@).unwrap_or(Seq::empty()))
}

fn read_delimiter(tag: &Tag) -> (r: NestedDelimiter)
    ensures
        r == delimiter_of(tag@),
{
    match tag.text("Delimiter") {
        None => {
            let none: String = String::new();
            parse_nested_delimiter(none.as_str())
        },
        Some(s) => parse_nested_delimiter(s.as_str()),
    }
}

/// The nested style that a `NestedStyle` tag states: once, and with its
/// delimiter, as far as it states nothing else.
pub open spec fn nested_style_of(tag: TagView) -> Option<NestedStyleView> {
    match tag.text("AppliedCharacterStyle"@) {
        None => None,
        Some(applied) => Some(NestedStyleView {
            applied_character_style: applied,
            delimiter: delimiter_of(tag),
            repetition: tag.integer("Repetition"@).unwrap_or(1),
            inclusive: tag.flag("Inclusive"@).unwrap_or(true),
        }),
    }
}

/// Reads it from a tag.
pub fn read_nested_style(tag: &Tag) -> (r: Option<NestedStyle>)
    ensures
        r.deep_view() == nested_style_of(tag@),
{
    match tag.text("AppliedCharacterStyle") {
        None => None,
        Some(applied) => Some(NestedStyle {
            applied_character_style: applied,
            delimiter: read_delimiter(tag),
            repetition: tag.integer("Repetition").unwrap_or(1),
            inclusive: tag.flag("Inclusive").unwrap_or(true),
        }),
    }
}

/// The stripe that a `Stripe` tag states, where it has a width.
pub open spec fn stripe_of(tag: TagView) -> Option<StripeDef> {
    match tag.num("Width"@) {
        None => None,
        Some(width) => Some(StripeDef {
            left: tag.num("Left"@).unwrap_or(zero()),
            width: width,
        }),
    }
}

/// Reads it from a tag.
pub fn read_stripe(tag: &Tag) -> (r: Option<StripeDef>)
    ensures
        r.deep_view() == stripe_of(tag@),
{
    match tag.num("Width") {
        None => None,
        Some(width) => Some(StripeDef {
            left: tag.num("Left").unwrap_or(Num::zero()),
            width: width,
        }),
    }
}

/// The kind of stroke style that a tag is about.
pub open spec fn stroke_kind_of(name: Seq<u8>) -> Option<StrokeStyleKind> {
    if name == encode_utf8("DashedStrokeStyle"@) {
        Some(StrokeStyleKind::Dashed)
    } else if name == encode_utf8("DottedStrokeStyle"@) {
        Some(StrokeStyleKind::Dotted)
    } else if name == encode_utf8("StripedStrokeStyle"@) {
        Some(StrokeStyleKind::Striped)
    } else if name == encode_utf8("WavyStrokeStyle"@) {
        Some(StrokeStyleKind::Wavy)
    } else {
        None
    }
}

fn read_stroke_kind(name: &Vec<u8>) -> (r: Option<StrokeStyleKind>)
    ensures
        r == stroke_kind_of(name@),
{
    if name_is(name, "DashedStrokeStyle") {
        Some(StrokeStyleKind::Dashed)
    } else if name_is(name, "DottedStrokeStyle") {
        Some(StrokeStyleKind::Dotted)
    } else if name_is(name, "StripedStrokeStyle") {
        Some(StrokeStyleKind::Striped)
    } else if name_is(name, "WavyStrokeStyle") {
        Some(StrokeStyleKind::Wavy)
    } else {
        None
    }
}

/// The lengths that a tag states for its dashes and gaps.
pub open spec fn pattern_of(tag: TagView) -> Seq<Num> {
    match tag.text("Pattern"@) {
        None => Seq::empty(),
        Some(s) => numbers(s, true),
    }
}

fn read_pattern(tag: &Tag) -> (r: Vec<Num>)
    ensures
        r@ == pattern_of(tag@),
{
    match tag.text("Pattern") {
        None => Vec::new(),
        Some(s) => parse_numbers(s.as_str(), true),
    }
}

/// The style that the tag of a stroke style states, its stripes still missing.
#[verifier::opaque]
pub open spec fn stroke_style_of(tag: TagView) -> Option<StrokeStyleDefView> {
    match tag.text("Self"@) {
        None => None,
        Some(self_id) => {
            match stroke_kind_of(tag.name) {
                None => None,
                Some(kind) => Some(StrokeStyleDefView {
                    self_id: self_id,
                    name: tag.text("Name"@),
                    kind: kind,
                    pattern: pattern_of(tag),
                    stripes: Seq::empty(),
                    wave_width: tag.num("Width"@),
                    wave_length: tag.num("Wavelength"@),
                    gap_color: tag.named("GapColor"@),
                    gap_tint: tag.num("GapTint"@),
                }),
            }
        },
    }
}

/// Reads it from a tag.
pub fn read_stroke_style(tag: &Tag) -> (r: Option<StrokeStyleDef>)
    ensures
        r.deep_view() == stroke_style_of(tag@),
{
    proof {
        reveal(stroke_style_of);
    }
    match tag.text("Self") {
        None => None,
        Some(self_id) => {
            match read_stroke_kind(&tag.name) {
                None => None,
                Some(kind) => Some(StrokeStyleDef {
                    self_id: self_id,
                    name: tag.text("Name"),
                    kind: kind,
                    pattern: read_pattern(tag),
                    stripes: Vec::new(),
                    wave_width: tag.num("Width"),
                    wave_length: tag.num("Wavelength"),
                    gap_color: tag.named("GapColor"),
                    gap_tint: tag.num("GapTint"),
                }),
            }
        },
    }
}

impl ParagraphStyleDefView {
    /// The style with its `font` given, unless it has one.
    pub open spec fn with_font(self, text: Seq<char>) -> ParagraphStyleDefView {
        ParagraphStyleDefView { font: either(self.font, Some(text)), ..self }
    }
}

impl ParagraphStyleDef {
    fn put_font(&mut self, text: String)
        ensures
            final(self).deep_view() == old(self).deep_view().with_font(text@),
    {
        if self.font.is_none() {
            self.font = Some(text);
        }
    }
}

/// `styles` with that done to the style `id`, where it is there.
pub open spec fn paragraph_with_font(
    styles: Map<Seq<char>, ParagraphStyleDefView>,
    id: Option<Seq<char>>, text: Seq<char>,
) -> Map<Seq<char>, ParagraphStyleDefView> {
    match id {
        Some(id) if styles.dom().contains(id) => styles.insert(id, styles[id].with_font(text)),
        _ => styles,
    }
}

fn paragraph_put_font(styles: &mut IdMap<ParagraphStyleDef>, id: &Option<String>, text: String)
    ensures
        final(styles).deep_view() == paragraph_with_font(
            old(styles).deep_view(),
            id.deep_view(), text@,
        ),
{
    let ghost before = styles.deep_view();
    if let Some(id) = id {
        if let Some(style) = styles.take(id.as_str()) {
            let mut style: ParagraphStyleDef = style;
            style.put_font(text);
            let ghost x = style.deep_view();
            styles.insert(id.clone(), style);
            assert(before.remove(id@).insert(id@, x) =~= before.insert(id@, x));
        }
    }
}

impl ParagraphStyleDefView {
    /// The style with its `based_on` given, unless it has one.
    pub open spec fn with_based_on(self, text: Seq<char>) -> ParagraphStyleDefView {
        ParagraphStyleDefView { based_on: either(self.based_on, Some(text)), ..self }
    }
}

impl ParagraphStyleDef {
    fn put_based_on(&mut self, text: String)
        ensures
            final(self).deep_view() == old(self).deep_view().with_based_on(text@),
    {
        if self.based_on.is_none() {
            self.based_on = Some(text);
        }
    }
}

/// `styles` with that done to the style `id`, where it is there.
pub open spec fn paragraph_with_based_on(
    styles: Map<Seq<char>, ParagraphStyleDefView>,
    id: Option<Seq<char>>, text: Seq<char>,
) -> Map<Seq<char>, ParagraphStyleDefView> {
    match id {
        Some(id) if styles.dom().contains(id) => styles.insert(id, styles[id].with_based_on(text)),
        _ => styles,
    }
}

fn paragraph_put_based_on(styles: &mut IdMap<ParagraphStyleDef>, id: &Option<String>, text: String)
    ensures
        final(styles).deep_view() == paragraph_with_based_on(
            old(styles).deep_view(),
            id.deep_view(), text@,
        ),
{
    let ghost before = styles.deep_view();
    if let Some(id) = id {
        if let Some(style) = styles.take(id.as_str()) {
            let mut style: ParagraphStyleDef = style;
            style.put_based_on(text);
            let ghost x = style.deep_view();
            styles.insert(id.clone(), style);
            assert(before.remove(id@).insert(id@, x) =~= before.insert(id@, x));
        }
    }
}

impl ParagraphStyleDefView {
    /// The style with its `numbering_expression` given, unless it has one.
    pub open spec fn with_numbering_expression(self, text: Seq<char>) -> ParagraphStyleDefView {
        ParagraphStyleDefView {
            numbering_expression: either(self.numbering_expression, Some(text)),
            ..self
        }
    }
}

impl ParagraphStyleDef {
    fn put_numbering_expression(&mut self, text: String)
        ensures
            final(self).deep_view() == old(self).deep_view().with_numbering_expression(text@),
    {
        if self.numbering_expression.is_none() {
            self.numbering_expression = Some(text);
        }
    }
}

/// `styles` with that done to the style `id`, where it is there.
pub open spec fn paragraph_with_numbering_expression(
    styles: Map<Seq<char>, ParagraphStyleDefView>,
    id: Option<Seq<char>>, text: Seq<char>,
) -> Map<Seq<char>, ParagraphStyleDefView> {
    match id {
        Some(id) if styles.dom().contains(id) => styles.insert(
            id,
            styles[id].with_numbering_expression(text),
        ),
        _ => styles,
    }
}

fn paragraph_put_numbering_expression(
    styles: &mut IdMap<ParagraphStyleDef>,
    id: &Option<String>,
    text: String,
)
    ensures
        final(styles).deep_view() == paragraph_with_numbering_expression(
            old(styles).deep_view(),
            id.deep_view(), text@,
        ),
{
    let ghost before = styles.deep_view();
    if let Some(id) = id {
        if let Some(style) = styles.take(id.as_str()) {
            let mut style: ParagraphStyleDef = style;
            style.put_numbering_expression(text);
            let ghost x = style.deep_view();
            styles.insert(id.clone(), style);
            assert(before.remove(id@).insert(id@, x) =~= before.insert(id@, x));
        }
    }
}

impl CharacterStyleDefView {
    /// The style with its `font` given, unless it has one.
    pub open spec fn with_font(self, text: Seq<char>) -> CharacterStyleDefView {
        CharacterStyleDefView { font: either(self.font, Some(text)), ..self }
    }
}

impl CharacterStyleDef {
    fn put_font(&mut self, text: String)
        ensures
            final(self).deep_view() == old(self).deep_view().with_font(text@),
    {
        if self.font.is_none() {
            self.font = Some(text);
        }
    }
}

/// `styles` with that done to the style `id`, where it is there.
pub open spec fn character_with_font(
    styles: Map<Seq<char>, CharacterStyleDefView>,
    id: Option<Seq<char>>, text: Seq<char>,
) -> Map<Seq<char>, CharacterStyleDefView> {
    match id {
        Some(id) if styles.dom().contains(id) => styles.insert(id, styles[id].with_font(text)),
        _ => styles,
    }
}

fn character_put_font(styles: &mut IdMap<CharacterStyleDef>, id: &Option<String>, text: String)
    ensures
        final(styles).deep_view() == character_with_font(
            old(styles).deep_view(),
            id.deep_view(), text@,
        ),
{
    let ghost before = styles.deep_view();
    if let Some(id) = id {
        if let Some(style) = styles.take(id.as_str()) {
            let mut style: CharacterStyleDef = style;
            style.put_font(text);
            let ghost x = style.deep_view();
            styles.insert(id.clone(), style);
            assert(before.remove(id@).insert(id@, x) =~= before.insert(id@, x));
        }
    }
}

impl CharacterStyleDefView {
    /// The style with its `based_on` given, unless it has one.
    pub open spec fn with_based_on(self, text: Seq<char>) -> CharacterStyleDefView {
        CharacterStyleDefView { based_on: either(self.based_on, Some(text)), ..self }
    }
}

impl CharacterStyleDef {
    fn put_based_on(&mut self, text: String)
        ensures
            final(self).deep_view() == old(self).deep_view().with_based_on(text@),
    {
        if self.based_on.is_none() {
            self.based_on = Some(text);
        }
    }
}

/// `styles` with that done to the style `id`, where it is there.
pub open spec fn character_with_based_on(
    styles: Map<Seq<char>, CharacterStyleDefView>,
    id: Option<Seq<char>>, text: Seq<char>,
) -> Map<Seq<char>, CharacterStyleDefView> {
    match id {
        Some(id) if styles.dom().contains(id) => styles.insert(id, styles[id].with_based_on(text)),
        _ => styles,
    }
}

fn character_put_based_on(styles: &mut IdMap<CharacterStyleDef>, id: &Option<String>, text: String)
    ensures
        final(styles).deep_view() == character_with_based_on(
            old(styles).deep_view(),
            id.deep_view(), text@,
        ),
{
    let ghost before = styles.deep_view();
    if let Some(id) = id {
        if let Some(style) = styles.take(id.as_str()) {
            let mut style: CharacterStyleDef = style;
            style.put_based_on(text);
            let ghost x = style.deep_view();
            styles.insert(id.clone(), style);
            assert(before.remove(id@).insert(id@, x) =~= before.insert(id@, x));
        }
    }
}

impl ObjectStyleDefView {
    /// The style with its `based_on` given, unless it has one.
    pub open spec fn with_based_on(self, text: Seq<char>) -> ObjectStyleDefView {
        ObjectStyleDefView { based_on: either(self.based_on, Some(text)), ..self }
    }
}

impl ObjectStyleDef {
    fn put_based_on(&mut self, text: String)
        ensures
            final(self).deep_view() == old(self).deep_view().with_based_on(text@),
    {
        if self.based_on.is_none() {
            self.based_on = Some(text);
        }
    }
}

/// `styles` with that done to the style `id`, where it is there.
pub open spec fn object_with_based_on(
    styles: Map<Seq<char>, ObjectStyleDefView>,
    id: Option<Seq<char>>, text: Seq<char>,
) -> Map<Seq<char>, ObjectStyleDefView> {
    match id {
        Some(id) if styles.dom().contains(id) => styles.insert(id, styles[id].with_based_on(text)),
        _ => styles,
    }
}

fn object_put_based_on(styles: &mut IdMap<ObjectStyleDef>, id: &Option<String>, text: String)
    ensures
        final(styles).deep_view() == object_with_based_on(
            old(styles).deep_view(),
            id.deep_view(), text@,
        ),
{
    let ghost before = styles.deep_view();
    if let Some(id) = id {
        if let Some(style) = styles.take(id.as_str()) {
            let mut style: ObjectStyleDef = style;
            style.put_based_on(text);
            let ghost x = style.deep_view();
            styles.insert(id.clone(), style);
            assert(before.remove(id@).insert(id@, x) =~= before.insert(id@, x));
        }
    }
}

impl CellStyleDefView {
    /// The style with its `based_on` given, unless it has one.
    pub open spec fn with_based_on(self, text: Seq<char>) -> CellStyleDefView {
        CellStyleDefView { based_on: either(self.based_on, Some(text)), ..self }
    }
}

impl CellStyleDef {
    fn put_based_on(&mut self, text: String)
        ensures
            final(self).deep_view() == old(self).deep_view().with_based_on(text@),
    {
        if self.based_on.is_none() {
            self.based_on = Some(text);
        }
    }
}

/// `styles` with that done to the style `id`, where it is there.
pub open spec fn cell_with_based_on(
    styles: Map<Seq<char>, CellStyleDefView>,
    id: Option<Seq<char>>, text: Seq<char>,
) -> Map<Seq<char>, CellStyleDefView> {
    match id {
        Some(id) if styles.dom().contains(id) => styles.insert(id, styles[id].with_based_on(text)),
        _ => styles,
    }
}

fn cell_put_based_on(styles: &mut IdMap<CellStyleDef>, id: &Option<String>, text: String)
    ensures
        final(styles).deep_view() == cell_with_based_on(
            old(styles).deep_view(),
            id.deep_view(), text@,
        ),
{
    let ghost before = styles.deep_view();
    if let Some(id) = id {
        if let Some(style) = styles.take(id.as_str()) {
            let mut style: CellStyleDef = style;
            style.put_based_on(text);
            let ghost x = style.deep_view();
            styles.insert(id.clone(), style);
            assert(before.remove(id@).insert(id@, x) =~= before.insert(id@, x));
        }
    }
}

impl TableStyleDefView {
    /// The style with its `based_on` given, unless it has one.
    pub open spec fn with_based_on(self, text: Seq<char>) -> TableStyleDefView {
        TableStyleDefView { based_on: either(self.based_on, Some(text)), ..self }
    }
}

impl TableStyleDef {
    fn put_based_on(&mut self, text: String)
        ensures
            final(self).deep_view() == old(self).deep_view().with_based_on(text@),
    {
        if self.based_on.is_none() {
            self.based_on = Some(text);
        }
    }
}

/// `styles` with that done to the style `id`, where it is there.
pub open spec fn table_with_based_on(
    styles: Map<Seq<char>, TableStyleDefView>,
    id: Option<Seq<char>>, text: Seq<char>,
) -> Map<Seq<char>, TableStyleDefView> {
    match id {
        Some(id) if styles.dom().contains(id) => styles.insert(id, styles[id].with_based_on(text)),
        _ => styles,
    }
}

fn table_put_based_on(styles: &mut IdMap<TableStyleDef>, id: &Option<String>, text: String)
    ensures
        final(styles).deep_view() == table_with_based_on(
            old(styles).deep_view(),
            id.deep_view(), text@,
        ),
{
    let ghost before = styles.deep_view();
    if let Some(id) = id {
        if let Some(style) = styles.take(id.as_str()) {
            let mut style: TableStyleDef = style;
            style.put_based_on(text);
            let ghost x = style.deep_view();
            styles.insert(id.clone(), style);
            assert(before.remove(id@).insert(id@, x) =~= before.insert(id@, x));
        }
    }
}

impl ParagraphStyleDefView {
    /// The style with a tab stop added.
    pub open spec fn with_tab_stop(self, stop: TabStopView) -> ParagraphStyleDefView {
        ParagraphStyleDefView { tab_list: self.tab_list.push(stop), ..self }
    }
}

impl ParagraphStyleDef {
    fn put_tab_stop(&mut self, stop: TabStop)
        ensures
            final(self).deep_view() == old(self).deep_view().with_tab_stop(stop.deep_view()),
    {
        push_item(&mut self.tab_list, stop);
    }
}

/// `styles` with that done to the style `id`, where it is there.
pub open spec fn paragraph_with_tab_stop(
    styles: Map<Seq<char>, ParagraphStyleDefView>,
    id: Option<Seq<char>>, stop: TabStopView,
) -> Map<Seq<char>, ParagraphStyleDefView> {
    match id {
        Some(id) if styles.dom().contains(id) => styles.insert(id, styles[id].with_tab_stop(stop)),
        _ => styles,
    }
}

fn paragraph_put_tab_stop(styles: &mut IdMap<ParagraphStyleDef>, id: &Option<String>, stop: TabStop)
    ensures
        final(styles).deep_view() == paragraph_with_tab_stop(
            old(styles).deep_view(),
            id.deep_view(), stop.deep_view(),
        ),
{
    let ghost before = styles.deep_view();
    if let Some(id) = id {
        if let Some(style) = styles.take(id.as_str()) {
            let mut style: ParagraphStyleDef = style;
            style.put_tab_stop(stop);
            let ghost x = style.deep_view();
            styles.insert(id.clone(), style);
            assert(before.remove(id@).insert(id@, x) =~= before.insert(id@, x));
        }
    }
}

impl ParagraphStyleDefView {
    /// The style with a nested style added.
    pub open spec fn with_nested_style(self, nested: NestedStyleView) -> ParagraphStyleDefView {
        ParagraphStyleDefView { nested_styles: self.nested_styles.push(nested), ..self }
    }
}

impl ParagraphStyleDef {
    fn put_nested_style(&mut self, nested: NestedStyle)
        ensures
            final(self).deep_view() == old(self).deep_view().with_nested_style(nested.deep_view()),
    {
        push_item(&mut self.nested_styles, nested);
    }
}

/// `styles` with that done to the style `id`, where it is there.
pub open spec fn paragraph_with_nested_style(
    styles: Map<Seq<char>, ParagraphStyleDefView>,
    id: Option<Seq<char>>, nested: NestedStyleView,
) -> Map<Seq<char>, ParagraphStyleDefView> {
    match id {
        Some(id) if styles.dom().contains(id) => styles.insert(
            id,
            styles[id].with_nested_style(nested),
        ),
        _ => styles,
    }
}

fn paragraph_put_nested_style(
    styles: &mut IdMap<ParagraphStyleDef>,
    id: &Option<String>,
    nested: NestedStyle,
)
    ensures
        final(styles).deep_view() == paragraph_with_nested_style(
            old(styles).deep_view(),
            id.deep_view(), nested.deep_view(),
        ),
{
    let ghost before = styles.deep_view();
    if let Some(id) = id {
        if let Some(style) = styles.take(id.as_str()) {
            let mut style: ParagraphStyleDef = style;
            style.put_nested_style(nested);
            let ghost x = style.deep_view();
            styles.insert(id.clone(), style);
            assert(before.remove(id@).insert(id@, x) =~= before.insert(id@, x));
        }
    }
}

impl ParagraphStyleDefView {
    /// The style with its bullet replaced.
    pub open spec fn with_bullet(self, bullet: u32) -> ParagraphStyleDefView {
        ParagraphStyleDefView { bullet_character: Some(bullet), ..self }
    }
}

impl ParagraphStyleDef {
    fn put_bullet(&mut self, bullet: u32)
        ensures
            final(self).deep_view() == old(self).deep_view().with_bullet(bullet),
    {
        self.bullet_character = Some(bullet);
    }
}

/// `styles` with that done to the style `id`, where it is there.
pub open spec fn paragraph_with_bullet(
    styles: Map<Seq<char>, ParagraphStyleDefView>,
    id: Option<Seq<char>>, bullet: u32,
) -> Map<Seq<char>, ParagraphStyleDefView> {
    match id {
        Some(id) if styles.dom().contains(id) => styles.insert(id, styles[id].with_bullet(bullet)),
        _ => styles,
    }
}

fn paragraph_put_bullet(styles: &mut IdMap<ParagraphStyleDef>, id: &Option<String>, bullet: u32)
    ensures
        final(styles).deep_view() == paragraph_with_bullet(
            old(styles).deep_view(),
            id.deep_view(), bullet,
        ),
{
    let ghost before = styles.deep_view();
    if let Some(id) = id {
        if let Some(style) = styles.take(id.as_str()) {
            let mut style: ParagraphStyleDef = style;
            style.put_bullet(bullet);
            let ghost x = style.deep_view();
            styles.insert(id.clone(), style);
            assert(before.remove(id@).insert(id@, x) =~= before.insert(id@, x));
        }
    }
}

impl TOCStyleDefView {
    /// The style with a level added.
    pub open spec fn with_entry(self, entry: TOCStyleEntryDefView) -> TOCStyleDefView {
        TOCStyleDefView { entries: self.entries.push(entry), ..self }
    }
}

impl TOCStyleDef {
    fn put_entry(&mut self, entry: TOCStyleEntryDef)
        ensures
            final(self).deep_view() == old(self).deep_view().with_entry(entry.deep_view()),
    {
        push_item(&mut self.entries, entry);
    }
}

/// `styles` with that done to the style `id`, where it is there.
pub open spec fn toc_with_entry(
    styles: Map<Seq<char>, TOCStyleDefView>,
    id: Option<Seq<char>>, entry: TOCStyleEntryDefView,
) -> Map<Seq<char>, TOCStyleDefView> {
    match id {
        Some(id) if styles.dom().contains(id) => styles.insert(id, styles[id].with_entry(entry)),
        _ => styles,
    }
}

fn toc_put_entry(styles: &mut IdMap<TOCStyleDef>, id: &Option<String>, entry: TOCStyleEntryDef)
    ensures
        final(styles).deep_view() == toc_with_entry(
            old(styles).deep_view(),
            id.deep_view(), entry.deep_view(),
        ),
{
    let ghost before = styles.deep_view();
    if let Some(id) = id {
        if let Some(style) = styles.take(id.as_str()) {
            let mut style: TOCStyleDef = style;
            style.put_entry(entry);
            let ghost x = style.deep_view();
            styles.insert(id.clone(), style);
            assert(before.remove(id@).insert(id@, x) =~= before.insert(id@, x));
        }
    }
}

impl StrokeStyleDefView {
    /// The style with a stripe added.
    pub open spec fn with_stripe(self, stripe: StripeDef) -> StrokeStyleDefView {
        StrokeStyleDefView { stripes: self.stripes.push(stripe), ..self }
    }
}

impl StrokeStyleDef {
    fn put_stripe(&mut self, stripe: StripeDef)
        ensures
            final(self).deep_view() == old(self).deep_view().with_stripe(stripe),
    {
        self.stripes.push(stripe);
    }
}

/// `styles` with that done to the style `id`, where it is there.
pub open spec fn stroke_with_stripe(
    styles: Map<Seq<char>, StrokeStyleDefView>,
    id: Option<Seq<char>>, stripe: StripeDef,
) -> Map<Seq<char>, StrokeStyleDefView> {
    match id {
        Some(id) if styles.dom().contains(id) => styles.insert(id, styles[id].with_stripe(stripe)),
        _ => styles,
    }
}

fn stroke_put_stripe(styles: &mut IdMap<StrokeStyleDef>, id: &Option<String>, stripe: StripeDef)
    ensures
        final(styles).deep_view() == stroke_with_stripe(
            old(styles).deep_view(),
            id.deep_view(), stripe,
        ),
{
    let ghost before = styles.deep_view();
    if let Some(id) = id {
        if let Some(style) = styles.take(id.as_str()) {
            let mut style: StrokeStyleDef = style;
            style.put_stripe(stripe);
            let ghost x = style.deep_view();
            styles.insert(id.clone(), style);
            assert(before.remove(id@).insert(id@, x) =~= before.insert(id@, x));
        }
    }
}

/// Which kind of style is open.
#[derive(Clone, Copy, Debug, PartialEq, Eq, Structural)]
pub enum CurrentStyle {
    Character,
    Paragraph,
    Object,
    Cell,
    Table,
}

impl DeepView for CurrentStyle {
    type V = CurrentStyle;

    open spec fn deep_view(&self) -> CurrentStyle {
        *self
    }
}

/// Which property is written as an element of its own.
#[derive(Clone, Copy, Debug, PartialEq, Eq, Structural)]
pub enum CurrentProperty {
    AppliedFont,
    BasedOn,
    NumberingExpression,
}

impl DeepView for CurrentProperty {
    type V = CurrentProperty;

    open spec fn deep_view(&self) -> CurrentProperty {
        *self
    }
}

/// The styles in the making.
pub struct Progress {
    pub out: StyleSheet,
    /// The character style that is open.
    pub character: Option<String>,
    /// The paragraph style that is open.
    pub paragraph: Option<String>,
    /// The object style that is open.
    pub object: Option<String>,
    /// The cell style that is open.
    pub cell: Option<String>,
    /// The table style that is open.
    pub table: Option<String>,
    /// The toc style that is open.
    pub toc: Option<String>,
    /// The stroke style that is open.
    pub stroke: Option<String>,
    /// The kind of the style that was opened last.
    pub style: Option<CurrentStyle>,
    /// The property whose text comes next.
    pub pending: Option<CurrentProperty>,
}

/// What a [`Progress`] holds.
#[verifier::ext_equal]
pub struct ProgressView {
    pub out: StyleSheetView,
    pub character: Option<Seq<char>>,
    pub paragraph: Option<Seq<char>>,
    pub object: Option<Seq<char>>,
    pub cell: Option<Seq<char>>,
    pub table: Option<Seq<char>>,
    pub toc: Option<Seq<char>>,
    pub stroke: Option<Seq<char>>,
    pub style: Option<CurrentStyle>,
    pub pending: Option<CurrentProperty>,
}

impl View for Progress {
    type V = ProgressView;

    open spec fn view(&self) -> ProgressView {
        ProgressView {
            out: self.out.deep_view(),
            character: self.character.deep_view(),
            paragraph: self.paragraph.deep_view(),
            object: self.object.deep_view(),
            cell: self.cell.deep_view(),
            table: self.table.deep_view(),
            toc: self.toc.deep_view(),
            stroke: self.stroke.deep_view(),
            style: self.style,
            pending: self.pending,
        }
    }
}

/// `st` after the opening tag of a style, which stays open unless it closes
/// itself.
pub open spec fn after_style(st: ProgressView, tag: TagView) -> ProgressView {
    if tag.is("CharacterStyle"@) {
        match character_style_of(tag) {
            None => st,
            Some(x) => {
                let out = StyleSheetView {
                    character_styles: st.out.character_styles.insert(x.self_id, x),
                    ..st.out
                };
                if tag.empty {
                    ProgressView { out, ..st }
                } else {
                    ProgressView {
                        out,
                        character: Some(x.self_id),
                        style: Some(CurrentStyle::Character),
                        ..st
                    }
                }
            },
        }
    } else if tag.is("ParagraphStyle"@) {
        match paragraph_style_of(tag) {
            None => st,
            Some(x) => {
                let out = StyleSheetView {
                    paragraph_styles: st.out.paragraph_styles.insert(x.self_id, x),
                    ..st.out
                };
                if tag.empty {
                    ProgressView { out, ..st }
                } else {
                    ProgressView {
                        out,
                        paragraph: Some(x.self_id),
                        style: Some(CurrentStyle::Paragraph),
                        ..st
                    }
                }
            },
        }
    } else if tag.is("ObjectStyle"@) {
        match object_style_of(tag) {
            None => st,
            Some(x) => {
                let out = StyleSheetView {
                    object_styles: st.out.object_styles.insert(x.self_id, x),
                    ..st.out
                };
                if tag.empty {
                    ProgressView { out, ..st }
                } else {
                    ProgressView {
                        out,
                        object: Some(x.self_id),
                        style: Some(CurrentStyle::Object),
                        ..st
                    }
                }
            },
        }
    } else if tag.is("CellStyle"@) {
        match cell_style_of(tag) {
            None => st,
            Some(x) => {
                let out = StyleSheetView {
                    cell_styles: st.out.cell_styles.insert(x.self_id, x),
                    ..st.out
                };
                if tag.empty {
                    ProgressView { out, ..st }
                } else {
                    ProgressView {
                        out,
                        cell: Some(x.self_id),
                        style: Some(CurrentStyle::Cell),
                        ..st
                    }
                }
            },
        }
    } else if tag.is("TableStyle"@) {
        match table_style_of(tag) {
            None => st,
            Some(x) => {
                let out = StyleSheetView {
                    table_styles: st.out.table_styles.insert(x.self_id, x),
                    ..st.out
                };
                if tag.empty {
                    ProgressView { out, ..st }
                } else {
                    ProgressView {
                        out,
                        table: Some(x.self_id),
                        style: Some(CurrentStyle::Table),
                        ..st
                    }
                }
            },
        }
    } else if tag.is("TOCStyle"@) {
        match toc_style_of(tag) {
            None => st,
            Some(x) => {
                let out = StyleSheetView {
                    toc_styles: st.out.toc_styles.insert(x.self_id, x),
                    ..st.out
                };
                if tag.empty {
                    ProgressView { out, ..st }
                } else {
                    ProgressView { out, toc: Some(x.self_id), ..st }
                }
            },
        }
    } else {
        match stroke_style_of(tag) {
            None => st,
            Some(x) => {
                let out = StyleSheetView {
                    stroke_styles: st.out.stroke_styles.insert(x.self_id, x),
                    ..st.out
                };
                if tag.empty {
                    ProgressView { out, ..st }
                } else {
                    ProgressView { out, stroke: Some(x.self_id), ..st }
                }
            },
        }
    }
}

fn on_style(st: &mut Progress, tag: &Tag)
    ensures
        final(st)@ == after_style(old(st)@, tag@),
{
    if tag.is("CharacterStyle") {
        if let Some(x) = read_character_style(tag) {
            if !tag.empty {
                st.character = Some(x.self_id.clone());
                st.style = Some(CurrentStyle::Character);
            }
            st.out.character_styles.insert(x.self_id.clone(), x);
        }
    } else if tag.is("ParagraphStyle") {
        if let Some(x) = read_paragraph_style(tag) {
            if !tag.empty {
                st.paragraph = Some(x.self_id.clone());
                st.style = Some(CurrentStyle::Paragraph);
            }
            st.out.paragraph_styles.insert(x.self_id.clone(), x);
        }
    } else if tag.is("ObjectStyle") {
        if let Some(x) = read_object_style(tag) {
            if !tag.empty {
                st.object = Some(x.self_id.clone());
                st.style = Some(CurrentStyle::Object);
            }
            st.out.object_styles.insert(x.self_id.clone(), x);
        }
    } else if tag.is("CellStyle") {
        if let Some(x) = read_cell_style(tag) {
            if !tag.empty {
                st.cell = Some(x.self_id.clone());
                st.style = Some(CurrentStyle::Cell);
            }
            st.out.cell_styles.insert(x.self_id.clone(), x);
        }
    } else if tag.is("TableStyle") {
        if let Some(x) = read_table_style(tag) {
            if !tag.empty {
                st.table = Some(x.self_id.clone());
                st.style = Some(CurrentStyle::Table);
            }
            st.out.table_styles.insert(x.self_id.clone(), x);
        }
    } else if tag.is("TOCStyle") {
        if let Some(x) = read_toc_style(tag) {
            if !tag.empty {
                st.toc = Some(x.self_id.clone());
            }
            st.out.toc_styles.insert(x.self_id.clone(), x);
        }
    } else {
        if let Some(x) = read_stroke_style(tag) {
            if !tag.empty {
                st.stroke = Some(x.self_id.clone());
            }
            st.out.stroke_styles.insert(x.self_id.clone(), x);
        }
    }
}

/// Whether the name is that of a style.
pub open spec fn is_style(name: Seq<u8>) -> bool {
    ||| name == encode_utf8("CharacterStyle"@)
    ||| name == encode_utf8("ParagraphStyle"@)
    ||| name == encode_utf8("ObjectStyle"@)
    ||| name == encode_utf8("CellStyle"@)
    ||| name == encode_utf8("TableStyle"@)
    ||| name == encode_utf8("TOCStyle"@)
    ||| stroke_kind_of(name) is Some
}

fn test_style(name: &Vec<u8>) -> (r: bool)
    ensures
        r == is_style(name@),
{
    name_is(name, "CharacterStyle")
        || name_is(name, "ParagraphStyle")
        || name_is(name, "ObjectStyle")
        || name_is(name, "CellStyle")
        || name_is(name, "TableStyle")
        || name_is(name, "TOCStyle")
        || read_stroke_kind(name).is_some()
}

/// `st` after an opening tag that is not that of a style. Tab stops, nested
/// styles, bullets and stripes close themselves; a property written as an
/// element does not.
pub open spec fn after_part(st: ProgressView, tag: TagView) -> ProgressView {
    if tag.is("Condition"@) {
        match condition_of(tag) {
            None => st,
            Some(x) => ProgressView {
                out: StyleSheetView {
                    conditions: st.out.conditions.insert(x.self_id, x),
                    ..st.out
                },
                ..st
            },
        }
    } else if tag.is("ConditionSet"@) {
        match condition_set_of(tag) {
            None => st,
            Some(x) => ProgressView {
                out: StyleSheetView {
                    condition_sets: st.out.condition_sets.insert(x.self_id, x),
                    ..st.out
                },
                ..st
            },
        }
    } else if tag.is("NumberingList"@) {
        match numbering_list_of(tag) {
            None => st,
            Some(x) => ProgressView {
                out: StyleSheetView {
                    numbering_lists: st.out.numbering_lists.insert(x.self_id, x),
                    ..st.out
                },
                ..st
            },
        }
    } else if tag.is("TOCStyleEntry"@) {
        ProgressView {
            out: StyleSheetView {
                toc_styles: toc_with_entry(st.out.toc_styles, st.toc, toc_entry_of(tag)),
                ..st.out
            },
            ..st
        }
    } else if tag.empty {
        ProgressView { out: after_child(st, tag), ..st }
    } else if tag.is("AppliedFont"@) && st.style is Some {
        ProgressView { pending: Some(CurrentProperty::AppliedFont), ..st }
    } else if tag.is("BasedOn"@) && st.style is Some {
        ProgressView { pending: Some(CurrentProperty::BasedOn), ..st }
    } else if tag.is("NumberingExpression"@) && st.style == Some(CurrentStyle::Paragraph) {
        ProgressView { pending: Some(CurrentProperty::NumberingExpression), ..st }
    } else {
        st
    }
}

/// The styles after a self-closing tag inside one.
pub open spec fn after_child(st: ProgressView, tag: TagView) -> StyleSheetView {
    let out = st.out;
    if tag.is("TabStop"@) {
        match tab_stop_of(tag) {
            None => out,
            Some(x) => StyleSheetView {
                paragraph_styles: paragraph_with_tab_stop(out.paragraph_styles, st.paragraph, x),
                ..out
            },
        }
    } else if tag.is("NestedStyle"@) {
        match nested_style_of(tag) {
            None => out,
            Some(x) => StyleSheetView {
                paragraph_styles: paragraph_with_nested_style(
                    out.paragraph_styles,
                    st.paragraph,
                    x,
                ),
                ..out
            },
        }
    } else if tag.is("Stripe"@) {
        match stripe_of(tag) {
            None => out,
            Some(x) => StyleSheetView {
                stroke_styles: stroke_with_stripe(out.stroke_styles, st.stroke, x),
                ..out
            },
        }
    } else if tag.is("BulletChar"@) {
        match tag.count("BulletCharacterValue"@) {
            None => out,
            Some(x) => StyleSheetView {
                paragraph_styles: paragraph_with_bullet(out.paragraph_styles, st.paragraph, x),
                ..out
            },
        }
    } else {
        out
    }
}

fn on_child(st: &mut Progress, tag: &Tag)
    ensures
        final(st)@ == (ProgressView { out: after_child(old(st)@, tag@), ..old(st)@ }),
{
    if tag.is("TabStop") {
        if let Some(x) = read_tab_stop(tag) {
            paragraph_put_tab_stop(&mut st.out.paragraph_styles, &st.paragraph, x);
        }
    } else if tag.is("NestedStyle") {
        if let Some(x) = read_nested_style(tag) {
            paragraph_put_nested_style(&mut st.out.paragraph_styles, &st.paragraph, x);
        }
    } else if tag.is("Stripe") {
        if let Some(x) = read_stripe(tag) {
            stroke_put_stripe(&mut st.out.stroke_styles, &st.stroke, x);
        }
    } else if tag.is("BulletChar") {
        if let Some(x) = tag.count("BulletCharacterValue") {
            paragraph_put_bullet(&mut st.out.paragraph_styles, &st.paragraph, x);
        }
    }
}

fn on_part(st: &mut Progress, tag: &Tag)
    ensures
        final(st)@ == after_part(old(st)@, tag@),
{
    if tag.is("Condition") {
        if let Some(x) = read_condition(tag) {
            st.out.conditions.insert(x.self_id.clone(), x);
        }
    } else if tag.is("ConditionSet") {
        if let Some(x) = read_condition_set(tag) {
            st.out.condition_sets.insert(x.self_id.clone(), x);
        }
    } else if tag.is("NumberingList") {
        if let Some(x) = read_numbering_list(tag) {
            st.out.numbering_lists.insert(x.self_id.clone(), x);
        }
    } else if tag.is("TOCStyleEntry") {
        toc_put_entry(&mut st.out.toc_styles, &st.toc, read_toc_entry(tag));
    } else if tag.empty {
        on_child(st, tag);
    } else if tag.is("AppliedFont") && st.style.is_some() {
        st.pending = Some(CurrentProperty::AppliedFont);
    } else if tag.is("BasedOn") && st.style.is_some() {
        st.pending = Some(CurrentProperty::BasedOn);
    } else if tag.is("NumberingExpression") {
        if let Some(CurrentStyle::Paragraph) = st.style {
            st.pending = Some(CurrentProperty::NumberingExpression);
        }
    }
}

/// The styles after the text of a property: it goes to the style that is open,
/// unless that style has the property already.
pub open spec fn after_property(
    st: ProgressView,
    style: CurrentStyle,
    property: CurrentProperty,
    text: Seq<char>,
) -> StyleSheetView {
    let out = st.out;
    match (style, property) {
        (CurrentStyle::Paragraph, CurrentProperty::AppliedFont) => StyleSheetView {
            paragraph_styles: paragraph_with_font(out.paragraph_styles, st.paragraph, text),
            ..out
        },
        (CurrentStyle::Paragraph, CurrentProperty::BasedOn) => StyleSheetView {
            paragraph_styles: paragraph_with_based_on(out.paragraph_styles, st.paragraph, text),
            ..out
        },
        (CurrentStyle::Paragraph, CurrentProperty::NumberingExpression) => StyleSheetView {
            paragraph_styles: paragraph_with_numbering_expression(
                out.paragraph_styles,
                st.paragraph,
                text,
            ),
            ..out
        },
        (CurrentStyle::Character, CurrentProperty::AppliedFont) => StyleSheetView {
            character_styles: character_with_font(out.character_styles, st.character, text),
            ..out
        },
        (CurrentStyle::Character, CurrentProperty::BasedOn) => StyleSheetView {
            character_styles: character_with_based_on(out.character_styles, st.character, text),
            ..out
        },
        (CurrentStyle::Object, CurrentProperty::BasedOn) => StyleSheetView {
            object_styles: object_with_based_on(out.object_styles, st.object, text),
            ..out
        },
        (CurrentStyle::Cell, CurrentProperty::BasedOn) => StyleSheetView {
            cell_styles: cell_with_based_on(out.cell_styles, st.cell, text),
            ..out
        },
        (CurrentStyle::Table, CurrentProperty::BasedOn) => StyleSheetView {
            table_styles: table_with_based_on(out.table_styles, st.table, text),
            ..out
        },
        _ => out,
    }
}

fn on_property(st: &mut Progress, style: CurrentStyle, property: CurrentProperty, text: String)
    ensures
        final(st)@ == (ProgressView {
            out: after_property(old(st)@, style, property, text@),
            ..old(st)@
        }),
{
    match (style, property) {
        (CurrentStyle::Paragraph, CurrentProperty::AppliedFont) => {
            paragraph_put_font(&mut st.out.paragraph_styles, &st.paragraph, text)
        },
        (CurrentStyle::Paragraph, CurrentProperty::BasedOn) => {
            paragraph_put_based_on(&mut st.out.paragraph_styles, &st.paragraph, text)
        },
        (CurrentStyle::Paragraph, CurrentProperty::NumberingExpression) => {
            paragraph_put_numbering_expression(&mut st.out.paragraph_styles, &st.paragraph, text)
        },
        (CurrentStyle::Character, CurrentProperty::AppliedFont) => {
            character_put_font(&mut st.out.character_styles, &st.character, text)
        },
        (CurrentStyle::Character, CurrentProperty::BasedOn) => {
            character_put_based_on(&mut st.out.character_styles, &st.character, text)
        },
        (CurrentStyle::Object, CurrentProperty::BasedOn) => {
            object_put_based_on(&mut st.out.object_styles, &st.object, text)
        },
        (CurrentStyle::Cell, CurrentProperty::BasedOn) => {
            cell_put_based_on(&mut st.out.cell_styles, &st.cell, text)
        },
        (CurrentStyle::Table, CurrentProperty::BasedOn) => {
            table_put_based_on(&mut st.out.table_styles, &st.table, text)
        },
        _ => {},
    }
}

/// `st` after character data, which counts only for a property that waits for
/// it.
pub open spec fn after_text(st: ProgressView, raw: Seq<u8>) -> ProgressView {
    let text = text_content(raw);
    match (st.pending, st.style) {
        (None, _) => st,
        (Some(_), None) => ProgressView { pending: None, ..st },
        (Some(property), Some(style)) => if text.len() == 0 {
            ProgressView { pending: None, ..st }
        } else {
            ProgressView {
                out: after_property(st, style, property, text),
                pending: None,
                ..st
            }
        },
    }
}

fn on_text(st: &mut Progress, raw: &Vec<u8>)
    ensures
        final(st)@ == after_text(old(st)@, raw@),
{
    if let Some(property) = st.pending {
        if let Some(style) = st.style {
            let text: String = read_text(raw.as_slice());
            let none: String = String::new();
            if !same_text(text.as_str(), none.as_str()) {
                on_property(st, style, property, text);
            }
        }
        st.pending = None;
    }
}

/// `st` after a closing tag.
pub open spec fn after_end(st: ProgressView, name: Seq<u8>) -> ProgressView {
    if stroke_kind_of(name) is Some {
        ProgressView { stroke: None, ..st }
    } else if name == encode_utf8("CharacterStyle"@) {
        ProgressView {
            character: None,
            style: unless_kind(st.style, CurrentStyle::Character),
            ..st
        }
    } else if name == encode_utf8("ParagraphStyle"@) {
        ProgressView {
            paragraph: None,
            style: unless_kind(st.style, CurrentStyle::Paragraph),
            ..st
        }
    } else if name == encode_utf8("ObjectStyle"@) {
        ProgressView { object: None, style: unless_kind(st.style, CurrentStyle::Object), ..st }
    } else if name == encode_utf8("CellStyle"@) {
        ProgressView { cell: None, style: unless_kind(st.style, CurrentStyle::Cell), ..st }
    } else if name == encode_utf8("TableStyle"@) {
        ProgressView { table: None, style: unless_kind(st.style, CurrentStyle::Table), ..st }
    } else if name == encode_utf8("TOCStyle"@) {
        ProgressView { toc: None, ..st }
    } else if name == encode_utf8("AppliedFont"@) || name == encode_utf8("BasedOn"@) || name
        == encode_utf8("NumberingExpression"@) {
        ProgressView { pending: None, ..st }
    } else {
        st
    }
}

/// `style`, unless it is of this kind.
pub open spec fn unless_kind(
    style: Option<CurrentStyle>,
    kind: CurrentStyle,
) -> Option<CurrentStyle> {
    if style == Some(kind) {
        None
    } else {
        style
    }
}

fn drop_kind(style: Option<CurrentStyle>, kind: CurrentStyle) -> (r: Option<CurrentStyle>)
    ensures
        r == unless_kind(style, kind),
{
    match style {
        None => None,
        Some(s) => if s == kind {
            None
        } else {
            Some(s)
        },
    }
}

fn on_end(st: &mut Progress, name: &Vec<u8>)
    ensures
        final(st)@ == after_end(old(st)@, name@),
{
    if read_stroke_kind(name).is_some() {
        st.stroke = None;
    } else if name_is(name, "CharacterStyle") {
        st.character = None;
        st.style = drop_kind(st.style, CurrentStyle::Character);
    } else if name_is(name, "ParagraphStyle") {
        st.paragraph = None;
        st.style = drop_kind(st.style, CurrentStyle::Paragraph);
    } else if name_is(name, "ObjectStyle") {
        st.object = None;
        st.style = drop_kind(st.style, CurrentStyle::Object);
    } else if name_is(name, "CellStyle") {
        st.cell = None;
        st.style = drop_kind(st.style, CurrentStyle::Cell);
    } else if name_is(name, "TableStyle") {
        st.table = None;
        st.style = drop_kind(st.style, CurrentStyle::Table);
    } else if name_is(name, "TOCStyle") {
        st.toc = None;
    } else if name_is(name, "AppliedFont") || name_is(name, "BasedOn") || name_is(
        name,
        "NumberingExpression",
    ) {
        st.pending = None;
    }
}

/// `st` after one event.
pub open spec fn after_event(st: ProgressView, event: EventView) -> ProgressView {
    match event {
        EventView::Open(tag) => if is_style(tag.name) {
            after_style(st, tag)
        } else {
            after_part(st, tag)
        },
        EventView::End(name) => after_end(st, name),
        EventView::Text(raw) => after_text(st, raw),
        _ => st,
    }
}

/// Nothing read yet.
pub open spec fn at_start() -> ProgressView {
    ProgressView {
        out: no_styles(),
        character: None,
        paragraph: None,
        object: None,
        cell: None,
        table: None,
        toc: None,
        stroke: None,
        style: None,
        pending: None,
    }
}

/// What stands after the first `n` events.
pub open spec fn after_events(events: Seq<EventView>, n: nat) -> ProgressView
    decreases n,
{
    if n == 0 {
        at_start()
    } else {
        after_event(after_events(events, (n - 1) as nat), events[n - 1])
    }
}

/// The styles that the events of a document state.
pub open spec fn stylesheet_of(events: Seq<EventView>) -> StyleSheetView {
    after_events(events, events.len()).out
}

/// Builds the styles from the events of `Styles.xml`.
pub fn stylesheet_from_events(events: &Vec<XmlEvent>) -> (r: StyleSheet)
    ensures
        r.deep_view() == stylesheet_of(events.deep_view()),
{
    let mut st = Progress {
        out: StyleSheet::default(),
        character: None,
        paragraph: None,
        object: None,
        cell: None,
        table: None,
        toc: None,
        stroke: None,
        style: None,
        pending: None,
    };
    assert(st@ =~= at_start());
    let mut i: usize = 0;
    while i < events.len()
        invariant
            i <= events@.len(),
            st@ == after_events(events.deep_view(), i as nat),
        decreases events@.len() - i,
    {
        match &events[i] {
            XmlEvent::Open(tag) => {
                if test_style(&tag.name) {
                    on_style(&mut st, tag)
                } else {
                    on_part(&mut st, tag)
                }
            },
            XmlEvent::End(name) => on_end(&mut st, name),
            XmlEvent::Text(raw) => on_text(&mut st, raw),
            _ => {},
        }
        i = i + 1;
    }
    st.out
}

/// Parses `Resources/Styles.xml`.
pub fn parse_stylesheet(xml: &[u8]) -> (r: Result<StyleSheet, ParseError>)
    ensures
        match r {
            Ok(styles) => xml_events(xml@, true) matches Some(events) && styles.deep_view()
                == stylesheet_of(events),
            Err(e) => e is Xml && xml_events(xml@, true) is None,
        },
{
    match read_events(xml, true) {
        Err(e) => Err(e),
        Ok(events) => Ok(stylesheet_from_events(&events)),
    }
}

} // verus!
