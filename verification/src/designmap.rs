//! `designmap.xml`: the manifest that lists a document's spreads, stories and
//! masters, and its document-wide settings.
use crate::ParseError;
use crate::number::{zero, Num};
use crate::text::same_text;
use crate::util::{either, first_of, push_item};
use crate::xml::{read_events, xml_events, EventView, Tag, TagView, XmlEvent};
use vstd::prelude::*;
use vstd::utf8::encode_utf8;

verus! {

/// How page numbers are written.
#[derive(Clone, Copy, Debug, PartialEq, Eq, Structural)]
pub enum NumberingStyle {
    Arabic,
    UpperRoman,
    LowerRoman,
    UpperAlpha,
    LowerAlpha,
}

impl DeepView for NumberingStyle {
    type V = NumberingStyle;

    open spec fn deep_view(&self) -> NumberingStyle {
        *self
    }
}

impl NumberingStyle {
    /// The style that a `PageNumberStyle` value names; Arabic where it is none
    /// of those known.
    pub open spec fn named(s: Seq<char>) -> NumberingStyle {
        if s == "UpperRoman"@ {
            NumberingStyle::UpperRoman
        } else if s == "LowerRoman"@ {
            NumberingStyle::LowerRoman
        } else if s == "UpperLetters"@ {
            NumberingStyle::UpperAlpha
        } else if s == "LowerLetters"@ {
            NumberingStyle::LowerAlpha
        } else {
            NumberingStyle::Arabic
        }
    }

    /// Reads a `PageNumberStyle` value.
    pub fn from_idml(s: &str) -> (r: NumberingStyle)
        ensures
            r == NumberingStyle::named(s@),
    {
        if same_text(s, "UpperRoman") {
            NumberingStyle::UpperRoman
        } else if same_text(s, "LowerRoman") {
            NumberingStyle::LowerRoman
        } else if same_text(s, "UpperLetters") {
            NumberingStyle::UpperAlpha
        } else if same_text(s, "LowerLetters") {
            NumberingStyle::LowerAlpha
        } else {
            NumberingStyle::Arabic
        }
    }
}

/// The colour profiles and intents of a document.
#[derive(Debug, PartialEq)]
pub struct ColorSettings {
    pub cmyk_profile: Option<String>,
    pub rgb_profile: Option<String>,
    pub solid_color_intent: Option<String>,
    pub after_blending_intent: Option<String>,
    pub default_image_intent: Option<String>,
}

/// What a [`ColorSettings`] holds.
#[verifier::ext_equal]
pub struct ColorSettingsView {
    pub cmyk_profile: Option<Seq<char>>,
    pub rgb_profile: Option<Seq<char>>,
    pub solid_color_intent: Option<Seq<char>>,
    pub after_blending_intent: Option<Seq<char>>,
    pub default_image_intent: Option<Seq<char>>,
}

impl DeepView for ColorSettings {
    type V = ColorSettingsView;

    open spec fn deep_view(&self) -> ColorSettingsView {
        ColorSettingsView {
            cmyk_profile: self.cmyk_profile.deep_view(),
            rgb_profile: self.rgb_profile.deep_view(),
            solid_color_intent: self.solid_color_intent.deep_view(),
            after_blending_intent: self.after_blending_intent.deep_view(),
            default_image_intent: self.default_image_intent.deep_view(),
        }
    }
}

/// Bleed and slug offsets, in points.
#[derive(Clone, Copy, Debug, PartialEq, Eq, Structural)]
pub struct DocumentPreference {
    pub bleed_top: Num,
    pub bleed_bottom: Num,
    pub bleed_inside_or_left: Num,
    pub bleed_outside_or_right: Num,
    pub slug_top: Num,
    pub slug_bottom: Num,
    pub slug_inside_or_left: Num,
    pub slug_right_or_outside: Num,
}

impl DeepView for DocumentPreference {
    type V = DocumentPreference;

    open spec fn deep_view(&self) -> DocumentPreference {
        *self
    }
}

/// Footnote separator and spacing settings.
#[derive(Debug, PartialEq)]
pub struct FootnoteOptions {
    /// Whether the document states any.
    pub present: bool,
    pub rule_on: Option<bool>,
    pub rule_color: Option<String>,
    pub rule_tint: Option<Num>,
    pub rule_line_weight: Option<Num>,
    pub rule_width: Option<Num>,
    pub rule_left_indent: Option<Num>,
    pub rule_offset: Option<Num>,
    pub separator_text: Option<String>,
    pub spacer: Option<Num>,
    pub space_between: Option<Num>,
}

/// What a [`FootnoteOptions`] holds.
#[verifier::ext_equal]
pub struct FootnoteOptionsView {
    pub present: bool,
    pub rule_on: Option<bool>,
    pub rule_color: Option<Seq<char>>,
    pub rule_tint: Option<Num>,
    pub rule_line_weight: Option<Num>,
    pub rule_width: Option<Num>,
    pub rule_left_indent: Option<Num>,
    pub rule_offset: Option<Num>,
    pub separator_text: Option<Seq<char>>,
    pub spacer: Option<Num>,
    pub space_between: Option<Num>,
}

impl DeepView for FootnoteOptions {
    type V = FootnoteOptionsView;

    open spec fn deep_view(&self) -> FootnoteOptionsView {
        FootnoteOptionsView {
            present: self.present,
            rule_on: self.rule_on,
            rule_color: self.rule_color.deep_view(),
            rule_tint: self.rule_tint,
            rule_line_weight: self.rule_line_weight,
            rule_width: self.rule_width,
            rule_left_indent: self.rule_left_indent,
            rule_offset: self.rule_offset,
            separator_text: self.separator_text.deep_view(),
            spacer: self.spacer,
            space_between: self.space_between,
        }
    }
}

/// Baseline grid and document grid settings.
#[derive(Debug, PartialEq)]
pub struct GridPreference {
    /// Whether the document states any.
    pub present: bool,
    pub baseline_start: Option<Num>,
    pub baseline_division: Option<Num>,
    pub baseline_grid_shown: Option<bool>,
    pub baseline_grid_relative_option: Option<String>,
    pub baseline_color: Option<String>,
    pub horizontal_gridline_division: Option<Num>,
    pub vertical_gridline_division: Option<Num>,
}

/// What a [`GridPreference`] holds.
#[verifier::ext_equal]
pub struct GridPreferenceView {
    pub present: bool,
    pub baseline_start: Option<Num>,
    pub baseline_division: Option<Num>,
    pub baseline_grid_shown: Option<bool>,
    pub baseline_grid_relative_option: Option<Seq<char>>,
    pub baseline_color: Option<Seq<char>>,
    pub horizontal_gridline_division: Option<Num>,
    pub vertical_gridline_division: Option<Num>,
}

impl DeepView for GridPreference {
    type V = GridPreferenceView;

    open spec fn deep_view(&self) -> GridPreferenceView {
        GridPreferenceView {
            present: self.present,
            baseline_start: self.baseline_start,
            baseline_division: self.baseline_division,
            baseline_grid_shown: self.baseline_grid_shown,
            baseline_grid_relative_option: self.baseline_grid_relative_option.deep_view(),
            baseline_color: self.baseline_color.deep_view(),
            horizontal_gridline_division: self.horizontal_gridline_division,
            vertical_gridline_division: self.vertical_gridline_division,
        }
    }
}

/// A layer, or a group of layers.
#[derive(Debug, PartialEq)]
pub struct Layer {
    pub self_id: String,
    pub name: Option<String>,
    pub visible: bool,
    pub locked: bool,
    pub printable: bool,
    /// The group that the layer stands in.
    pub parent_id: Option<String>,
}

/// What a [`Layer`] holds.
#[verifier::ext_equal]
pub struct LayerView {
    pub self_id: Seq<char>,
    pub name: Option<Seq<char>>,
    pub visible: bool,
    pub locked: bool,
    pub printable: bool,
    pub parent_id: Option<Seq<char>>,
}

impl DeepView for Layer {
    type V = LayerView;

    open spec fn deep_view(&self) -> LayerView {
        LayerView {
            self_id: self.self_id@,
            name: self.name.deep_view(),
            visible: self.visible,
            locked: self.locked,
            printable: self.printable,
            parent_id: self.parent_id.deep_view(),
        }
    }
}

/// A text variable and its preference.
#[derive(Debug, PartialEq)]
pub struct TextVariable {
    pub self_id: String,
    pub name: Option<String>,
    pub variable_type: Option<String>,
    pub contents: Option<String>,
    pub date_format: Option<String>,
    pub text_before: Option<String>,
    pub text_after: Option<String>,
    pub running_header_style: Option<String>,
    pub running_header_use: Option<String>,
}

/// What a [`TextVariable`] holds.
#[verifier::ext_equal]
pub struct TextVariableView {
    pub self_id: Seq<char>,
    pub name: Option<Seq<char>>,
    pub variable_type: Option<Seq<char>>,
    pub contents: Option<Seq<char>>,
    pub date_format: Option<Seq<char>>,
    pub text_before: Option<Seq<char>>,
    pub text_after: Option<Seq<char>>,
    pub running_header_style: Option<Seq<char>>,
    pub running_header_use: Option<Seq<char>>,
}

impl DeepView for TextVariable {
    type V = TextVariableView;

    open spec fn deep_view(&self) -> TextVariableView {
        TextVariableView {
            self_id: self.self_id@,
            name: self.name.deep_view(),
            variable_type: self.variable_type.deep_view(),
            contents: self.contents.deep_view(),
            date_format: self.date_format.deep_view(),
            text_before: self.text_before.deep_view(),
            text_after: self.text_after.deep_view(),
            running_header_style: self.running_header_style.deep_view(),
            running_header_use: self.running_header_use.deep_view(),
        }
    }
}

/// Where a hyperlink leads.
#[derive(Debug, PartialEq)]
pub enum HyperlinkDestinationKind {
    Url(String),
    Page(String),
    TextAnchor(String),
}

/// What a [`HyperlinkDestinationKind`] holds.
pub enum HyperlinkDestinationKindView {
    Url(Seq<char>),
    Page(Seq<char>),
    TextAnchor(Seq<char>),
}

impl DeepView for HyperlinkDestinationKind {
    type V = HyperlinkDestinationKindView;

    open spec fn deep_view(&self) -> HyperlinkDestinationKindView {
        match self {
            HyperlinkDestinationKind::Url(s) => HyperlinkDestinationKindView::Url(s@),
            HyperlinkDestinationKind::Page(s) => HyperlinkDestinationKindView::Page(s@),
            HyperlinkDestinationKind::TextAnchor(s) => HyperlinkDestinationKindView::TextAnchor(s@),
        }
    }
}

/// A named place that hyperlinks lead to.
#[derive(Debug, PartialEq)]
pub struct HyperlinkDestination {
    pub self_id: String,
    pub kind: HyperlinkDestinationKind,
}

/// What a [`HyperlinkDestination`] holds.
#[verifier::ext_equal]
pub struct HyperlinkDestinationView {
    pub self_id: Seq<char>,
    pub kind: HyperlinkDestinationKindView,
}

impl DeepView for HyperlinkDestination {
    type V = HyperlinkDestinationView;

    open spec fn deep_view(&self) -> HyperlinkDestinationView {
        HyperlinkDestinationView {
            self_id: self.self_id@,
            kind: self.kind.deep_view(),
        }
    }
}

/// A numbering section.
#[derive(Debug, PartialEq)]
pub struct Section {
    pub self_id: String,
    pub page_start: Option<String>,
    pub continue_numbering: bool,
    pub start_at: Option<u32>,
    pub numbering_style: NumberingStyle,
    pub section_prefix: Option<String>,
    pub marker: Option<String>,
    pub include_prefix: bool,
}

/// What a [`Section`] holds.
#[verifier::ext_equal]
pub struct SectionView {
    pub self_id: Seq<char>,
    pub page_start: Option<Seq<char>>,
    pub continue_numbering: bool,
    pub start_at: Option<u32>,
    pub numbering_style: NumberingStyle,
    pub section_prefix: Option<Seq<char>>,
    pub marker: Option<Seq<char>>,
    pub include_prefix: bool,
}

impl DeepView for Section {
    type V = SectionView;

    open spec fn deep_view(&self) -> SectionView {
        SectionView {
            self_id: self.self_id@,
            page_start: self.page_start.deep_view(),
            continue_numbering: self.continue_numbering,
            start_at: self.start_at,
            numbering_style: self.numbering_style,
            section_prefix: self.section_prefix.deep_view(),
            marker: self.marker.deep_view(),
            include_prefix: self.include_prefix,
        }
    }
}

/// An article and the items it is made of.
#[derive(Debug, PartialEq)]
pub struct Article {
    pub self_id: String,
    pub name: Option<String>,
    pub members: Vec<String>,
}

/// What a [`Article`] holds.
#[verifier::ext_equal]
pub struct ArticleView {
    pub self_id: Seq<char>,
    pub name: Option<Seq<char>>,
    pub members: Seq<Seq<char>>,
}

impl DeepView for Article {
    type V = ArticleView;

    open spec fn deep_view(&self) -> ArticleView {
        ArticleView {
            self_id: self.self_id@,
            name: self.name.deep_view(),
            members: self.members.deep_view(),
        }
    }
}

/// A hyperlink.
#[derive(Debug, PartialEq)]
pub struct Hyperlink {
    pub self_id: String,
    pub name: Option<String>,
    pub source: Option<String>,
    pub destination: Option<String>,
}

/// What a [`Hyperlink`] holds.
#[verifier::ext_equal]
pub struct HyperlinkView {
    pub self_id: Seq<char>,
    pub name: Option<Seq<char>>,
    pub source: Option<Seq<char>>,
    pub destination: Option<Seq<char>>,
}

impl DeepView for Hyperlink {
    type V = HyperlinkView;

    open spec fn deep_view(&self) -> HyperlinkView {
        HyperlinkView {
            self_id: self.self_id@,
            name: self.name.deep_view(),
            source: self.source.deep_view(),
            destination: self.destination.deep_view(),
        }
    }
}

/// A bookmark.
#[derive(Debug, PartialEq)]
pub struct Bookmark {
    pub self_id: String,
    pub name: Option<String>,
    pub destination: Option<String>,
}

/// What a [`Bookmark`] holds.
#[verifier::ext_equal]
pub struct BookmarkView {
    pub self_id: Seq<char>,
    pub name: Option<Seq<char>>,
    pub destination: Option<Seq<char>>,
}

impl DeepView for Bookmark {
    type V = BookmarkView;

    open spec fn deep_view(&self) -> BookmarkView {
        BookmarkView {
            self_id: self.self_id@,
            name: self.name.deep_view(),
            destination: self.destination.deep_view(),
        }
    }
}

/// The source of a cross reference.
#[derive(Debug, PartialEq)]
pub struct CrossReference {
    pub self_id: String,
    pub name: Option<String>,
    pub format: Option<String>,
    pub destination: Option<String>,
}

/// What a [`CrossReference`] holds.
#[verifier::ext_equal]
pub struct CrossReferenceView {
    pub self_id: Seq<char>,
    pub name: Option<Seq<char>>,
    pub format: Option<Seq<char>>,
    pub destination: Option<Seq<char>>,
}

impl DeepView for CrossReference {
    type V = CrossReferenceView;

    open spec fn deep_view(&self) -> CrossReferenceView {
        CrossReferenceView {
            self_id: self.self_id@,
            name: self.name.deep_view(),
            format: self.format.deep_view(),
            destination: self.destination.deep_view(),
        }
    }
}

/// A topic of the index.
#[derive(Debug, PartialEq)]
pub struct IndexTopic {
    pub self_id: String,
    pub name: Option<String>,
    pub sort_order: Option<String>,
}

/// What a [`IndexTopic`] holds.
#[verifier::ext_equal]
pub struct IndexTopicView {
    pub self_id: Seq<char>,
    pub name: Option<Seq<char>>,
    pub sort_order: Option<Seq<char>>,
}

impl DeepView for IndexTopic {
    type V = IndexTopicView;

    open spec fn deep_view(&self) -> IndexTopicView {
        IndexTopicView {
            self_id: self.self_id@,
            name: self.name.deep_view(),
            sort_order: self.sort_order.deep_view(),
        }
    }
}

/// A spread that the manifest lists.
#[derive(Debug, PartialEq)]
pub struct SpreadRef {
    /// The path of its part.
    pub src: String,
}

/// What a [`SpreadRef`] holds.
#[verifier::ext_equal]
pub struct SpreadRefView {
    pub src: Seq<char>,
}

impl DeepView for SpreadRef {
    type V = SpreadRefView;

    open spec fn deep_view(&self) -> SpreadRefView {
        SpreadRefView {
            src: self.src@,
        }
    }
}

/// A story that the manifest lists.
#[derive(Debug, PartialEq)]
pub struct StoryRef {
    /// The path of its part.
    pub src: String,
}

/// What a [`StoryRef`] holds.
#[verifier::ext_equal]
pub struct StoryRefView {
    pub src: Seq<char>,
}

impl DeepView for StoryRef {
    type V = StoryRefView;

    open spec fn deep_view(&self) -> StoryRefView {
        StoryRefView {
            src: self.src@,
        }
    }
}

/// The manifest.
#[derive(Debug, PartialEq)]
pub struct DesignMap {
    pub dom_version: Option<String>,
    pub document_name: Option<String>,
    pub color_settings: ColorSettings,
    pub document_preference: DocumentPreference,
    pub footnote_options: FootnoteOptions,
    pub grid_preference: GridPreference,
    pub layers: Vec<Layer>,
    pub text_variables: Vec<TextVariable>,
    pub hyperlink_destinations: Vec<HyperlinkDestination>,
    pub sections: Vec<Section>,
    pub articles: Vec<Article>,
    pub hyperlinks: Vec<Hyperlink>,
    pub bookmarks: Vec<Bookmark>,
    pub cross_references: Vec<CrossReference>,
    pub index_topics: Vec<IndexTopic>,
    pub spreads: Vec<SpreadRef>,
    pub stories: Vec<StoryRef>,
    /// The paths of the master spreads' parts.
    pub master_spreads: Vec<String>,
}

/// What a [`DesignMap`] holds.
#[verifier::ext_equal]
pub struct DesignMapView {
    pub dom_version: Option<Seq<char>>,
    pub document_name: Option<Seq<char>>,
    pub color_settings: ColorSettingsView,
    pub document_preference: DocumentPreference,
    pub footnote_options: FootnoteOptionsView,
    pub grid_preference: GridPreferenceView,
    pub layers: Seq<LayerView>,
    pub text_variables: Seq<TextVariableView>,
    pub hyperlink_destinations: Seq<HyperlinkDestinationView>,
    pub sections: Seq<SectionView>,
    pub articles: Seq<ArticleView>,
    pub hyperlinks: Seq<HyperlinkView>,
    pub bookmarks: Seq<BookmarkView>,
    pub cross_references: Seq<CrossReferenceView>,
    pub index_topics: Seq<IndexTopicView>,
    pub spreads: Seq<SpreadRefView>,
    pub stories: Seq<StoryRefView>,
    pub master_spreads: Seq<Seq<char>>,
}

impl DeepView for DesignMap {
    type V = DesignMapView;

    open spec fn deep_view(&self) -> DesignMapView {
        DesignMapView {
            dom_version: self.dom_version.deep_view(),
            document_name: self.document_name.deep_view(),
            color_settings: self.color_settings.deep_view(),
            document_preference: self.document_preference,
            footnote_options: self.footnote_options.deep_view(),
            grid_preference: self.grid_preference.deep_view(),
            layers: self.layers.deep_view(),
            text_variables: self.text_variables.deep_view(),
            hyperlink_destinations: self.hyperlink_destinations.deep_view(),
            sections: self.sections.deep_view(),
            articles: self.articles.deep_view(),
            hyperlinks: self.hyperlinks.deep_view(),
            bookmarks: self.bookmarks.deep_view(),
            cross_references: self.cross_references.deep_view(),
            index_topics: self.index_topics.deep_view(),
            spreads: self.spreads.deep_view(),
            stories: self.stories.deep_view(),
            master_spreads: self.master_spreads.deep_view(),
        }
    }
}

/// No colour settings.
pub open spec fn no_color_settings() -> ColorSettingsView {
    ColorSettingsView {
        cmyk_profile: None,
        rgb_profile: None,
        solid_color_intent: None,
        after_blending_intent: None,
        default_image_intent: None,
    }
}

impl Default for ColorSettings {
    fn default() -> (r: ColorSettings)
        ensures
            r.deep_view() == no_color_settings(),
    {
        ColorSettings {
            cmyk_profile: None,
            rgb_profile: None,
            solid_color_intent: None,
            after_blending_intent: None,
            default_image_intent: None,
        }
    }
}

/// No bleed and no slug.
pub open spec fn no_document_preference() -> DocumentPreference {
    DocumentPreference {
        bleed_top: zero(),
        bleed_bottom: zero(),
        bleed_inside_or_left: zero(),
        bleed_outside_or_right: zero(),
        slug_top: zero(),
        slug_bottom: zero(),
        slug_inside_or_left: zero(),
        slug_right_or_outside: zero(),
    }
}

impl Default for DocumentPreference {
    fn default() -> (r: DocumentPreference)
        ensures
            r == no_document_preference(),
    {
        DocumentPreference {
            bleed_top: Num::zero(),
            bleed_bottom: Num::zero(),
            bleed_inside_or_left: Num::zero(),
            bleed_outside_or_right: Num::zero(),
            slug_top: Num::zero(),
            slug_bottom: Num::zero(),
            slug_inside_or_left: Num::zero(),
            slug_right_or_outside: Num::zero(),
        }
    }
}

/// No footnote settings.
pub open spec fn no_footnote_options() -> FootnoteOptionsView {
    FootnoteOptionsView {
        present: false,
        rule_on: None,
        rule_color: None,
        rule_tint: None,
        rule_line_weight: None,
        rule_width: None,
        rule_left_indent: None,
        rule_offset: None,
        separator_text: None,
        spacer: None,
        space_between: None,
    }
}

impl Default for FootnoteOptions {
    fn default() -> (r: FootnoteOptions)
        ensures
            r.deep_view() == no_footnote_options(),
    {
        FootnoteOptions {
            present: false,
            rule_on: None,
            rule_color: None,
            rule_tint: None,
            rule_line_weight: None,
            rule_width: None,
            rule_left_indent: None,
            rule_offset: None,
            separator_text: None,
            spacer: None,
            space_between: None,
        }
    }
}

/// No grid settings.
pub open spec fn no_grid_preference() -> GridPreferenceView {
    GridPreferenceView {
        present: false,
        baseline_start: None,
        baseline_division: None,
        baseline_grid_shown: None,
        baseline_grid_relative_option: None,
        baseline_color: None,
        horizontal_gridline_division: None,
        vertical_gridline_division: None,
    }
}

impl Default for GridPreference {
    fn default() -> (r: GridPreference)
        ensures
            r.deep_view() == no_grid_preference(),
    {
        GridPreference {
            present: false,
            baseline_start: None,
            baseline_division: None,
            baseline_grid_shown: None,
            baseline_grid_relative_option: None,
            baseline_color: None,
            horizontal_gridline_division: None,
            vertical_gridline_division: None,
        }
    }
}

/// A manifest that lists nothing.
pub open spec fn empty_designmap() -> DesignMapView {
    DesignMapView {
        dom_version: None,
        document_name: None,
        color_settings: no_color_settings(),
        document_preference: no_document_preference(),
        footnote_options: no_footnote_options(),
        grid_preference: no_grid_preference(),
        layers: Seq::empty(),
        text_variables: Seq::empty(),
        hyperlink_destinations: Seq::empty(),
        sections: Seq::empty(),
        articles: Seq::empty(),
        hyperlinks: Seq::empty(),
        bookmarks: Seq::empty(),
        cross_references: Seq::empty(),
        index_topics: Seq::empty(),
        spreads: Seq::empty(),
        stories: Seq::empty(),
        master_spreads: Seq::empty(),
    }
}

impl Default for DesignMap {
    fn default() -> (r: DesignMap)
        ensures
            r.deep_view() == empty_designmap(),
    {
        DesignMap {
            dom_version: None,
            document_name: None,
            color_settings: ColorSettings::default(),
            document_preference: DocumentPreference::default(),
            footnote_options: FootnoteOptions::default(),
            grid_preference: GridPreference::default(),
            layers: Vec::new(),
            text_variables: Vec::new(),
            hyperlink_destinations: Vec::new(),
            sections: Vec::new(),
            articles: Vec::new(),
            hyperlinks: Vec::new(),
            bookmarks: Vec::new(),
            cross_references: Vec::new(),
            index_topics: Vec::new(),
            spreads: Vec::new(),
            stories: Vec::new(),
            master_spreads: Vec::new(),
        }
    }
}

impl FootnoteOptions {
    /// Whether the separator rule is drawn: unless it is switched off.
    pub fn rule_on_effective(&self) -> (r: bool)
        ensures
            r == self.rule_on.unwrap_or(true),
    {
        self.rule_on.unwrap_or(true)
    }

    /// Whether the document states no footnote settings.
    pub fn is_default(&self) -> (r: bool)
        ensures
            r == (self.deep_view() == no_footnote_options()),
    {
        !self.present && self.rule_on.is_none() && self.rule_color.is_none()
            && self.rule_tint.is_none() && self.rule_line_weight.is_none()
            && self.rule_width.is_none() && self.rule_left_indent.is_none()
            && self.rule_offset.is_none() && self.separator_text.is_none()
            && self.spacer.is_none() && self.space_between.is_none()
    }
}

/// The colour settings that a `Document` tag states.
pub open spec fn color_settings_of(tag: TagView) -> ColorSettingsView {
    ColorSettingsView {
        cmyk_profile: tag.text("CMYKProfile"@),
        rgb_profile: tag.text("RGBProfile"@),
        solid_color_intent: tag.text("SolidColorIntent"@),
        after_blending_intent: tag.text("AfterBlendingIntent"@),
        default_image_intent: tag.text("DefaultImageIntent"@),
    }
}

/// Reads it from a tag.
pub fn read_color_settings(tag: &Tag) -> (r: ColorSettings)
    ensures
        r.deep_view() == color_settings_of(tag@),
{
    ColorSettings {
        cmyk_profile: tag.text("CMYKProfile"),
        rgb_profile: tag.text("RGBProfile"),
        solid_color_intent: tag.text("SolidColorIntent"),
        after_blending_intent: tag.text("AfterBlendingIntent"),
        default_image_intent: tag.text("DefaultImageIntent"),
    }
}

/// The offsets that a `DocumentPreference` tag states; zero where one is
/// missing.
pub open spec fn document_preference_of(tag: TagView) -> DocumentPreference {
    DocumentPreference {
        bleed_top: tag.num("DocumentBleedTopOffset"@).unwrap_or(zero()),
        bleed_bottom: tag.num("DocumentBleedBottomOffset"@).unwrap_or(zero()),
        bleed_inside_or_left: tag.num("DocumentBleedInsideOrLeftOffset"@).unwrap_or(zero()),
        bleed_outside_or_right: tag.num("DocumentBleedOutsideOrRightOffset"@).unwrap_or(zero()),
        slug_top: tag.num("SlugTopOffset"@).unwrap_or(zero()),
        slug_bottom: tag.num("SlugBottomOffset"@).unwrap_or(zero()),
        slug_inside_or_left: tag.num("SlugInsideOrLeftOffset"@).unwrap_or(zero()),
        slug_right_or_outside: tag.num("SlugRightOrOutsideOffset"@).unwrap_or(zero()),
    }
}

/// Reads it from a tag.
pub fn read_document_preference(tag: &Tag) -> (r: DocumentPreference)
    ensures
        r.deep_view() == document_preference_of(tag@),
{
    DocumentPreference {
        bleed_top: tag.num("DocumentBleedTopOffset").unwrap_or(Num::zero()),
        bleed_bottom: tag.num("DocumentBleedBottomOffset").unwrap_or(Num::zero()),
        bleed_inside_or_left: tag.num("DocumentBleedInsideOrLeftOffset").unwrap_or(Num::zero()),
        bleed_outside_or_right: tag.num("DocumentBleedOutsideOrRightOffset").unwrap_or(Num::zero()),
        slug_top: tag.num("SlugTopOffset").unwrap_or(Num::zero()),
        slug_bottom: tag.num("SlugBottomOffset").unwrap_or(Num::zero()),
        slug_inside_or_left: tag.num("SlugInsideOrLeftOffset").unwrap_or(Num::zero()),
        slug_right_or_outside: tag.num("SlugRightOrOutsideOffset").unwrap_or(Num::zero()),
    }
}

/// The settings that a `FootnoteOption` tag states.
pub open spec fn footnote_options_of(tag: TagView) -> FootnoteOptionsView {
    FootnoteOptionsView {
        present: true,
        rule_on: tag.flag("RuleOn"@),
        rule_color: tag.text("RuleColor"@),
        rule_tint: tag.num("RuleTint"@),
        rule_line_weight: tag.num("RuleLineWeight"@),
        rule_width: tag.num("RuleWidth"@),
        rule_left_indent: tag.num("RuleLeftIndent"@),
        rule_offset: tag.num("RuleOffset"@),
        separator_text: tag.text("SeparatorText"@),
        spacer: tag.num("Spacer"@),
        space_between: tag.num("SpaceBetween"@),
    }
}

/// Reads it from a tag.
pub fn read_footnote_options(tag: &Tag) -> (r: FootnoteOptions)
    ensures
        r.deep_view() == footnote_options_of(tag@),
{
    FootnoteOptions {
        present: true,
        rule_on: tag.flag("RuleOn"),
        rule_color: tag.text("RuleColor"),
        rule_tint: tag.num("RuleTint"),
        rule_line_weight: tag.num("RuleLineWeight"),
        rule_width: tag.num("RuleWidth"),
        rule_left_indent: tag.num("RuleLeftIndent"),
        rule_offset: tag.num("RuleOffset"),
        separator_text: tag.text("SeparatorText"),
        spacer: tag.num("Spacer"),
        space_between: tag.num("SpaceBetween"),
    }
}

/// The settings that a `GridPreference` tag states.
pub open spec fn grid_preference_of(tag: TagView) -> GridPreferenceView {
    GridPreferenceView {
        present: true,
        baseline_start: tag.num("BaselineStart"@),
        baseline_division: tag.num("BaselineDivision"@),
        baseline_grid_shown: tag.flag("BaselineGridShown"@),
        baseline_grid_relative_option: tag.text("BaselineGridRelativeOption"@),
        baseline_color: tag.text("BaselineColor"@),
        horizontal_gridline_division: tag.num("HorizontalGridlineDivision"@),
        vertical_gridline_division: tag.num("VerticalGridlineDivision"@),
    }
}

/// Reads it from a tag.
pub fn read_grid_preference(tag: &Tag) -> (r: GridPreference)
    ensures
        r.deep_view() == grid_preference_of(tag@),
{
    GridPreference {
        present: true,
        baseline_start: tag.num("BaselineStart"),
        baseline_division: tag.num("BaselineDivision"),
        baseline_grid_shown: tag.flag("BaselineGridShown"),
        baseline_grid_relative_option: tag.text("BaselineGridRelativeOption"),
        baseline_color: tag.text("BaselineColor"),
        horizontal_gridline_division: tag.num("HorizontalGridlineDivision"),
        vertical_gridline_division: tag.num("VerticalGridlineDivision"),
    }
}

/// The layer that a `Layer` tag states, inside `parent`.
pub open spec fn layer_of(tag: TagView, parent: Option<Seq<char>>) -> Option<LayerView> {
    match tag.text("Self"@) {
        None => None,
        Some(self_id) => Some(LayerView {
            self_id: self_id,
            name: tag.text("Name"@),
            visible: tag.flag("Visible"@).unwrap_or(true),
            locked: tag.flag("Locked"@).unwrap_or(false),
            printable: tag.flag("Printable"@).unwrap_or(true),
            parent_id: parent,
        }),
    }
}

/// Reads it from a tag.
pub fn read_layer(tag: &Tag, parent: Option<String>) -> (r: Option<Layer>)
    ensures
        r.deep_view() == layer_of(tag@, parent.deep_view()),
{
    match tag.text("Self") {
        None => None,
        Some(self_id) => Some(Layer {
            self_id: self_id,
            name: tag.text("Name"),
            visible: tag.flag("Visible").unwrap_or(true),
            locked: tag.flag("Locked").unwrap_or(false),
            printable: tag.flag("Printable").unwrap_or(true),
            parent_id: parent,
        }),
    }
}

/// The variable that a `TextVariable` tag states, its preference still missing.
pub open spec fn text_variable_of(tag: TagView) -> Option<TextVariableView> {
    match tag.text("Self"@) {
        None => None,
        Some(self_id) => Some(TextVariableView {
            self_id: self_id,
            name: tag.text("Name"@),
            variable_type: tag.text("VariableType"@),
            contents: None,
            date_format: None,
            text_before: None,
            text_after: None,
            running_header_style: None,
            running_header_use: None,
        }),
    }
}

/// Reads it from a tag.
pub fn read_text_variable(tag: &Tag) -> (r: Option<TextVariable>)
    ensures
        r.deep_view() == text_variable_of(tag@),
{
    match tag.text("Self") {
        None => None,
        Some(self_id) => Some(TextVariable {
            self_id: self_id,
            name: tag.text("Name"),
            variable_type: tag.text("VariableType"),
            contents: None,
            date_format: None,
            text_before: None,
            text_after: None,
            running_header_style: None,
            running_header_use: None,
        }),
    }
}

/// The section that a `Section` tag states.
pub open spec fn section_of(tag: TagView) -> Option<SectionView> {
    match tag.text("Self"@) {
        None => None,
        Some(self_id) => Some(SectionView {
            self_id: self_id,
            page_start: tag.text("PageStart"@),
            continue_numbering: tag.flag("ContinueNumbering"@).unwrap_or(false),
            start_at: tag.count("PageNumberStart"@),
            numbering_style: numbering_style_of(tag),
            section_prefix: tag.text("SectionPrefix"@),
            marker: tag.text("Marker"@),
            include_prefix: tag.flag("IncludeSectionPrefix"@).unwrap_or(false),
        }),
    }
}

/// Reads it from a tag.
pub fn read_section(tag: &Tag) -> (r: Option<Section>)
    ensures
        r.deep_view() == section_of(tag@),
{
    match tag.text("Self") {
        None => None,
        Some(self_id) => Some(Section {
            self_id: self_id,
            page_start: tag.text("PageStart"),
            continue_numbering: tag.flag("ContinueNumbering").unwrap_or(false),
            start_at: tag.count("PageNumberStart"),
            numbering_style: numbering_style(tag),
            section_prefix: tag.text("SectionPrefix"),
            marker: tag.text("Marker"),
            include_prefix: tag.flag("IncludeSectionPrefix").unwrap_or(false),
        }),
    }
}

/// The numbering style of a `Section` tag: Arabic where none is stated.
pub open spec fn numbering_style_of(tag: TagView) -> NumberingStyle {
    match tag.text("PageNumberStyle"@) {
        None => NumberingStyle::Arabic,
        Some(s) => NumberingStyle::named(s),
    }
}

fn numbering_style(tag: &Tag) -> (r: NumberingStyle)
    ensures
        r == numbering_style_of(tag@),
{
    match tag.text("PageNumberStyle") {
        None => NumberingStyle::Arabic,
        Some(s) => NumberingStyle::from_idml(s.as_str()),
    }
}

/// The article that an `Article` tag states.
pub open spec fn article_of(tag: TagView) -> Option<ArticleView> {
    match tag.text("Self"@) {
        None => None,
        Some(self_id) => Some(ArticleView {
            self_id: self_id,
            name: tag.text("Name"@),
            members: tag.list("MemberItemRefs"@),
        }),
    }
}

/// Reads it from a tag.
pub fn read_article(tag: &Tag) -> (r: Option<Article>)
    ensures
        r.deep_view() == article_of(tag@),
{
    match tag.text("Self") {
        None => None,
        Some(self_id) => Some(Article {
            self_id: self_id,
            name: tag.text("Name"),
            members: tag.list("MemberItemRefs"),
        }),
    }
}

/// The hyperlink that a `Hyperlink` tag states.
pub open spec fn hyperlink_of(tag: TagView) -> Option<HyperlinkView> {
    match tag.text("Self"@) {
        None => None,
        Some(self_id) => Some(HyperlinkView {
            self_id: self_id,
            name: tag.text("Name"@),
            source: tag.text("Source"@),
            destination: either(tag.text("DestinationUniqueKey"@), tag.text("Destination"@)),
        }),
    }
}

/// Reads it from a tag.
pub fn read_hyperlink(tag: &Tag) -> (r: Option<Hyperlink>)
    ensures
        r.deep_view() == hyperlink_of(tag@),
{
    match tag.text("Self") {
        None => None,
        Some(self_id) => Some(Hyperlink {
            self_id: self_id,
            name: tag.text("Name"),
            source: tag.text("Source"),
            destination: first_of(tag.text("DestinationUniqueKey"), tag.text("Destination")),
        }),
    }
}

/// The bookmark that a `Bookmark` tag states.
pub open spec fn bookmark_of(tag: TagView) -> Option<BookmarkView> {
    match tag.text("Self"@) {
        None => None,
        Some(self_id) => Some(BookmarkView {
            self_id: self_id,
            name: tag.text("Name"@),
            destination: tag.text("Destination"@),
        }),
    }
}

/// Reads it from a tag.
pub fn read_bookmark(tag: &Tag) -> (r: Option<Bookmark>)
    ensures
        r.deep_view() == bookmark_of(tag@),
{
    match tag.text("Self") {
        None => None,
        Some(self_id) => Some(Bookmark {
            self_id: self_id,
            name: tag.text("Name"),
            destination: tag.text("Destination"),
        }),
    }
}

/// The reference that a `CrossReferenceSource` tag states.
pub open spec fn cross_reference_of(tag: TagView) -> Option<CrossReferenceView> {
    match tag.text("Self"@) {
        None => None,
        Some(self_id) => Some(CrossReferenceView {
            self_id: self_id,
            name: tag.text("Name"@),
            format: tag.text("AppliedFormat"@),
            destination: tag.text("Destination"@),
        }),
    }
}

/// Reads it from a tag.
pub fn read_cross_reference(tag: &Tag) -> (r: Option<CrossReference>)
    ensures
        r.deep_view() == cross_reference_of(tag@),
{
    match tag.text("Self") {
        None => None,
        Some(self_id) => Some(CrossReference {
            self_id: self_id,
            name: tag.text("Name"),
            format: tag.text("AppliedFormat"),
            destination: tag.text("Destination"),
        }),
    }
}

/// The topic that a `Topic` tag states.
pub open spec fn index_topic_of(tag: TagView) -> Option<IndexTopicView> {
    match tag.text("Self"@) {
        None => None,
        Some(self_id) => Some(IndexTopicView {
            self_id: self_id,
            name: tag.text("Name"@),
            sort_order: tag.text("SortOrder"@),
        }),
    }
}

/// Reads it from a tag.
pub fn read_index_topic(tag: &Tag) -> (r: Option<IndexTopic>)
    ensures
        r.deep_view() == index_topic_of(tag@),
{
    match tag.text("Self") {
        None => None,
        Some(self_id) => Some(IndexTopic {
            self_id: self_id,
            name: tag.text("Name"),
            sort_order: tag.text("SortOrder"),
        }),
    }
}

/// The place that a `HyperlinkURLDestination` tag states; an empty address
/// where it gives none.
pub open spec fn url_destination_of(tag: TagView) -> Option<HyperlinkDestinationView> {
    match tag.text("Self"@) {
        None => None,
        Some(self_id) => Some(HyperlinkDestinationView {
            self_id: self_id,
            kind: HyperlinkDestinationKindView::Url(
                tag.text("DestinationURL"@).unwrap_or(Seq::empty()),
            ),
        }),
    }
}

/// Reads it from a tag.
pub fn read_url_destination(tag: &Tag) -> (r: Option<HyperlinkDestination>)
    ensures
        r.deep_view() == url_destination_of(tag@),
{
    match tag.text("Self") {
        None => None,
        Some(self_id) => Some(HyperlinkDestination {
            self_id: self_id,
            kind: HyperlinkDestinationKind::Url(url_or_empty(tag)),
        }),
    }
}

fn url_or_empty(tag: &Tag) -> (r: String)
    ensures
        r@ == tag@.text("DestinationURL"@).unwrap_or(Seq::empty()),
{
    match tag.text("DestinationURL") {
        None => String::new(),
        Some(s) => s,
    }
}

/// The place that a `HyperlinkPageDestination` tag states.
pub open spec fn page_destination_of(tag: TagView) -> Option<HyperlinkDestinationView> {
    match tag.text("Self"@) {
        None => None,
        Some(self_id) => {
            match tag.text("DestinationPage"@) {
                None => None,
                Some(page) => Some(HyperlinkDestinationView {
                    self_id: self_id,
                    kind: HyperlinkDestinationKindView::Page(page),
                }),
            }
        },
    }
}

/// Reads it from a tag.
pub fn read_page_destination(tag: &Tag) -> (r: Option<HyperlinkDestination>)
    ensures
        r.deep_view() == page_destination_of(tag@),
{
    match tag.text("Self") {
        None => None,
        Some(self_id) => {
            match tag.text("DestinationPage") {
                None => None,
                Some(page) => Some(HyperlinkDestination {
                    self_id: self_id,
                    kind: HyperlinkDestinationKind::Page(page),
                }),
            }
        },
    }
}

/// The place that a `HyperlinkTextDestination` tag states.
pub open spec fn text_destination_of(tag: TagView) -> Option<HyperlinkDestinationView> {
    match tag.text("Self"@) {
        None => None,
        Some(self_id) => {
            match tag.text("DestinationText"@) {
                None => None,
                Some(text) => Some(HyperlinkDestinationView {
                    self_id: self_id,
                    kind: HyperlinkDestinationKindView::TextAnchor(text),
                }),
            }
        },
    }
}

/// Reads it from a tag.
pub fn read_text_destination(tag: &Tag) -> (r: Option<HyperlinkDestination>)
    ensures
        r.deep_view() == text_destination_of(tag@),
{
    match tag.text("Self") {
        None => None,
        Some(self_id) => {
            match tag.text("DestinationText") {
                None => None,
                Some(text) => Some(HyperlinkDestination {
                    self_id: self_id,
                    kind: HyperlinkDestinationKind::TextAnchor(text),
                }),
            }
        },
    }
}

/// `var` with what a `TextVariablePreference` tag states folded in; what the tag
/// leaves out stays.
pub open spec fn with_preference(var: TextVariableView, tag: TagView) -> TextVariableView {
    TextVariableView {
        contents: either(tag.text("Contents"@), var.contents),
        date_format: either(tag.text("Format"@), var.date_format),
        text_before: either(tag.text("TextBefore"@), var.text_before),
        text_after: either(tag.text("TextAfter"@), var.text_after),
        running_header_style: either(
            either(tag.text("AppliedParagraphStyle"@), tag.text("AppliedCharacterStyle"@)),
            var.running_header_style,
        ),
        running_header_use: either(tag.text("Use"@), var.running_header_use),
        ..var
    }
}

fn fold_preference(var: TextVariable, tag: &Tag) -> (r: TextVariable)
    ensures
        r.deep_view() == with_preference(var.deep_view(), tag@),
{
    TextVariable {
        self_id: var.self_id,
        name: var.name,
        variable_type: var.variable_type,
        contents: first_of(tag.text("Contents"), var.contents),
        date_format: first_of(tag.text("Format"), var.date_format),
        text_before: first_of(tag.text("TextBefore"), var.text_before),
        text_after: first_of(tag.text("TextAfter"), var.text_after),
        running_header_style: first_of(
            first_of(tag.text("AppliedParagraphStyle"), tag.text("AppliedCharacterStyle")),
            var.running_header_style,
        ),
        running_header_use: first_of(tag.text("Use"), var.running_header_use),
    }
}

/// A manifest in the making.
pub struct Progress {
    pub out: DesignMap,
    /// The layers that are open, the innermost last.
    pub layer_stack: Vec<String>,
    /// The text variable that is open.
    pub variable: Option<TextVariable>,
}

/// What a [`Progress`] holds.
#[verifier::ext_equal]
pub struct ProgressView {
    pub out: DesignMapView,
    pub layer_stack: Seq<Seq<char>>,
    pub variable: Option<TextVariableView>,
}

impl View for Progress {
    type V = ProgressView;

    open spec fn view(&self) -> ProgressView {
        ProgressView {
            out: self.out.deep_view(),
            layer_stack: self.layer_stack.deep_view(),
            variable: self.variable.deep_view(),
        }
    }
}

/// `st` after a `Layer` tag: the layer is listed under the innermost open one,
/// and opens a group unless it closes itself.
pub open spec fn after_layer(st: ProgressView, tag: TagView) -> ProgressView {
    let parent = if st.layer_stack.len() > 0 {
        Some(st.layer_stack.last())
    } else {
        None
    };
    match layer_of(tag, parent) {
        None => st,
        Some(layer) => ProgressView {
            out: DesignMapView { layers: st.out.layers.push(layer), ..st.out },
            layer_stack: if tag.empty {
                st.layer_stack
            } else {
                st.layer_stack.push(layer.self_id)
            },
            ..st
        },
    }
}

fn on_layer(st: &mut Progress, tag: &Tag)
    ensures
        final(st)@ == after_layer(old(st)@, tag@),
{
    let parent: Option<String> = match st.layer_stack.last() {
        None => None,
        Some(id) => Some(id.clone()),
    };
    if let Some(layer) = read_layer(tag, parent) {
        let id: String = layer.self_id.clone();
        push_item(&mut st.out.layers, layer);
        if !tag.empty {
            push_item(&mut st.layer_stack, id);
        }
    }
}

/// `st` after a `TextVariable` tag: one that closes itself is listed at once,
/// another stays open for its preference.
pub open spec fn after_text_variable(st: ProgressView, tag: TagView) -> ProgressView {
    match text_variable_of(tag) {
        None => st,
        Some(var) => if tag.empty {
            ProgressView {
                out: DesignMapView { text_variables: st.out.text_variables.push(var), ..st.out },
                ..st
            }
        } else {
            ProgressView { variable: Some(var), ..st }
        },
    }
}

fn on_text_variable(st: &mut Progress, tag: &Tag)
    ensures
        final(st)@ == after_text_variable(old(st)@, tag@),
{
    if let Some(var) = read_text_variable(tag) {
        if tag.empty {
            push_item(&mut st.out.text_variables, var);
        } else {
            st.variable = Some(var);
        }
    }
}

/// `st` after a closing tag: a layer group or a text variable ends.
pub open spec fn after_end(st: ProgressView, name: Seq<u8>) -> ProgressView {
    if name == encode_utf8("Layer"@) {
        ProgressView {
            layer_stack: if st.layer_stack.len() > 0 {
                st.layer_stack.drop_last()
            } else {
                st.layer_stack
            },
            ..st
        }
    } else if name == encode_utf8("TextVariable"@) {
        match st.variable {
            None => st,
            Some(var) => ProgressView {
                out: DesignMapView { text_variables: st.out.text_variables.push(var), ..st.out },
                variable: None,
                ..st
            },
        }
    } else {
        st
    }
}

fn on_end(st: &mut Progress, name: &Vec<u8>)
    ensures
        final(st)@ == after_end(old(st)@, name@),
{
    if crate::xml::name_is(name, "Layer") {
        let ghost before = st.layer_stack.deep_view();
        let ignored = st.layer_stack.pop();
        assert(before.len() > 0 ==> st.layer_stack.deep_view() =~= before.drop_last());
        assert(before.len() == 0 ==> st.layer_stack.deep_view() =~= before);
    } else if crate::xml::name_is(name, "TextVariable") {
        if let Some(var) = st.variable.take() {
            push_item(&mut st.out.text_variables, var);
        }
    }
}

/// `out` after a tag that lists one more item of the document.
pub open spec fn after_item(out: DesignMapView, tag: TagView) -> DesignMapView {
    if tag.is("HyperlinkURLDestination"@) {
        match url_destination_of(tag) {
            None => out,
            Some(x) => DesignMapView {
                hyperlink_destinations: out.hyperlink_destinations.push(x),
                ..out
            },
        }
    } else if tag.is("HyperlinkPageDestination"@) {
        match page_destination_of(tag) {
            None => out,
            Some(x) => DesignMapView {
                hyperlink_destinations: out.hyperlink_destinations.push(x),
                ..out
            },
        }
    } else if tag.is("HyperlinkTextDestination"@) {
        match text_destination_of(tag) {
            None => out,
            Some(x) => DesignMapView {
                hyperlink_destinations: out.hyperlink_destinations.push(x),
                ..out
            },
        }
    } else if tag.is("Section"@) {
        match section_of(tag) {
            None => out,
            Some(x) => DesignMapView { sections: out.sections.push(x), ..out },
        }
    } else if tag.is("Article"@) {
        match article_of(tag) {
            None => out,
            Some(x) => DesignMapView { articles: out.articles.push(x), ..out },
        }
    } else if tag.is("Hyperlink"@) {
        match hyperlink_of(tag) {
            None => out,
            Some(x) => DesignMapView { hyperlinks: out.hyperlinks.push(x), ..out },
        }
    } else if tag.is("Bookmark"@) {
        match bookmark_of(tag) {
            None => out,
            Some(x) => DesignMapView { bookmarks: out.bookmarks.push(x), ..out },
        }
    } else if tag.is("CrossReferenceSource"@) {
        match cross_reference_of(tag) {
            None => out,
            Some(x) => DesignMapView { cross_references: out.cross_references.push(x), ..out },
        }
    } else if tag.is("Topic"@) {
        match index_topic_of(tag) {
            None => out,
            Some(x) => DesignMapView { index_topics: out.index_topics.push(x), ..out },
        }
    } else {
        after_part(out, tag)
    }
}

/// `out` after a tag that names a part of the package.
pub open spec fn after_part(out: DesignMapView, tag: TagView) -> DesignMapView {
    match tag.text("src"@) {
        None => out,
        Some(src) => if tag.is("idPkg:Spread"@) {
            DesignMapView { spreads: out.spreads.push(SpreadRefView { src }), ..out }
        } else if tag.is("idPkg:Story"@) {
            DesignMapView { stories: out.stories.push(StoryRefView { src }), ..out }
        } else if tag.is("idPkg:MasterSpread"@) {
            DesignMapView { master_spreads: out.master_spreads.push(src), ..out }
        } else {
            out
        },
    }
}

fn on_part(out: &mut DesignMap, tag: &Tag)
    ensures
        final(out).deep_view() == after_part(old(out).deep_view(), tag@),
{
    if let Some(src) = tag.text("src") {
        if tag.is("idPkg:Spread") {
            push_item(&mut out.spreads, SpreadRef { src });
        } else if tag.is("idPkg:Story") {
            push_item(&mut out.stories, StoryRef { src });
        } else if tag.is("idPkg:MasterSpread") {
            push_item(&mut out.master_spreads, src);
        }
    }
}

fn on_item(out: &mut DesignMap, tag: &Tag)
    ensures
        final(out).deep_view() == after_item(old(out).deep_view(), tag@),
{
    if tag.is("HyperlinkURLDestination") {
        if let Some(x) = read_url_destination(tag) {
            push_item(&mut out.hyperlink_destinations, x);
        }
    } else if tag.is("HyperlinkPageDestination") {
        if let Some(x) = read_page_destination(tag) {
            push_item(&mut out.hyperlink_destinations, x);
        }
    } else if tag.is("HyperlinkTextDestination") {
        if let Some(x) = read_text_destination(tag) {
            push_item(&mut out.hyperlink_destinations, x);
        }
    } else if tag.is("Section") {
        if let Some(x) = read_section(tag) {
            push_item(&mut out.sections, x);
        }
    } else if tag.is("Article") {
        if let Some(x) = read_article(tag) {
            push_item(&mut out.articles, x);
        }
    } else if tag.is("Hyperlink") {
        if let Some(x) = read_hyperlink(tag) {
            push_item(&mut out.hyperlinks, x);
        }
    } else if tag.is("Bookmark") {
        if let Some(x) = read_bookmark(tag) {
            push_item(&mut out.bookmarks, x);
        }
    } else if tag.is("CrossReferenceSource") {
        if let Some(x) = read_cross_reference(tag) {
            push_item(&mut out.cross_references, x);
        }
    } else if tag.is("Topic") {
        if let Some(x) = read_index_topic(tag) {
            push_item(&mut out.index_topics, x);
        }
    } else {
        on_part(out, tag);
    }
}

/// `out` after a tag that states document-wide settings.
pub open spec fn after_setting(out: DesignMapView, tag: TagView) -> DesignMapView {
    if tag.is("Document"@) {
        DesignMapView {
            dom_version: tag.text("DOMVersion"@),
            document_name: tag.text("Name"@),
            color_settings: color_settings_of(tag),
            ..out
        }
    } else if tag.is("DocumentPreference"@) {
        DesignMapView { document_preference: document_preference_of(tag), ..out }
    } else if tag.is("FootnoteOption"@) {
        DesignMapView { footnote_options: footnote_options_of(tag), ..out }
    } else if tag.is("GridPreference"@) {
        DesignMapView { grid_preference: grid_preference_of(tag), ..out }
    } else {
        after_item(out, tag)
    }
}

fn on_setting(out: &mut DesignMap, tag: &Tag)
    ensures
        final(out).deep_view() == after_setting(old(out).deep_view(), tag@),
{
    if tag.is("Document") {
        out.dom_version = tag.text("DOMVersion");
        out.document_name = tag.text("Name");
        out.color_settings = read_color_settings(tag);
    } else if tag.is("DocumentPreference") {
        out.document_preference = read_document_preference(tag);
    } else if tag.is("FootnoteOption") {
        out.footnote_options = read_footnote_options(tag);
    } else if tag.is("GridPreference") {
        out.grid_preference = read_grid_preference(tag);
    } else {
        on_item(out, tag);
    }
}

/// `st` after an opening tag.
pub open spec fn after_open(st: ProgressView, tag: TagView) -> ProgressView {
    if tag.is("Layer"@) {
        after_layer(st, tag)
    } else if tag.is("TextVariable"@) {
        after_text_variable(st, tag)
    } else if tag.is("TextVariablePreference"@) {
        match st.variable {
            None => st,
            Some(var) => ProgressView { variable: Some(with_preference(var, tag)), ..st },
        }
    } else {
        ProgressView { out: after_setting(st.out, tag), ..st }
    }
}

fn on_open(st: &mut Progress, tag: &Tag)
    ensures
        final(st)@ == after_open(old(st)@, tag@),
{
    if tag.is("Layer") {
        on_layer(st, tag);
    } else if tag.is("TextVariable") {
        on_text_variable(st, tag);
    } else if tag.is("TextVariablePreference") {
        if let Some(var) = st.variable.take() {
            st.variable = Some(fold_preference(var, tag));
        }
    } else {
        on_setting(&mut st.out, tag);
    }
}

/// `st` after one event.
pub open spec fn after_event(st: ProgressView, event: EventView) -> ProgressView {
    match event {
        EventView::Open(tag) => after_open(st, tag),
        EventView::End(name) => after_end(st, name),
        _ => st,
    }
}

/// Nothing read yet.
pub open spec fn at_start() -> ProgressView {
    ProgressView { out: empty_designmap(), layer_stack: Seq::empty(), variable: None }
}

/// What stands after the first `n` events.
pub open spec fn after_events(events: Seq<EventView>, n: nat) -> ProgressView
    decreases n,
{
    if n == 0 {
        at_start()
    } else {
        after_event(after_events(events, (n - 1) as nat), events[n - 1])
    }
}

/// The manifest that the events of a document state.
pub open spec fn designmap_of(events: Seq<EventView>) -> DesignMapView {
    after_events(events, events.len()).out
}

/// Builds the manifest from the events of `designmap.xml`.
pub fn designmap_from_events(events: &Vec<XmlEvent>) -> (r: DesignMap)
    ensures
        r.deep_view() == designmap_of(events.deep_view()),
{
    let mut st = Progress {
        out: DesignMap::default(),
        layer_stack: Vec::new(),
        variable: None,
    };
    assert(st@ =~= at_start());
    let mut i: usize = 0;
    while i < events.len()
        invariant
            i <= events@.len(),
            st@ == after_events(events.deep_view(), i as nat),
        decreases events@.len() - i,
    {
        match &events[i] {
            XmlEvent::Open(tag) => on_open(&mut st, tag),
            XmlEvent::End(name) => on_end(&mut st, name),
            _ => {},
        }
        i = i + 1;
    }
    st.out
}

/// Parses `designmap.xml`.
pub fn parse_designmap(xml: &[u8]) -> (r: Result<DesignMap, ParseError>)
    ensures
        match r {
            Ok(map) => xml_events(xml@, false) matches Some(events) && map.deep_view()
                == designmap_of(events),
            Err(e) => e is Xml && xml_events(xml@, false) is None,
        },
{
    match read_events(xml, false) {
        Err(e) => Err(e),
        Ok(events) => Ok(designmap_from_events(&events)),
    }
}

} // verus!
