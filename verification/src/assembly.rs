//! From the reading of a page description to a document: a spread for each page,
//! with a rectangle for each image, a text frame and a story for each text, and a
//! polygon for each shape.
use crate::designmap::{
    empty_designmap, DesignMap, DesignMapView, SpreadRef, SpreadRefView, StoryRef, StoryRefView,
};
use crate::encoding::{base64_decoded, decode_base64};
use crate::geometry::{Bounds, Matrix, PathAnchor};
use crate::graphic::{
    no_swatches, ColorEntry, ColorEntryView, ColorModel, ColorSpace, Graphic, GraphicView,
};
use crate::idmap::IdMap;
use crate::import::{
    Document, DocumentView, ParsedSpread, ParsedSpreadView, ParsedStory, ParsedStoryView,
};
use crate::ir::{
    DocumentIr, FrameIr, FrameIrView, PageIr, PageIrView, ParagraphIr, ParagraphIrView, PointIr,
    RectIr, Rgb, RunIr, RunIrView, SubpathIr, SubpathIrView, TextFrameIr, TextFrameIrView, VectorIr,
    VectorIrView,
};
use crate::number::{clamped, greater, lesser, nearest_byte, one, product, sum, whole, zero, Num};
use crate::page_items::{
    empty_spread, CornerSpec, Corners, FrameRef, Page, PageView, Polygon, PolygonView, Rectangle,
    RectangleView, Spread, SpreadView, TextFrame, TextFrameView,
};
use crate::story_model::{
    empty_story, lemma_paragraph_view, CharacterRun, CharacterRunView, Paragraph, ParagraphView,
    Story, StoryView,
};
use crate::styles::{no_styles, StyleSheet};
use crate::text::{decimal, write_decimal};
use crate::text_attrs::{no_otf_features, OtfFeatures, ParagraphRule, ParagraphRuleView};
use crate::util::{copy_text, join, push_item};
use vstd::prelude::*;
use vstd::utf8::encode_utf8;

verus! {

/// The pattern of the largest finite number.
pub const LARGEST_BITS: u32 = 0x7f7f_ffff;

/// The pattern of the smallest finite number.
pub const SMALLEST_BITS: u32 = 0xff7f_ffff;

/// Why a document could not be made.
#[derive(Debug)]
pub enum BuildError {
    /// An image is not in base64.
    Base64(base64::DecodeError),
    /// The container could not be written.
    Container(zip::result::ZipError),
    /// An entry of the container could not be written.
    Io(std::io::Error),
}

/// No change of place, size or direction.
pub open spec fn identity() -> Matrix {
    Matrix { a: one(), b: zero(), c: zero(), d: one(), tx: zero(), ty: zero() }
}

fn identity_matrix() -> (r: Matrix)
    ensures
        r == identity(),
{
    Matrix {
        a: Num::one(),
        b: Num::zero(),
        c: Num::zero(),
        d: Num::one(),
        tx: Num::zero(),
        ty: Num::zero(),
    }
}

/// The identifier with the number `n`.
pub open spec fn minted(prefix: Seq<char>, n: nat) -> Seq<char> {
    prefix + decimal(n)
}

fn mint(prefix: &str, n: u32) -> (r: String)
    ensures
        r@ == minted(prefix@, n as nat),
{
    join(prefix, write_decimal(n as u64).as_str())
}

/// A channel of a colour, from 0 to 255.
pub open spec fn channel(v: Num) -> u8 {
    nearest_byte(product(clamped(v), whole(255)))
}

/// A channel of a colour, given from 0 to 1, as it stands in a swatch.
pub fn to_u8(v: Num) -> (r: u8)
    ensures
        r == channel(v),
{
    v.clamped().times(Num::whole(255)).nearest_byte()
}

/// The identifier of the swatch of a colour.
pub open spec fn color_name(c: Rgb) -> Seq<char> {
    "Color/pdf_"@ + decimal(channel(c.red) as nat) + "_"@ + decimal(channel(c.green) as nat) + "_"@
        + decimal(channel(c.blue) as nat)
}

/// The swatch of a colour.
pub open spec fn color_entry(c: Rgb) -> ColorEntryView {
    ColorEntryView {
        self_id: color_name(c),
        name: None,
        space: ColorSpace::Rgb,
        value: seq![
            whole(channel(c.red) as nat),
            whole(channel(c.green) as nat),
            whole(channel(c.blue) as nat),
        ],
        model: ColorModel::Process,
        alternate_space: None,
        alternate_value: Seq::empty(),
        tint: None,
        alpha: None,
    }
}

/// The palette with the swatch of a colour, where there is one.
pub open spec fn with_color(palette: GraphicView, color: Option<Rgb>) -> GraphicView {
    match color {
        None => palette,
        Some(c) => GraphicView {
            colors: palette.colors.insert(color_name(c), color_entry(c)),
            ..palette
        },
    }
}

/// The identifier of the swatch of a colour, where there is one.
pub open spec fn color_ref(color: Option<Rgb>) -> Option<Seq<char>> {
    match color {
        None => None,
        Some(c) => Some(color_name(c)),
    }
}

fn color_id(palette: &mut Graphic, c: Rgb) -> (r: String)
    ensures
        r@ == color_name(c),
        final(palette).deep_view() == with_color(old(palette).deep_view(), Some(c)),
{
    let red: u8 = to_u8(c.red);
    let green: u8 = to_u8(c.green);
    let blue: u8 = to_u8(c.blue);
    let mut id: String = "Color/pdf_".to_string();
    id.append(write_decimal(red as u64).as_str());
    id.append("_");
    id.append(write_decimal(green as u64).as_str());
    id.append("_");
    id.append(write_decimal(blue as u64).as_str());
    let mut value: Vec<Num> = Vec::new();
    value.push(Num::whole(red as u32));
    value.push(Num::whole(green as u32));
    value.push(Num::whole(blue as u32));
    assert(value@ =~= color_entry(c).value);
    let entry = ColorEntry {
        self_id: id.clone(),
        name: None,
        space: ColorSpace::Rgb,
        value,
        model: ColorModel::Process,
        alternate_space: None,
        alternate_value: Vec::new(),
        tint: None,
        alpha: None,
    };
    palette.colors.insert(id.clone(), entry);
    id
}

fn color_id_of(palette: &mut Graphic, color: Option<Rgb>) -> (r: Option<String>)
    ensures
        r.deep_view() == color_ref(color),
        final(palette).deep_view() == with_color(old(palette).deep_view(), color),
{
    match color {
        None => None,
        Some(c) => Some(color_id(palette, c)),
    }
}

/// IDML has bold and italic in the name of the font style.
pub open spec fn style_name(bold: bool, italic: bool) -> Option<Seq<char>> {
    if bold && italic {
        Some("Bold Italic"@)
    } else if bold {
        Some("Bold"@)
    } else if italic {
        Some("Italic"@)
    } else {
        None
    }
}

/// The name of the font style of text that is bold or italic.
pub fn font_style(bold: bool, italic: bool) -> (r: Option<String>)
    ensures
        r.deep_view() == style_name(bold, italic),
{
    if bold && italic {
        Some("Bold Italic".to_string())
    } else if bold {
        Some("Bold".to_string())
    } else if italic {
        Some("Italic".to_string())
    } else {
        None
    }
}

/// Where a rectangle stands.
pub open spec fn rect_bounds(r: RectIr) -> Bounds {
    Bounds {
        top: r.y_pt,
        left: r.x_pt,
        bottom: sum(r.y_pt, r.height_pt),
        right: sum(r.x_pt, r.width_pt),
    }
}

/// Where a rectangle stands.
pub fn bounds_of(rect: RectIr) -> (r: Bounds)
    ensures
        r == rect_bounds(rect),
{
    Bounds {
        top: rect.y_pt,
        left: rect.x_pt,
        bottom: rect.y_pt.plus(rect.height_pt),
        right: rect.x_pt.plus(rect.width_pt),
    }
}

/// A rule that is not there.
pub open spec fn no_rule() -> ParagraphRuleView {
    ParagraphRuleView {
        on: None,
        color: None,
        tint: None,
        weight: None,
        offset: None,
        left_indent: None,
        right_indent: None,
        width: None,
    }
}

fn no_paragraph_rule() -> (r: ParagraphRule)
    ensures
        r.deep_view() == no_rule(),
{
    ParagraphRule {
        on: None,
        color: None,
        tint: None,
        weight: None,
        offset: None,
        left_indent: None,
        right_indent: None,
        width: None,
    }
}

/// A paragraph that states nothing.
pub open spec fn plain_paragraph() -> ParagraphView {
    ParagraphView {
        paragraph_style: None,
        justification: None,
        first_line_indent: None,
        left_indent: None,
        right_indent: None,
        space_before: None,
        space_after: None,
        tab_list: Seq::empty(),
        bullets_list_type: None,
        bullet_character: None,
        numbering_format: None,
        applied_numbering_list: None,
        drop_cap_characters: 0,
        drop_cap_lines: 0,
        drop_cap_detail: 0,
        hyphenation: None,
        keep_lines_together: None,
        keep_with_next: None,
        rule_above: no_rule(),
        rule_below: no_rule(),
        kinsoku_set: None,
        kinsoku_type: None,
        mojikumi_table: None,
        mojikumi_set: None,
        runs: Seq::empty(),
        anchored_frames: Seq::empty(),
        table: None,
        overprint_fill: None,
        overprint_stroke: None,
        footnotes: Seq::empty(),
        index_markers: Seq::empty(),
    }
}

fn blank_paragraph() -> (r: Paragraph)
    ensures
        r.deep_view() == plain_paragraph(),
{
    let r = Paragraph {
        paragraph_style: None,
        justification: None,
        first_line_indent: None,
        left_indent: None,
        right_indent: None,
        space_before: None,
        space_after: None,
        tab_list: Vec::new(),
        bullets_list_type: None,
        bullet_character: None,
        numbering_format: None,
        applied_numbering_list: None,
        drop_cap_characters: 0,
        drop_cap_lines: 0,
        drop_cap_detail: 0,
        hyphenation: None,
        keep_lines_together: None,
        keep_with_next: None,
        rule_above: no_paragraph_rule(),
        rule_below: no_paragraph_rule(),
        kinsoku_set: None,
        kinsoku_type: None,
        mojikumi_table: None,
        mojikumi_set: None,
        runs: Vec::new(),
        anchored_frames: Vec::new(),
        table: None,
        overprint_fill: None,
        overprint_stroke: None,
        footnotes: Vec::new(),
        index_markers: Vec::new(),
    };
    proof {
        lemma_paragraph_view(r);
        assert(r.deep_view().anchored_frames =~= Seq::empty());
        assert(r.deep_view().footnotes =~= Seq::empty());
        assert(r.deep_view().runs =~= Seq::empty());
        assert(r.deep_view().tab_list =~= Seq::empty());
        assert(r.deep_view().index_markers =~= Seq::empty());
    }
    r
}

/// The run that a run of the reading becomes.
pub open spec fn run_from(run: RunIrView) -> CharacterRunView {
    CharacterRunView {
        character_style: None,
        font: run.font_family,
        font_style: style_name(run.bold, run.italic),
        point_size: Some(run.font_size_pt),
        fill_color: color_ref(run.color_rgb),
        fill_tint: None,
        capitalization: None,
        baseline_shift: None,
        horizontal_scale: None,
        vertical_scale: None,
        skew: None,
        position: None,
        tracking: None,
        underline: None,
        strikethru: None,
        leading: None,
        ruby_flag: None,
        ruby_type: None,
        ruby_string: None,
        kenten_kind: None,
        kenten_character: None,
        kenten_font_size: None,
        overprint_fill: None,
        overprint_stroke: None,
        stroke_color: None,
        stroke_weight: None,
        ligatures_on: None,
        kerning_method: None,
        applied_language: None,
        otf_features: None,
        otf: no_otf_features(),
        applied_conditions: Seq::empty(),
        hyperlink_source: None,
        text_variable: None,
        text: run.text,
    }
}

fn make_run(run: &RunIr, palette: &mut Graphic) -> (r: CharacterRun)
    ensures
        r.deep_view() == run_from(run.deep_view()),
        final(palette).deep_view() == with_color(
            old(palette).deep_view(),
            run.color_rgb,
        ),
{
    let fill_color: Option<String> = color_id_of(palette, run.color_rgb);
    CharacterRun {
        character_style: None,
        font: copy_text(&run.font_family),
        font_style: font_style(run.bold, run.italic),
        point_size: Some(run.font_size_pt),
        fill_color: fill_color,
        fill_tint: None,
        capitalization: None,
        baseline_shift: None,
        horizontal_scale: None,
        vertical_scale: None,
        skew: None,
        position: None,
        tracking: None,
        underline: None,
        strikethru: None,
        leading: None,
        ruby_flag: None,
        ruby_type: None,
        ruby_string: None,
        kenten_kind: None,
        kenten_character: None,
        kenten_font_size: None,
        overprint_fill: None,
        overprint_stroke: None,
        stroke_color: None,
        stroke_weight: None,
        ligatures_on: None,
        kerning_method: None,
        applied_language: None,
        otf_features: None,
        otf: OtfFeatures::default(),
        applied_conditions: Vec::new(),
        hyperlink_source: None,
        text_variable: None,
        text: run.text.clone(),
    }
}

/// The runs that those of the reading become; runs without text are left out.
pub open spec fn runs_from(runs: Seq<RunIrView>) -> Seq<CharacterRunView>
    decreases runs.len(),
{
    if runs.len() == 0 {
        Seq::empty()
    } else {
        let before = runs_from(runs.drop_last());
        if runs.last().text.len() == 0 {
            before
        } else {
            before.push(run_from(runs.last()))
        }
    }
}

/// The palette with the swatches of the runs that have text.
pub open spec fn with_run_colors(palette: GraphicView, runs: Seq<RunIrView>) -> GraphicView
    decreases runs.len(),
{
    if runs.len() == 0 {
        palette
    } else {
        let before = with_run_colors(palette, runs.drop_last());
        if runs.last().text.len() == 0 {
            before
        } else {
            with_color(before, runs.last().color_rgb)
        }
    }
}

/// The paragraph that one of the reading becomes.
pub open spec fn paragraph_from(p: ParagraphIrView) -> ParagraphView {
    ParagraphView { runs: runs_from(p.runs), ..plain_paragraph() }
}

fn is_blank(s: &String) -> (r: bool)
    ensures
        r == (s@.len() == 0),
{
    let none: String = String::new();
    let blank: bool = crate::text::same_text(s.as_str(), none.as_str());
    assert(s@.len() == 0 ==> s@ =~= none@);
    blank
}

fn make_paragraph(p: &ParagraphIr, palette: &mut Graphic) -> (r: Paragraph)
    ensures
        r.deep_view() == paragraph_from(p.deep_view()),
        final(palette).deep_view() == with_run_colors(
            old(palette).deep_view(),
            p.deep_view().runs,
        ),
{
    let ghost given = p.deep_view().runs;
    let ghost before = palette.deep_view();
    let mut runs: Vec<CharacterRun> = Vec::new();
    let mut i: usize = 0;
    assert(given.take(0) =~= Seq::empty());
    assert(runs.deep_view() =~= Seq::empty());
    while i < p.runs.len()
        invariant
            i <= p.runs@.len(),
            given == p.deep_view().runs,
            runs.deep_view() == runs_from(given.take(i as int)),
            palette.deep_view() == with_run_colors(before, given.take(i as int)),
        decreases p.runs@.len() - i,
    {
        assert(given.take(i + 1).drop_last() =~= given.take(i as int));
        assert(given.take(i + 1).last() == p.runs@[i as int].deep_view());
        if !is_blank(&p.runs[i].text) {
            let run: CharacterRun = make_run(&p.runs[i], palette);
            push_item(&mut runs, run);
        }
        i = i + 1;
    }
    assert(given.take(given.len() as int) =~= given);
    let mut r: Paragraph = blank_paragraph();
    proof {
        lemma_paragraph_view(r);
    }
    r.runs = runs;
    proof {
        lemma_paragraph_view(r);
    }
    r
}

/// The paragraphs that those of the reading become; those without text are left
/// out.
pub open spec fn paragraphs_from(paragraphs: Seq<ParagraphIrView>) -> Seq<ParagraphView>
    decreases paragraphs.len(),
{
    if paragraphs.len() == 0 {
        Seq::empty()
    } else {
        let before = paragraphs_from(paragraphs.drop_last());
        if runs_from(paragraphs.last().runs).len() == 0 {
            before
        } else {
            before.push(paragraph_from(paragraphs.last()))
        }
    }
}

/// The palette with the swatches of the text.
pub open spec fn with_text_colors(
    palette: GraphicView,
    paragraphs: Seq<ParagraphIrView>,
) -> GraphicView
    decreases paragraphs.len(),
{
    if paragraphs.len() == 0 {
        palette
    } else {
        with_run_colors(
            with_text_colors(palette, paragraphs.drop_last()),
            paragraphs.last().runs,
        )
    }
}

/// The story that a text becomes.
pub open spec fn story_from(tf: TextFrameIrView) -> StoryView {
    StoryView { paragraphs: paragraphs_from(tf.paragraphs), ..empty_story() }
}

fn make_story(tf: &TextFrameIr, palette: &mut Graphic) -> (r: Story)
    ensures
        r.deep_view() == story_from(tf.deep_view()),
        final(palette).deep_view() == with_text_colors(
            old(palette).deep_view(),
            tf.deep_view().paragraphs,
        ),
{
    let ghost given = tf.deep_view().paragraphs;
    let ghost before = palette.deep_view();
    let mut r: Story = Story::default();
    let mut i: usize = 0;
    assert(given.take(0) =~= Seq::empty());
    while i < tf.paragraphs.len()
        invariant
            i <= tf.paragraphs@.len(),
            given == tf.deep_view().paragraphs,
            r.deep_view() == (StoryView {
                paragraphs: paragraphs_from(given.take(i as int)),
                ..empty_story()
            }),
            palette.deep_view() == with_text_colors(before, given.take(i as int)),
        decreases tf.paragraphs@.len() - i,
    {
        assert(given.take(i + 1).drop_last() =~= given.take(i as int));
        assert(given.take(i + 1).last() == tf.paragraphs@[i as int].deep_view());
        let p: Paragraph = make_paragraph(&tf.paragraphs[i], palette);
        assert(p.deep_view().runs.len() == p.runs@.len());
        if p.runs.len() > 0 {
            push_item(&mut r.paragraphs, p);
        }
        i = i + 1;
    }
    assert(given.take(given.len() as int) =~= given);
    r
}

/// Corners that state nothing.
pub open spec fn no_corners() -> Corners {
    Corners {
        top_left: CornerSpec { option: None, radius: None },
        top_right: CornerSpec { option: None, radius: None },
        bottom_right: CornerSpec { option: None, radius: None },
        bottom_left: CornerSpec { option: None, radius: None },
    }
}

fn plain_corners() -> (r: Corners)
    ensures
        r == no_corners(),
{
    let none = CornerSpec { option: None, radius: None };
    Corners { top_left: none, top_right: none, bottom_right: none, bottom_left: none }
}

/// A rectangle with an image that fills it.
pub open spec fn image_rectangle(id: Seq<char>, bounds: Bounds, image: Seq<u8>) -> RectangleView {
    RectangleView {
        self_id: Some(id),
        bounds: bounds,
        item_transform: Some(identity()),
        fill_color: None,
        fill_tint: None,
        stroke_color: None,
        stroke_weight: None,
        drop_shadow: None,
        stroke_drop_shadow: None,
        image_link: None,
        image_bytes: Some(image),
        image_clip: None,
        has_image_element: true,
        has_inline_pdf: false,
        image_item_transform: None,
        applied_object_style: None,
        text_wrap: None,
        frame_fitting: None,
        stroke_type: None,
        stroke_alignment: None,
        end_cap: None,
        end_join: None,
        miter_limit: None,
        stroke_gap_color: None,
        stroke_gap_tint: None,
        stroke_dash: Seq::empty(),
        item_layer: None,
        corner_radius: None,
        corner_option: None,
        corners: no_corners(),
        is_anchored: false,
        opacity: None,
        blend_mode: None,
        effects: None,
        gradient_fill_angle: None,
        gradient_fill_length: None,
        gradient_stroke_angle: None,
        gradient_stroke_length: None,
        text_paths: Seq::empty(),
        overprint_fill: false,
        overprint_stroke: false,
        nonprinting: false,
        visible: true,
        locked: false,
        anchors: Seq::empty(),
        subpath_starts: Seq::empty(),
        subpath_open: Seq::empty(),
    }
}

fn blank_rectangle(id: String, bounds: Bounds, image: Vec<u8>) -> (r: Rectangle)
    ensures
        r.deep_view() == image_rectangle(id@, bounds, image@),
{
    let r = Rectangle {
        self_id: Some(id),
        bounds: bounds,
        item_transform: Some(identity_matrix()),
        fill_color: None,
        fill_tint: None,
        stroke_color: None,
        stroke_weight: None,
        drop_shadow: None,
        stroke_drop_shadow: None,
        image_link: None,
        image_bytes: Some(image),
        image_clip: None,
        has_image_element: true,
        has_inline_pdf: false,
        image_item_transform: None,
        applied_object_style: None,
        text_wrap: None,
        frame_fitting: None,
        stroke_type: None,
        stroke_alignment: None,
        end_cap: None,
        end_join: None,
        miter_limit: None,
        stroke_gap_color: None,
        stroke_gap_tint: None,
        stroke_dash: Vec::new(),
        item_layer: None,
        corner_radius: None,
        corner_option: None,
        corners: plain_corners(),
        is_anchored: false,
        opacity: None,
        blend_mode: None,
        effects: None,
        gradient_fill_angle: None,
        gradient_fill_length: None,
        gradient_stroke_angle: None,
        gradient_stroke_length: None,
        text_paths: Vec::new(),
        overprint_fill: false,
        overprint_stroke: false,
        nonprinting: false,
        visible: true,
        locked: false,
        anchors: Vec::new(),
        subpath_starts: Vec::new(),
        subpath_open: Vec::new(),
    };
    assert(r.deep_view().stroke_dash =~= Seq::empty());
    assert(r.deep_view().text_paths =~= Seq::empty());
    assert(r.image_bytes.deep_view() =~~= Some(image@));
    r
}

/// A text frame for a story.
pub open spec fn story_frame(id: Seq<char>, story: Seq<char>, bounds: Bounds) -> TextFrameView {
    TextFrameView {
        self_id: Some(id),
        parent_story: Some(story),
        bounds: bounds,
        item_transform: Some(identity()),
        fill_color: None,
        fill_tint: None,
        stroke_color: None,
        stroke_weight: None,
        stroke_type: None,
        stroke_gap_color: None,
        stroke_gap_tint: None,
        stroke_dash: Seq::empty(),
        drop_shadow: None,
        stroke_drop_shadow: None,
        next_text_frame: None,
        vertical_justification: None,
        first_baseline_offset: None,
        minimum_first_baseline_offset: None,
        inset_spacing: None,
        auto_sizing: None,
        auto_sizing_reference_point: None,
        minimum_width_for_auto_sizing: None,
        minimum_height_for_auto_sizing: None,
        use_minimum_height_for_auto_sizing: None,
        column_count: None,
        column_gutter: None,
        column_balance: None,
        applied_object_style: None,
        text_wrap: None,
        item_layer: None,
        is_anchored: false,
        opacity: None,
        blend_mode: None,
        anchors: Seq::empty(),
        subpath_starts: Seq::empty(),
        subpath_open: Seq::empty(),
        effects: None,
        gradient_fill_angle: None,
        gradient_fill_length: None,
        gradient_stroke_angle: None,
        gradient_stroke_length: None,
        applied_toc_style: None,
        overprint_fill: false,
        overprint_stroke: false,
        nonprinting: false,
        visible: true,
        locked: false,
    }
}

fn blank_text_frame(id: String, story: String, bounds: Bounds) -> (r: TextFrame)
    ensures
        r.deep_view() == story_frame(id@, story@, bounds),
{
    TextFrame {
        self_id: Some(id),
        parent_story: Some(story),
        bounds: bounds,
        item_transform: Some(identity_matrix()),
        fill_color: None,
        fill_tint: None,
        stroke_color: None,
        stroke_weight: None,
        stroke_type: None,
        stroke_gap_color: None,
        stroke_gap_tint: None,
        stroke_dash: Vec::new(),
        drop_shadow: None,
        stroke_drop_shadow: None,
        next_text_frame: None,
        vertical_justification: None,
        first_baseline_offset: None,
        minimum_first_baseline_offset: None,
        inset_spacing: None,
        auto_sizing: None,
        auto_sizing_reference_point: None,
        minimum_width_for_auto_sizing: None,
        minimum_height_for_auto_sizing: None,
        use_minimum_height_for_auto_sizing: None,
        column_count: None,
        column_gutter: None,
        column_balance: None,
        applied_object_style: None,
        text_wrap: None,
        item_layer: None,
        is_anchored: false,
        opacity: None,
        blend_mode: None,
        anchors: Vec::new(),
        subpath_starts: Vec::new(),
        subpath_open: Vec::new(),
        effects: None,
        gradient_fill_angle: None,
        gradient_fill_length: None,
        gradient_stroke_angle: None,
        gradient_stroke_length: None,
        applied_toc_style: None,
        overprint_fill: false,
        overprint_stroke: false,
        nonprinting: false,
        visible: true,
        locked: false,
    }
}

/// A shape, given where its outlines run, where they start, which are open, and
/// how they are filled and stroked.
pub open spec fn shape_polygon(
    id: Seq<char>,
    bounds: Bounds,
    anchors: Seq<PathAnchor>,
    starts: Seq<usize>,
    opens: Seq<bool>,
    fill: Option<Seq<char>>,
    stroke: Option<Seq<char>>,
    weight: Option<Num>,
) -> PolygonView {
    PolygonView {
        self_id: Some(id),
        bounds: bounds,
        item_transform: Some(identity()),
        fill_color: fill,
        fill_tint: None,
        stroke_color: stroke,
        stroke_weight: weight,
        stroke_type: None,
        stroke_alignment: None,
        end_join: None,
        miter_limit: None,
        stroke_gap_color: None,
        stroke_gap_tint: None,
        stroke_dash: Seq::empty(),
        applied_object_style: None,
        text_wrap: None,
        anchors: anchors,
        subpath_starts: starts,
        subpath_open: opens,
        item_layer: None,
        gradient_fill_angle: None,
        gradient_fill_length: None,
        gradient_stroke_angle: None,
        gradient_stroke_length: None,
        opacity: None,
        blend_mode: None,
        text_paths: Seq::empty(),
        image_link: None,
        image_bytes: None,
        image_clip: None,
        has_image_element: false,
        has_inline_pdf: false,
        image_item_transform: None,
        effects: None,
        overprint_fill: false,
        overprint_stroke: false,
        nonprinting: false,
        visible: true,
        locked: false,
    }
}

fn blank_polygon(
    id: String,
    bounds: Bounds,
    anchors: Vec<PathAnchor>,
    starts: Vec<usize>,
    opens: Vec<bool>,
    fill: Option<String>,
    stroke: Option<String>,
    weight: Option<Num>,
) -> (r: Polygon)
    ensures
        r.deep_view() == shape_polygon(
            id@,
            bounds,
            anchors@,
            starts@,
            opens@,
            fill.deep_view(),
            stroke.deep_view(),
            weight,
        ),
{
    let r = Polygon {
        self_id: Some(id),
        bounds: bounds,
        item_transform: Some(identity_matrix()),
        fill_color: fill,
        fill_tint: None,
        stroke_color: stroke,
        stroke_weight: weight,
        stroke_type: None,
        stroke_alignment: None,
        end_join: None,
        miter_limit: None,
        stroke_gap_color: None,
        stroke_gap_tint: None,
        stroke_dash: Vec::new(),
        applied_object_style: None,
        text_wrap: None,
        anchors: anchors,
        subpath_starts: starts,
        subpath_open: opens,
        item_layer: None,
        gradient_fill_angle: None,
        gradient_fill_length: None,
        gradient_stroke_angle: None,
        gradient_stroke_length: None,
        opacity: None,
        blend_mode: None,
        text_paths: Vec::new(),
        image_link: None,
        image_bytes: None,
        image_clip: None,
        has_image_element: false,
        has_inline_pdf: false,
        image_item_transform: None,
        effects: None,
        overprint_fill: false,
        overprint_stroke: false,
        nonprinting: false,
        visible: true,
        locked: false,
    };
    assert(r.deep_view().text_paths =~= Seq::empty());
    r
}

/// The document while it is made: the spread of the page at hand, the number of
/// identifiers that were given out, the stories and the palette.
struct Draft {
    spread: Spread,
    n: u32,
    stories: Vec<ParsedStory>,
    palette: Graphic,
}

/// What a draft holds.
#[verifier::ext_equal]
pub struct DraftView {
    pub spread: SpreadView,
    pub n: nat,
    pub stories: Seq<ParsedStoryView>,
    pub palette: GraphicView,
}

impl View for Draft {
    type V = DraftView;

    closed spec fn view(&self) -> DraftView {
        DraftView {
            spread: self.spread.deep_view(),
            n: self.n as nat,
            stories: self.stories.deep_view(),
            palette: self.palette.deep_view(),
        }
    }
}

/// The draft with an image on its page.
pub open spec fn with_image(d: DraftView, rect: RectIr, image: Seq<u8>) -> DraftView {
    DraftView {
        spread: SpreadView {
            rectangles: d.spread.rectangles.push(
                image_rectangle(minted("img"@, d.n + 1), rect_bounds(rect), image),
            ),
            frames_in_order: d.spread.frames_in_order.push(
                FrameRef::Rectangle(d.spread.rectangles.len() as usize),
            ),
            ..d.spread
        },
        n: d.n + 1,
        ..d
    }
}

fn push_image(d: &mut Draft, rect: RectIr, image: Vec<u8>)
    requires
        old(d).n < u32::MAX,
    ensures
        final(d)@ == with_image(old(d)@, rect, image@),
{
    d.n = d.n + 1;
    let r: Rectangle = blank_rectangle(mint("img", d.n), bounds_of(rect), image);
    let place: usize = d.spread.rectangles.len();
    push_item(&mut d.spread.rectangles, r);
    push_item(&mut d.spread.frames_in_order, FrameRef::Rectangle(place));
}

/// The draft with a text on its page, and the story behind it. A text in which
/// nothing is written leaves no trace.
pub open spec fn with_text(d: DraftView, tf: TextFrameIrView) -> DraftView {
    let palette = with_text_colors(d.palette, tf.paragraphs);
    let story = story_from(tf);
    if story.paragraphs.len() == 0 {
        DraftView { palette, ..d }
    } else {
        let id = minted("story"@, d.n + 1);
        DraftView {
            spread: SpreadView {
                text_frames: d.spread.text_frames.push(
                    story_frame(minted("frame"@, d.n + 2), id, rect_bounds(tf.rect)),
                ),
                frames_in_order: d.spread.frames_in_order.push(
                    FrameRef::TextFrame(d.spread.text_frames.len() as usize),
                ),
                ..d.spread
            },
            n: d.n + 2,
            stories: d.stories.push(
                ParsedStoryView {
                    src: "Stories/Story_"@ + id + ".xml"@,
                    self_id: id,
                    story,
                },
            ),
            palette,
        }
    }
}

fn push_text(d: &mut Draft, tf: &TextFrameIr)
    requires
        old(d).n + 2 <= u32::MAX || story_from(tf.deep_view()).paragraphs.len() == 0,
    ensures
        final(d)@ == with_text(old(d)@, tf.deep_view()),
{
    let story: Story = make_story(tf, &mut d.palette);
    assert(story.deep_view().paragraphs.len() == story.paragraphs@.len());
    if story.paragraphs.len() == 0 {
        return;
    }
    let id: String = mint("story", d.n + 1);
    let frame: TextFrame = blank_text_frame(mint("frame", d.n + 2), id.clone(), bounds_of(tf.rect));
    d.n = d.n + 2;
    let place: usize = d.spread.text_frames.len();
    push_item(&mut d.spread.text_frames, frame);
    push_item(&mut d.spread.frames_in_order, FrameRef::TextFrame(place));
    let src: String = join(join("Stories/Story_", id.as_str()).as_str(), ".xml");
    push_item(&mut d.stories, ParsedStory { src, self_id: id, story });
}

/// The outlines that can be drawn: those with two points or more.
pub open spec fn drawable(subpaths: Seq<SubpathIrView>) -> Seq<SubpathIrView>
    decreases subpaths.len(),
{
    if subpaths.len() == 0 {
        Seq::empty()
    } else {
        let before = drawable(subpaths.drop_last());
        if subpaths.last().points.len() < 2 {
            before
        } else {
            before.push(subpaths.last())
        }
    }
}

/// A point of an outline without curves.
pub open spec fn corner_at(p: PointIr) -> PathAnchor {
    PathAnchor {
        anchor: (p.x_pt, p.y_pt),
        left: (p.x_pt, p.y_pt),
        right: (p.x_pt, p.y_pt),
    }
}

/// The points of the outlines, one behind the other.
pub open spec fn shape_anchors(subpaths: Seq<SubpathIrView>) -> Seq<PathAnchor>
    decreases subpaths.len(),
{
    if subpaths.len() == 0 {
        Seq::empty()
    } else {
        shape_anchors(subpaths.drop_last()) + subpaths.last().points.map_values(
            |p: PointIr| corner_at(p),
        )
    }
}

/// Where among these points each outline starts.
pub open spec fn shape_starts(subpaths: Seq<SubpathIrView>) -> Seq<usize>
    decreases subpaths.len(),
{
    if subpaths.len() == 0 {
        Seq::empty()
    } else {
        shape_starts(subpaths.drop_last()).push(
            shape_anchors(subpaths.drop_last()).len() as usize,
        )
    }
}

/// Which of the outlines are open.
pub open spec fn shape_opens(subpaths: Seq<SubpathIrView>) -> Seq<bool> {
    subpaths.map_values(|s: SubpathIrView| !s.closed)
}

/// `b` grown to hold the points.
pub open spec fn grown_box(b: Bounds, anchors: Seq<PathAnchor>) -> Bounds
    decreases anchors.len(),
{
    if anchors.len() == 0 {
        b
    } else {
        let before = grown_box(b, anchors.drop_last());
        let p = anchors.last().anchor;
        Bounds {
            top: lesser(before.top, p.1),
            left: lesser(before.left, p.0),
            bottom: greater(before.bottom, p.1),
            right: greater(before.right, p.0),
        }
    }
}

/// A box that holds nothing yet.
pub open spec fn inside_out() -> Bounds {
    Bounds {
        top: Num { bits: LARGEST_BITS },
        left: Num { bits: LARGEST_BITS },
        bottom: Num { bits: SMALLEST_BITS },
        right: Num { bits: SMALLEST_BITS },
    }
}

/// The polygon that a shape becomes, given its identifier and the outlines that
/// can be drawn. A shape with one outline does not say where it starts, and says
/// whether it is open only where it is.
pub open spec fn polygon_from(
    id: Seq<char>,
    subs: Seq<SubpathIrView>,
    v: VectorIrView,
) -> PolygonView {
    shape_polygon(
        id,
        grown_box(inside_out(), shape_anchors(subs)),
        shape_anchors(subs),
        if subs.len() == 1 {
            Seq::empty()
        } else {
            shape_starts(subs)
        },
        if subs.len() == 1 && subs[0].closed {
            Seq::empty()
        } else {
            shape_opens(subs)
        },
        color_ref(v.fill_rgb),
        color_ref(v.stroke_rgb),
        v.stroke_width_pt,
    )
}

/// The draft with a shape on its page. One without an outline that can be drawn
/// leaves no trace.
pub open spec fn with_vector(d: DraftView, v: VectorIrView) -> DraftView {
    let subs = drawable(v.subpaths);
    if subs.len() == 0 {
        d
    } else {
        DraftView {
            spread: SpreadView {
                polygons: d.spread.polygons.push(polygon_from(minted("vec"@, d.n + 1), subs, v)),
                frames_in_order: d.spread.frames_in_order.push(
                    FrameRef::Polygon(d.spread.polygons.len() as usize),
                ),
                ..d.spread
            },
            n: d.n + 1,
            palette: with_color(with_color(d.palette, v.fill_rgb), v.stroke_rgb),
            ..d
        }
    }
}

/// The outlines of a shape, flattened.
struct Outlines {
    anchors: Vec<PathAnchor>,
    starts: Vec<usize>,
    opens: Vec<bool>,
    bounds: Bounds,
}

spec fn flattens(o: Outlines, subs: Seq<SubpathIrView>) -> bool {
    &&& o.anchors@ == shape_anchors(subs)
    &&& o.starts@ == shape_starts(subs)
    &&& o.opens@ == shape_opens(subs)
    &&& o.bounds == grown_box(inside_out(), shape_anchors(subs))
}

fn add_outline(o: &mut Outlines, sub: &SubpathIr, Ghost(subs): Ghost<Seq<SubpathIrView>>)
    requires
        flattens(*old(o), subs),
    ensures
        flattens(*final(o), subs.push(sub.deep_view())),
{
    let ghost all = subs.push(sub.deep_view());
    let ghost base = o.anchors@;
    assert(all.drop_last() =~= subs);
    assert(all.last() == sub.deep_view());
    o.starts.push(o.anchors.len());
    o.opens.push(!sub.closed);
    assert(o.opens@ =~= shape_opens(all));
    let ghost corners = sub.points@.map_values(|p: PointIr| corner_at(p));
    let mut i: usize = 0;
    assert(base + corners.take(0) =~= base);
    while i < sub.points.len()
        invariant
            i <= sub.points@.len(),
            corners == sub.points@.map_values(|p: PointIr| corner_at(p)),
            o.anchors@ == base + corners.take(i as int),
            o.bounds == grown_box(inside_out(), o.anchors@),
            o.starts@ == shape_starts(all),
            o.opens@ == shape_opens(all),
        decreases sub.points@.len() - i,
    {
        let p: PointIr = sub.points[i];
        o.anchors.push(
            PathAnchor {
                anchor: (p.x_pt, p.y_pt),
                left: (p.x_pt, p.y_pt),
                right: (p.x_pt, p.y_pt),
            },
        );
        assert(o.anchors@ =~= base + corners.take(i + 1));
        assert(o.anchors@.drop_last() =~= base + corners.take(i as int));
        o.bounds = Bounds {
            top: o.bounds.top.lesser(p.y_pt),
            left: o.bounds.left.lesser(p.x_pt),
            bottom: o.bounds.bottom.greater(p.y_pt),
            right: o.bounds.right.greater(p.x_pt),
        };
        i = i + 1;
    }
    assert(corners.take(corners.len() as int) =~= corners);
}

fn flatten(subpaths: &Vec<SubpathIr>) -> (r: Outlines)
    ensures
        flattens(r, drawable(subpaths.deep_view())),
{
    let ghost given = subpaths.deep_view();
    let mut o = Outlines {
        anchors: Vec::new(),
        starts: Vec::new(),
        opens: Vec::new(),
        bounds: Bounds {
            top: Num { bits: LARGEST_BITS },
            left: Num { bits: LARGEST_BITS },
            bottom: Num { bits: SMALLEST_BITS },
            right: Num { bits: SMALLEST_BITS },
        },
    };
    let mut i: usize = 0;
    assert(given.take(0) =~= Seq::empty());
    assert(o.opens@ =~= shape_opens(Seq::empty()));
    while i < subpaths.len()
        invariant
            i <= subpaths@.len(),
            given == subpaths.deep_view(),
            flattens(o, drawable(given.take(i as int))),
        decreases subpaths@.len() - i,
    {
        assert(given.take(i + 1).drop_last() =~= given.take(i as int));
        assert(given.take(i + 1).last() == subpaths@[i as int].deep_view());
        if subpaths[i].points.len() >= 2 {
            add_outline(&mut o, &subpaths[i], Ghost(drawable(given.take(i as int))));
        }
        i = i + 1;
    }
    assert(given.take(given.len() as int) =~= given);
    o
}

fn push_vector(d: &mut Draft, v: &VectorIr)
    requires
        old(d).n < u32::MAX || drawable(v.deep_view().subpaths).len() == 0,
    ensures
        final(d)@ == with_vector(old(d)@, v.deep_view()),
{
    let ghost subs = drawable(v.deep_view().subpaths);
    let o: Outlines = flatten(&v.subpaths);
    assert(o.opens@.len() == subs.len());
    let n: usize = o.opens.len();
    if n == 0 {
        return;
    }
    d.n = d.n + 1;
    let alone_closed: bool = n == 1 && !o.opens[0];
    assert(n == 1 ==> o.opens@[0] == !subs[0].closed);
    let starts: Vec<usize> = if n == 1 {
        Vec::new()
    } else {
        o.starts
    };
    let opens: Vec<bool> = if alone_closed {
        Vec::new()
    } else {
        o.opens
    };
    let fill: Option<String> = color_id_of(&mut d.palette, v.fill_rgb);
    let stroke: Option<String> = color_id_of(&mut d.palette, v.stroke_rgb);
    let poly: Polygon = blank_polygon(
        mint("vec", d.n),
        o.bounds,
        o.anchors,
        starts,
        opens,
        fill,
        stroke,
        v.stroke_width_pt,
    );
    let place: usize = d.spread.polygons.len();
    push_item(&mut d.spread.polygons, poly);
    push_item(&mut d.spread.frames_in_order, FrameRef::Polygon(place));
}

/// How many identifiers a frame takes.
pub open spec fn frame_ids(frame: FrameIrView) -> nat {
    match frame {
        FrameIrView::Image(_) => 1,
        FrameIrView::Text(tf) => if story_from(tf).paragraphs.len() == 0 {
            0
        } else {
            2
        },
        FrameIrView::Vector(v) => if drawable(v.subpaths).len() == 0 {
            0
        } else {
            1
        },
    }
}

/// The image that a base64 text stands for.
pub open spec fn png_of(text: Seq<char>) -> Option<Seq<u8>> {
    base64_decoded(encode_utf8(text))
}

/// The draft with a frame on its page, or `None` where its image is not in
/// base64.
#[verifier::opaque]
pub open spec fn with_frame(d: DraftView, frame: FrameIrView) -> Option<DraftView> {
    match frame {
        FrameIrView::Image(img) => match png_of(img.png_b64) {
            None => None,
            Some(image) => Some(with_image(d, img.rect, image)),
        },
        FrameIrView::Text(tf) => Some(with_text(d, tf)),
        FrameIrView::Vector(v) => Some(with_vector(d, v)),
    }
}

fn decode_png(text: &str) -> (r: Result<Vec<u8>, BuildError>)
    ensures
        match r {
            Ok(image) => png_of(text@) == Some(image@),
            Err(e) => e is Base64 && png_of(text@) is None,
        },
{
    match decode_base64(text.as_bytes()) {
        Err(e) => Err(BuildError::Base64(e)),
        Ok(image) => Ok(image),
    }
}

proof fn lemma_frame_ids(d: DraftView, frame: FrameIrView)
    ensures
        with_frame(d, frame) matches Some(after) ==> after.n == d.n + frame_ids(frame),
{
    reveal(with_frame);
}

fn push_frame(d: &mut Draft, frame: &FrameIr) -> (r: Result<(), BuildError>)
    requires
        old(d).n + frame_ids(frame.deep_view()) <= u32::MAX,
    ensures
        match r {
            Ok(_) => with_frame(old(d)@, frame.deep_view()) == Some(final(d)@),
            Err(e) => e is Base64 && with_frame(old(d)@, frame.deep_view()) is None,
        },
{
    proof {
        reveal(with_frame);
    }
    match frame {
        FrameIr::Image(img) => match decode_png(img.png_b64.as_str()) {
            Err(e) => Err(e),
            Ok(image) => {
                push_image(d, img.rect, image);
                Ok(())
            },
        },
        FrameIr::Text(tf) => {
            push_text(d, tf);
            Ok(())
        },
        FrameIr::Vector(v) => {
            push_vector(d, v);
            Ok(())
        },
    }
}

/// How many identifiers the first `k` frames take.
pub open spec fn frames_ids(frames: Seq<FrameIrView>, k: nat) -> nat
    decreases k,
{
    if k == 0 {
        0
    } else {
        frames_ids(frames, (k - 1) as nat) + frame_ids(frames[k - 1])
    }
}

/// The draft with the first `k` frames on its page.
pub open spec fn with_frames(d: DraftView, frames: Seq<FrameIrView>, k: nat) -> Option<DraftView>
    decreases k,
{
    if k == 0 {
        Some(d)
    } else {
        match with_frames(d, frames, (k - 1) as nat) {
            None => None,
            Some(before) => with_frame(before, frames[k - 1]),
        }
    }
}

pub(crate) proof fn lemma_frames_ids(d: DraftView, frames: Seq<FrameIrView>, k: nat)
    ensures
        with_frames(d, frames, k) matches Some(after) ==> after.n == d.n + frames_ids(frames, k),
    decreases k,
{
    if k > 0 {
        lemma_frames_ids(d, frames, (k - 1) as nat);
        if let Some(before) = with_frames(d, frames, (k - 1) as nat) {
            lemma_frame_ids(before, frames[k - 1]);
        }
    }
}

pub(crate) proof fn lemma_frames_ids_grow(frames: Seq<FrameIrView>, j: nat, k: nat)
    requires
        j <= k,
    ensures
        frames_ids(frames, j) <= frames_ids(frames, k),
    decreases k,
{
    if j < k {
        lemma_frames_ids_grow(frames, j, (k - 1) as nat);
    }
}

proof fn lemma_frames_fail(d: DraftView, frames: Seq<FrameIrView>, j: nat, k: nat)
    requires
        j <= k,
        with_frames(d, frames, j) is None,
    ensures
        with_frames(d, frames, k) is None,
    decreases k,
{
    if j < k {
        lemma_frames_fail(d, frames, j, (k - 1) as nat);
    }
}

fn push_frames(d: &mut Draft, frames: &Vec<FrameIr>) -> (r: Result<(), BuildError>)
    requires
        old(d).n + frames_ids(frames.deep_view(), frames@.len()) <= u32::MAX,
    ensures
        match r {
            Ok(_) => with_frames(old(d)@, frames.deep_view(), frames@.len()) == Some(final(d)@),
            Err(e) => e is Base64 && with_frames(
                old(d)@,
                frames.deep_view(),
                frames@.len(),
            ) is None,
        },
{
    let ghost given = frames.deep_view();
    let ghost before = d@;
    let mut i: usize = 0;
    while i < frames.len()
        invariant
            i <= frames@.len(),
            given == frames.deep_view(),
            before == old(d)@,
            with_frames(before, given, i as nat) == Some(d@),
            before.n + frames_ids(given, given.len()) <= u32::MAX,
        decreases frames@.len() - i,
    {
        assert(given[i as int] == frames@[i as int].deep_view());
        proof {
            lemma_frames_ids(before, given, i as nat);
            lemma_frames_ids_grow(given, (i + 1) as nat, given.len());
        }
        match push_frame(d, &frames[i]) {
            Err(e) => {
                proof {
                    lemma_frames_fail(before, given, (i + 1) as nat, given.len());
                }
                return Err(e);
            },
            Ok(_) => {},
        }
        i = i + 1;
    }
    Ok(())
}

/// A page on its own.
pub open spec fn page_of(id: Seq<char>, page: PageIrView, number: nat) -> PageView {
    PageView {
        self_id: Some(id),
        bounds: Bounds {
            top: zero(),
            left: zero(),
            bottom: page.height_pt,
            right: page.width_pt,
        },
        applied_master: None,
        item_transform: Some(identity()),
        master_page_transform: None,
        override_list: Seq::empty(),
        name: Some(decimal(number)),
        show_master_items: Some(false),
    }
}

/// The draft with a new spread, for the page with the number `number`.
#[verifier::opaque]
pub open spec fn with_page(d: DraftView, page: PageIrView, number: nat) -> DraftView {
    DraftView {
        spread: SpreadView {
            self_id: Some(minted("spread"@, d.n + 1)),
            item_transform: Some(identity()),
            pages: seq![page_of(minted("page"@, d.n + 2), page, number)],
            ..empty_spread()
        },
        n: d.n + 2,
        ..d
    }
}

fn page_bounds(width_pt: Num, height_pt: Num) -> (r: Bounds)
    ensures
        r == (Bounds { top: zero(), left: zero(), bottom: height_pt, right: width_pt }),
{
    Bounds { top: Num::zero(), left: Num::zero(), bottom: height_pt, right: width_pt }
}

fn open_page(d: &mut Draft, page: &PageIr, number: u64)
    requires
        old(d).n + 2 <= u32::MAX,
    ensures
        final(d)@ == with_page(old(d)@, page.deep_view(), number as nat),
{
    proof {
        reveal(with_page);
    }
    let mut spread: Spread = Spread::default();
    spread.self_id = Some(mint("spread", d.n + 1));
    spread.item_transform = Some(identity_matrix());
    let page = Page {
        self_id: Some(mint("page", d.n + 2)),
        bounds: page_bounds(page.width_pt, page.height_pt),
        applied_master: None,
        item_transform: Some(identity_matrix()),
        master_page_transform: None,
        override_list: Vec::new(),
        name: Some(write_decimal(number)),
        show_master_items: Some(false),
    };
    assert(page.deep_view().override_list =~= Seq::empty());
    push_item(&mut spread.pages, page);
    assert(spread.pages.deep_view() =~= seq![page.deep_view()]);
    d.spread = spread;
    d.n = d.n + 2;
}

/// The rectangle of a whole page.
pub open spec fn page_rect(page: PageIrView) -> RectIr {
    RectIr { x_pt: zero(), y_pt: zero(), width_pt: page.width_pt, height_pt: page.height_pt }
}

/// The draft with the image of the whole page on its page, where there is one.
#[verifier::opaque]
pub open spec fn with_background(d: DraftView, page: PageIrView) -> Option<DraftView> {
    match page.background_png_b64 {
        None => Some(d),
        Some(text) => match png_of(text) {
            None => None,
            Some(image) => Some(with_image(d, page_rect(page), image)),
        },
    }
}

/// How many identifiers the image of the whole page takes.
pub open spec fn background_ids(page: PageIrView) -> nat {
    if page.background_png_b64 is Some {
        1
    } else {
        0
    }
}

fn push_background(d: &mut Draft, page: &PageIr) -> (r: Result<(), BuildError>)
    requires
        old(d).n + background_ids(page.deep_view()) <= u32::MAX,
    ensures
        match r {
            Ok(_) => with_background(old(d)@, page.deep_view()) == Some(final(d)@),
            Err(e) => e is Base64 && with_background(old(d)@, page.deep_view()) is None,
        },
{
    proof {
        reveal(with_background);
    }
    match &page.background_png_b64 {
        None => Ok(()),
        Some(text) => match decode_png(text.as_str()) {
            Err(e) => Err(e),
            Ok(image) => {
                push_image(
                    d,
                    RectIr {
                        x_pt: Num::zero(),
                        y_pt: Num::zero(),
                        width_pt: page.width_pt,
                        height_pt: page.height_pt,
                    },
                    image,
                );
                Ok(())
            },
        },
    }
}

/// The draft with a new spread that holds all of a page: the image of the whole
/// page first, then its frames in reading order. `None` where an image is not in
/// base64.
pub open spec fn with_whole_page(d: DraftView, page: PageIrView, number: nat) -> Option<DraftView> {
    match with_background(with_page(d, page, number), page) {
        None => None,
        Some(before) => with_frames(before, page.frames, page.frames.len()),
    }
}

/// How many identifiers a page takes.
pub open spec fn page_ids(page: PageIrView) -> nat {
    2 + background_ids(page) + frames_ids(page.frames, page.frames.len())
}

pub(crate) proof fn lemma_page_ids(d: DraftView, page: PageIrView, number: nat)
    ensures
        with_page(d, page, number).n == d.n + 2,
        with_background(with_page(d, page, number), page) matches Some(b) ==> b.n == d.n + 2
            + background_ids(page),
        with_whole_page(d, page, number) matches Some(after) ==> after.n == d.n + page_ids(page),
{
    reveal(with_page);
    reveal(with_background);
    if let Some(b) = with_background(with_page(d, page, number), page) {
        lemma_frames_ids(b, page.frames, page.frames.len());
    }
}

fn push_page(d: &mut Draft, page: &PageIr, number: u64) -> (r: Result<(), BuildError>)
    requires
        old(d).n + page_ids(page.deep_view()) <= u32::MAX,
    ensures
        match r {
            Ok(_) => with_whole_page(old(d)@, page.deep_view(), number as nat) == Some(final(d)@),
            Err(e) => e is Base64 && with_whole_page(
                old(d)@,
                page.deep_view(),
                number as nat,
            ) is None,
        },
{
    proof {
        lemma_page_ids(d@, page.deep_view(), number as nat);
    }
    open_page(d, page, number);
    match push_background(d, page) {
        Err(e) => Err(e),
        Ok(_) => push_frames(d, &page.frames),
    }
}

/// What the first pages have become: the spreads, and the draft behind them.
#[verifier::ext_equal]
pub struct BuiltView {
    pub spreads: Seq<ParsedSpreadView>,
    pub draft: DraftView,
}

/// Nothing made yet.
pub open spec fn empty_draft() -> DraftView {
    DraftView { spread: empty_spread(), n: 0, stories: Seq::empty(), palette: no_swatches() }
}

/// The path of the spread with the number `number`.
pub open spec fn spread_path(number: nat) -> Seq<char> {
    "Spreads/Spread_"@ + decimal(number) + ".xml"@
}

/// What the first `k` pages become, or `None` where an image is not in base64.
pub open spec fn built(pages: Seq<PageIrView>, k: nat) -> Option<BuiltView>
    decreases k,
{
    if k == 0 {
        Some(BuiltView { spreads: Seq::empty(), draft: empty_draft() })
    } else {
        match built(pages, (k - 1) as nat) {
            None => None,
            Some(before) => match with_whole_page(before.draft, pages[k - 1], k) {
                None => None,
                Some(draft) => Some(
                    BuiltView {
                        spreads: before.spreads.push(
                            ParsedSpreadView { src: spread_path(k), spread: draft.spread },
                        ),
                        draft: DraftView { spread: empty_spread(), ..draft },
                    },
                ),
            },
        }
    }
}

/// How many identifiers the first `k` pages take.
pub open spec fn pages_ids(pages: Seq<PageIrView>, k: nat) -> nat
    decreases k,
{
    if k == 0 {
        0
    } else {
        pages_ids(pages, (k - 1) as nat) + page_ids(pages[k - 1])
    }
}

pub(crate) proof fn lemma_built_ids(pages: Seq<PageIrView>, k: nat)
    ensures
        built(pages, k) matches Some(b) ==> b.draft.n == pages_ids(pages, k),
    decreases k,
{
    if k > 0 {
        lemma_built_ids(pages, (k - 1) as nat);
        if let Some(before) = built(pages, (k - 1) as nat) {
            lemma_page_ids(before.draft, pages[k - 1], k);
        }
    }
}

pub(crate) proof fn lemma_pages_ids_grow(pages: Seq<PageIrView>, j: nat, k: nat)
    requires
        j <= k,
    ensures
        pages_ids(pages, j) <= pages_ids(pages, k),
    decreases k,
{
    if j < k {
        lemma_pages_ids_grow(pages, j, (k - 1) as nat);
    }
}

proof fn lemma_built_fails(pages: Seq<PageIrView>, j: nat, k: nat)
    requires
        j <= k,
        built(pages, j) is None,
    ensures
        built(pages, k) is None,
    decreases k,
{
    if j < k {
        lemma_built_fails(pages, j, (k - 1) as nat);
    }
}

/// How many identifiers a document takes.
pub open spec fn ids_needed(ir: crate::ir::DocumentIrView) -> nat {
    pages_ids(ir.pages, ir.pages.len())
}

/// The manifest of the document that was made.
pub open spec fn manifest_of(b: BuiltView) -> DesignMapView {
    DesignMapView {
        spreads: Seq::new(b.spreads.len(), |i: int| SpreadRefView { src: b.spreads[i].src }),
        stories: Seq::new(
            b.draft.stories.len(),
            |i: int| StoryRefView { src: b.draft.stories[i].src },
        ),
        document_name: Some("Imported PDF"@),
        ..empty_designmap()
    }
}

/// The document that a reading becomes, or `None` where an image is not in
/// base64.
pub open spec fn document_from(ir: crate::ir::DocumentIrView) -> Option<DocumentView> {
    match built(ir.pages, ir.pages.len()) {
        None => None,
        Some(b) => Some(
            DocumentView {
                designmap: manifest_of(b),
                palette: b.draft.palette,
                spreads: b.spreads,
                stories: b.draft.stories,
                master_spreads: Map::empty(),
                styles: no_styles(),
            },
        ),
    }
}

fn list_spreads(spreads: &Vec<ParsedSpread>) -> (r: Vec<SpreadRef>)
    ensures
        r.deep_view() == Seq::new(
            spreads@.len(),
            |i: int| SpreadRefView { src: spreads.deep_view()[i].src },
        ),
{
    let ghost want = Seq::new(
        spreads@.len(),
        |i: int| SpreadRefView { src: spreads.deep_view()[i].src },
    );
    let mut r: Vec<SpreadRef> = Vec::new();
    let mut i: usize = 0;
    while i < spreads.len()
        invariant
            i <= spreads@.len(),
            want == Seq::new(
                spreads@.len(),
                |i: int| SpreadRefView { src: spreads.deep_view()[i].src },
            ),
            r.deep_view() == want.take(i as int),
        decreases spreads@.len() - i,
    {
        push_item(&mut r, SpreadRef { src: spreads[i].src.clone() });
        assert(r.deep_view() =~= want.take(i + 1));
        i = i + 1;
    }
    assert(r.deep_view() =~= want);
    r
}

fn list_stories(stories: &Vec<ParsedStory>) -> (r: Vec<StoryRef>)
    ensures
        r.deep_view() == Seq::new(
            stories@.len(),
            |i: int| StoryRefView { src: stories.deep_view()[i].src },
        ),
{
    let ghost want = Seq::new(
        stories@.len(),
        |i: int| StoryRefView { src: stories.deep_view()[i].src },
    );
    let mut r: Vec<StoryRef> = Vec::new();
    let mut i: usize = 0;
    while i < stories.len()
        invariant
            i <= stories@.len(),
            want == Seq::new(
                stories@.len(),
                |i: int| StoryRefView { src: stories.deep_view()[i].src },
            ),
            r.deep_view() == want.take(i as int),
        decreases stories@.len() - i,
    {
        push_item(&mut r, StoryRef { src: stories[i].src.clone() });
        assert(r.deep_view() =~= want.take(i + 1));
        i = i + 1;
    }
    assert(r.deep_view() =~= want);
    r
}

fn make_manifest(spreads: &Vec<ParsedSpread>, stories: &Vec<ParsedStory>) -> (r: DesignMap)
    ensures
        forall|b: BuiltView|
            b.spreads == spreads.deep_view() && b.draft.stories == stories.deep_view()
                ==> r.deep_view() == #[trigger] manifest_of(b),
{
    let mut r: DesignMap = DesignMap::default();
    r.spreads = list_spreads(spreads);
    r.stories = list_stories(stories);
    r.document_name = Some("Imported PDF".to_string());
    proof {
        assert forall|b: BuiltView|
            b.spreads == spreads.deep_view() && b.draft.stories
                == stories.deep_view() implies r.deep_view() == #[trigger] manifest_of(b) by {
            assert(r.deep_view().spreads =~= manifest_of(b).spreads);
            assert(r.deep_view().stories =~= manifest_of(b).stories);
        }
    }
    r
}

fn push_pages(d: &mut Draft, pages: &Vec<PageIr>) -> (r: Result<Vec<ParsedSpread>, BuildError>)
    requires
        old(d)@ == empty_draft(),
        pages_ids(pages.deep_view(), pages@.len()) <= u32::MAX,
    ensures
        match r {
            Ok(spreads) => built(pages.deep_view(), pages@.len()) == Some(
                BuiltView { spreads: spreads.deep_view(), draft: final(d)@ },
            ),
            Err(e) => e is Base64 && built(pages.deep_view(), pages@.len()) is None,
        },
{
    let ghost given = pages.deep_view();
    let mut spreads: Vec<ParsedSpread> = Vec::new();
    assert(spreads.deep_view() =~= Seq::empty());
    let mut i: usize = 0;
    while i < pages.len()
        invariant
            i <= pages@.len(),
            given == pages.deep_view(),
            pages_ids(given, given.len()) <= u32::MAX,
            built(given, i as nat) == Some(
                BuiltView { spreads: spreads.deep_view(), draft: d@ },
            ),
        decreases pages@.len() - i,
    {
        assert(given[i as int] == pages@[i as int].deep_view());
        proof {
            lemma_built_ids(given, i as nat);
            lemma_pages_ids_grow(given, (i + 1) as nat, given.len());
        }
        let number: u64 = i as u64 + 1;
        match push_page(d, &pages[i], number) {
            Err(e) => {
                proof {
                    lemma_built_fails(given, (i + 1) as nat, given.len());
                }
                return Err(e);
            },
            Ok(_) => {},
        }
        let src: String = join(
            join("Spreads/Spread_", write_decimal(number).as_str()).as_str(),
            ".xml",
        );
        let mut spread: Spread = Spread::default();
        std::mem::swap(&mut spread, &mut d.spread);
        push_item(&mut spreads, ParsedSpread { src, spread });
        i = i + 1;
    }
    Ok(spreads)
}

/// `a + b`, where it fits into 32 bits.
fn checked_sum(a: Option<u32>, b: Option<u32>) -> (r: Option<u32>)
    ensures
        match (a, b) {
            (Some(x), Some(y)) => if x + y <= u32::MAX {
                r == Some((x + y) as u32)
            } else {
                r is None
            },
            _ => r is None,
        },
{
    match (a, b) {
        (Some(x), Some(y)) => x.checked_add(y),
        _ => None,
    }
}

/// Whether `r` is `n`, or `None` where that does not fit into 32 bits.
pub open spec fn counts(r: Option<u32>, n: nat) -> bool {
    match r {
        Some(x) => x == n,
        None => n > u32::MAX,
    }
}

fn is_text(tf: &TextFrameIr) -> (r: bool)
    ensures
        r == (story_from(tf.deep_view()).paragraphs.len() > 0),
{
    let mut palette: Graphic = Graphic::default();
    let story: Story = make_story(tf, &mut palette);
    assert(story.deep_view().paragraphs.len() == story.paragraphs@.len());
    story.paragraphs.len() > 0
}

fn count_frame(frame: &FrameIr) -> (r: u32)
    ensures
        r == frame_ids(frame.deep_view()),
{
    match frame {
        FrameIr::Image(_) => 1,
        FrameIr::Text(tf) => if is_text(tf) {
            2
        } else {
            0
        },
        FrameIr::Vector(v) => {
            let o: Outlines = flatten(&v.subpaths);
            assert(o.opens@.len() == drawable(v.deep_view().subpaths).len());
            if o.opens.len() > 0 {
                1
            } else {
                0
            }
        },
    }
}

fn count_page(page: &PageIr) -> (r: Option<u32>)
    ensures
        counts(r, page_ids(page.deep_view())),
{
    let ghost given = page.deep_view().frames;
    let start: u32 = if page.background_png_b64.is_some() {
        3
    } else {
        2
    };
    let mut r: Option<u32> = Some(start);
    let mut i: usize = 0;
    while i < page.frames.len()
        invariant
            i <= page.frames@.len(),
            given == page.deep_view().frames,
            counts(r, start as nat + frames_ids(given, i as nat)),
        decreases page.frames@.len() - i,
    {
        assert(given[i as int] == page.frames@[i as int].deep_view());
        r = checked_sum(r, Some(count_frame(&page.frames[i])));
        i = i + 1;
    }
    r
}

/// Counts the identifiers that a document takes: `None` where they are more than
/// fit into 32 bits.
pub fn count_ids(ir: &DocumentIr) -> (r: Option<u32>)
    ensures
        counts(r, ids_needed(ir.deep_view())),
{
    let ghost given = ir.deep_view().pages;
    let mut r: Option<u32> = Some(0);
    let mut i: usize = 0;
    while i < ir.pages.len()
        invariant
            i <= ir.pages@.len(),
            given == ir.deep_view().pages,
            counts(r, pages_ids(given, i as nat)),
        decreases ir.pages@.len() - i,
    {
        assert(given[i as int] == ir.pages@[i as int].deep_view());
        r = checked_sum(r, count_page(&ir.pages[i]));
        i = i + 1;
    }
    r
}

/// Makes a document of a reading. The identifiers that it gives out are counted
/// in 32 bits.
pub fn build_document(ir: &DocumentIr) -> (r: Result<Document, BuildError>)
    requires
        ids_needed(ir.deep_view()) <= u32::MAX,
    ensures
        match r {
            Ok(document) => document_from(ir.deep_view()) == Some(document.deep_view()),
            Err(e) => e is Base64 && document_from(ir.deep_view()) is None,
        },
{
    let mut d = Draft {
        spread: Spread::default(),
        n: 0,
        stories: Vec::new(),
        palette: Graphic::default(),
    };
    assert(d@ =~= empty_draft());
    match push_pages(&mut d, &ir.pages) {
        Err(e) => Err(e),
        Ok(spreads) => {
            let designmap: DesignMap = make_manifest(&spreads, &d.stories);
            Ok(
                Document {
                    designmap,
                    palette: d.palette,
                    spreads,
                    stories: d.stories,
                    master_spreads: IdMap::new(),
                    styles: StyleSheet::default(),
                },
            )
        },
    }
}

} // verus!
