//! What the tags of a spread state about page items.
use crate::decimal::{parse_number, written_number};
use crate::geometry::{
    effective_item_transform, parse_bounds, parse_insets, parse_matrix, parse_xy_pair,
    transform_in_groups, written_bounds, written_insets, written_matrix, written_point, zero_bounds,
    Bounds, Insets, Matrix, PathAnchor, Point,
};
use crate::number::{difference, is_finite, less, product, size_bits, sum, zero, Num};
use crate::page_items::{
    BevelEmbossParams, BevelEmbossParamsView, ClippingPathSettings, ClippingPathSettingsView,
    CornerSpec, Corners, DirectionalFeatherParams, DirectionalFeatherParamsView, DropShadowSetting,
    DropShadowSettingView, FeatherParams, FeatherParamsView, FrameEffects, FrameEffectsView,
    FrameFittingOption, FrameFittingOptionView, GradientFeatherParams, GradientFeatherParamsView,
    GradientFeatherStop, GradientFeatherStopView, GraphicLine, GraphicLineView, ImageMetadata,
    ImageMetadataView, InnerGlowParams, InnerGlowParamsView, InnerShadowParams,
    InnerShadowParamsView, MarginPreference, OuterGlowParams, OuterGlowParamsView, Oval, OvalView,
    Page, PageView, Polygon, PolygonView, Rectangle, RectangleView, RulerGuide, SatinParams,
    SatinParamsView, TextFrame, TextFrameView, TextPath, TextPathView,
};
use crate::text::{
    chars_of, numbers, parse_numbers, same_text, split_words, starts_with, text_between, words,
};
use crate::util::{either, first_of};
use crate::vocabulary::{ArrowheadType, ClippingType, CornerOption, GuideOrientation};
use crate::xml::{hundred, Tag, TagView};
use vstd::prelude::*;

verus! {

impl TagView {
    /// The attribute `key` read as a transform.
    pub open spec fn matrix(self, key: Seq<char>) -> Option<Matrix> {
        match self.text(key) {
            None => None,
            Some(s) => written_matrix(s),
        }
    }

    /// The attribute `key` read as a box.
    pub open spec fn bounds(self, key: Seq<char>) -> Option<Bounds> {
        match self.text(key) {
            None => None,
            Some(s) => written_bounds(s),
        }
    }

    /// The attribute `key` read as a point.
    pub open spec fn point(self, key: Seq<char>) -> Option<Point> {
        match self.text(key) {
            None => None,
            Some(s) => written_point(s),
        }
    }

    /// The attribute `key` read as four distances.
    pub open spec fn insets(self, key: Seq<char>) -> Option<Insets> {
        match self.text(key) {
            None => None,
            Some(s) => written_insets(s),
        }
    }
}

impl Tag {
    /// The attribute `key` read as a transform.
    pub fn matrix(&self, key: &str) -> (r: Option<Matrix>)
        ensures
            r == self@.matrix(key@),
    {
        match self.text(key) {
            None => None,
            Some(s) => parse_matrix(s.as_str()),
        }
    }

    /// The attribute `key` read as a box.
    pub fn bounds(&self, key: &str) -> (r: Option<Bounds>)
        ensures
            r == self@.bounds(key@),
    {
        match self.text(key) {
            None => None,
            Some(s) => parse_bounds(s.as_str()),
        }
    }

    /// The attribute `key` read as a point.
    pub fn point(&self, key: &str) -> (r: Option<Point>)
        ensures
            r == self@.point(key@),
    {
        match self.text(key) {
            None => None,
            Some(s) => parse_xy_pair(s.as_str()),
        }
    }

    /// The attribute `key` read as four distances.
    pub fn insets(&self, key: &str) -> (r: Option<Insets>)
        ensures
            r == self@.insets(key@),
    {
        match self.text(key) {
            None => None,
            Some(s) => parse_insets(s.as_str()),
        }
    }
}

/// What every kind of page item states.
#[derive(Debug, PartialEq)]
pub struct CommonAttrs {
    pub self_id: Option<String>,
    pub item_transform: Option<Matrix>,
    pub fill_color: Option<String>,
    pub fill_tint: Option<Num>,
    pub gradient_fill_angle: Option<Num>,
    pub gradient_fill_length: Option<Num>,
    pub gradient_stroke_angle: Option<Num>,
    pub gradient_stroke_length: Option<Num>,
    pub stroke_color: Option<String>,
    pub stroke_weight: Option<Num>,
    pub stroke_type: Option<String>,
    pub stroke_gap_color: Option<String>,
    pub stroke_gap_tint: Option<Num>,
    pub stroke_dash: Vec<Num>,
    pub applied_object_style: Option<String>,
    pub item_layer: Option<String>,
    pub overprint_fill: bool,
    pub overprint_stroke: bool,
    pub nonprinting: bool,
    pub visible: bool,
    pub locked: bool,
}

/// What a [`CommonAttrs`] holds.
#[verifier::ext_equal]
pub struct CommonAttrsView {
    pub self_id: Option<Seq<char>>,
    pub item_transform: Option<Matrix>,
    pub fill_color: Option<Seq<char>>,
    pub fill_tint: Option<Num>,
    pub gradient_fill_angle: Option<Num>,
    pub gradient_fill_length: Option<Num>,
    pub gradient_stroke_angle: Option<Num>,
    pub gradient_stroke_length: Option<Num>,
    pub stroke_color: Option<Seq<char>>,
    pub stroke_weight: Option<Num>,
    pub stroke_type: Option<Seq<char>>,
    pub stroke_gap_color: Option<Seq<char>>,
    pub stroke_gap_tint: Option<Num>,
    pub stroke_dash: Seq<Num>,
    pub applied_object_style: Option<Seq<char>>,
    pub item_layer: Option<Seq<char>>,
    pub overprint_fill: bool,
    pub overprint_stroke: bool,
    pub nonprinting: bool,
    pub visible: bool,
    pub locked: bool,
}

impl DeepView for CommonAttrs {
    type V = CommonAttrsView;

    open spec fn deep_view(&self) -> CommonAttrsView {
        CommonAttrsView {
            self_id: self.self_id.deep_view(),
            item_transform: self.item_transform,
            fill_color: self.fill_color.deep_view(),
            fill_tint: self.fill_tint,
            gradient_fill_angle: self.gradient_fill_angle,
            gradient_fill_length: self.gradient_fill_length,
            gradient_stroke_angle: self.gradient_stroke_angle,
            gradient_stroke_length: self.gradient_stroke_length,
            stroke_color: self.stroke_color.deep_view(),
            stroke_weight: self.stroke_weight,
            stroke_type: self.stroke_type.deep_view(),
            stroke_gap_color: self.stroke_gap_color.deep_view(),
            stroke_gap_tint: self.stroke_gap_tint,
            stroke_dash: self.stroke_dash@,
            applied_object_style: self.applied_object_style.deep_view(),
            item_layer: self.item_layer.deep_view(),
            overprint_fill: self.overprint_fill,
            overprint_stroke: self.overprint_stroke,
            nonprinting: self.nonprinting,
            visible: self.visible,
            locked: self.locked,
        }
    }
}

/// The dash lengths that a tag states for itself; none where it states none.
pub open spec fn dashes_of(tag: TagView) -> Seq<Num> {
    match tag.text("StrokeDashAndGap"@) {
        None => Seq::empty(),
        Some(s) => numbers(s, true),
    }
}

fn read_dashes(tag: &Tag) -> (r: Vec<Num>)
    ensures
        r@ == dashes_of(tag@),
{
    match tag.text("StrokeDashAndGap") {
        None => Vec::new(),
        Some(s) => parse_numbers(s.as_str(), true),
    }
}

/// What the tag of a page item states, whatever its kind.
pub open spec fn common_attrs_of(tag: TagView) -> CommonAttrsView {
    CommonAttrsView {
        self_id: tag.text("Self"@),
        item_transform: tag.matrix("ItemTransform"@),
        fill_color: tag.text("FillColor"@),
        fill_tint: tag.tint("FillTint"@),
        gradient_fill_angle: tag.num("GradientFillAngle"@),
        gradient_fill_length: tag.num("GradientFillLength"@),
        gradient_stroke_angle: tag.num("GradientStrokeAngle"@),
        gradient_stroke_length: tag.num("GradientStrokeLength"@),
        stroke_color: tag.text("StrokeColor"@),
        stroke_weight: tag.num("StrokeWeight"@),
        stroke_type: tag.text("StrokeType"@),
        stroke_gap_color: tag.text("GapColor"@),
        stroke_gap_tint: tag.tint("GapTint"@),
        stroke_dash: dashes_of(tag),
        applied_object_style: tag.text("AppliedObjectStyle"@),
        item_layer: tag.text("ItemLayer"@),
        overprint_fill: tag.flag("OverprintFill"@).unwrap_or(false),
        overprint_stroke: tag.flag("OverprintStroke"@).unwrap_or(false),
        nonprinting: tag.flag("Nonprinting"@).unwrap_or(false),
        visible: tag.flag("Visible"@).unwrap_or(true),
        locked: tag.flag("Locked"@).unwrap_or(false),
    }
}

/// Reads it from a tag.
pub fn read_common_attrs(tag: &Tag) -> (r: CommonAttrs)
    ensures
        r.deep_view() == common_attrs_of(tag@),
{
    CommonAttrs {
        self_id: tag.text("Self"),
        item_transform: tag.matrix("ItemTransform"),
        fill_color: tag.text("FillColor"),
        fill_tint: tag.tint("FillTint"),
        gradient_fill_angle: tag.num("GradientFillAngle"),
        gradient_fill_length: tag.num("GradientFillLength"),
        gradient_stroke_angle: tag.num("GradientStrokeAngle"),
        gradient_stroke_length: tag.num("GradientStrokeLength"),
        stroke_color: tag.text("StrokeColor"),
        stroke_weight: tag.num("StrokeWeight"),
        stroke_type: tag.text("StrokeType"),
        stroke_gap_color: tag.text("GapColor"),
        stroke_gap_tint: tag.tint("GapTint"),
        stroke_dash: read_dashes(tag),
        applied_object_style: tag.text("AppliedObjectStyle"),
        item_layer: tag.text("ItemLayer"),
        overprint_fill: tag.flag("OverprintFill").unwrap_or(false),
        overprint_stroke: tag.flag("OverprintStroke").unwrap_or(false),
        nonprinting: tag.flag("Nonprinting").unwrap_or(false),
        visible: tag.flag("Visible").unwrap_or(true),
        locked: tag.flag("Locked").unwrap_or(false),
    }
}

/// What a tag states about one corner.
pub open spec fn corner_of(tag: TagView, option: Seq<char>, radius: Seq<char>) -> CornerSpec {
    CornerSpec {
        option: match tag.text(option) {
            None => None,
            Some(s) => CornerOption::named(s),
        },
        radius: tag.num(radius),
    }
}

pub fn read_corner(tag: &Tag, option: &str, radius: &str) -> (r: CornerSpec)
    ensures
        r == corner_of(tag@, option@, radius@),
{
    CornerSpec {
        option: match tag.text(option) {
            None => None,
            Some(s) => CornerOption::from_idml(s.as_str()),
        },
        radius: tag.num(radius),
    }
}

/// What a tag states about each corner.
pub open spec fn corners_of(tag: TagView) -> Corners {
    Corners {
        top_left: corner_of(tag, "TopLeftCornerOption"@, "TopLeftCornerRadius"@),
        top_right: corner_of(tag, "TopRightCornerOption"@, "TopRightCornerRadius"@),
        bottom_right: corner_of(tag, "BottomRightCornerOption"@, "BottomRightCornerRadius"@),
        bottom_left: corner_of(tag, "BottomLeftCornerOption"@, "BottomLeftCornerRadius"@),
    }
}

/// Reads it from a tag.
pub fn read_corners(tag: &Tag) -> (r: Corners)
    ensures
        r.deep_view() == corners_of(tag@),
{
    Corners {
        top_left: read_corner(tag, "TopLeftCornerOption", "TopLeftCornerRadius"),
        top_right: read_corner(tag, "TopRightCornerOption", "TopRightCornerRadius"),
        bottom_right: read_corner(tag, "BottomRightCornerOption", "BottomRightCornerRadius"),
        bottom_left: read_corner(tag, "BottomLeftCornerOption", "BottomLeftCornerRadius"),
    }
}

/// The line end that the attribute `key` names; none where it is missing.
pub open spec fn arrow_of(tag: TagView, key: Seq<char>) -> ArrowheadType {
    match tag.text(key) {
        None => ArrowheadType::NoHead,
        Some(s) => ArrowheadType::named(s),
    }
}

fn read_arrow(tag: &Tag, key: &str) -> (r: ArrowheadType)
    ensures
        r == arrow_of(tag@, key@),
{
    match tag.text(key) {
        None => ArrowheadType::NoHead,
        Some(s) => ArrowheadType::from_idml(s.as_str()),
    }
}

/// The item that a `TextFrame` tag states inside `groups`, before anything is known
/// from its children.
pub open spec fn text_frame_of(tag: TagView, groups: Seq<Option<Matrix>>) -> TextFrameView {
    let c = common_attrs_of(tag);
    TextFrameView {
        self_id: c.self_id,
        parent_story: tag.text("ParentStory"@),
        bounds: tag.bounds("GeometricBounds"@).unwrap_or(zero_bounds()),
        item_transform: transform_in_groups(groups, c.item_transform),
        fill_color: c.fill_color,
        fill_tint: c.fill_tint,
        stroke_color: c.stroke_color,
        stroke_weight: c.stroke_weight,
        stroke_type: c.stroke_type,
        stroke_gap_color: c.stroke_gap_color,
        stroke_gap_tint: c.stroke_gap_tint,
        stroke_dash: c.stroke_dash,
        drop_shadow: None,
        stroke_drop_shadow: None,
        next_text_frame: tag.text("NextTextFrame"@),
        vertical_justification: None,
        first_baseline_offset: None,
        minimum_first_baseline_offset: None,
        inset_spacing: None,
        auto_sizing: None,
        auto_sizing_reference_point: None,
        minimum_width_for_auto_sizing: None,
        minimum_height_for_auto_sizing: None,
        use_minimum_height_for_auto_sizing: None,
        column_count: None,
        column_gutter: None,
        column_balance: None,
        applied_object_style: c.applied_object_style,
        text_wrap: None,
        item_layer: c.item_layer,
        is_anchored: false,
        opacity: None,
        blend_mode: None,
        anchors: Seq::empty(),
        subpath_starts: Seq::empty(),
        subpath_open: Seq::empty(),
        effects: None,
        gradient_fill_angle: c.gradient_fill_angle,
        gradient_fill_length: c.gradient_fill_length,
        gradient_stroke_angle: c.gradient_stroke_angle,
        gradient_stroke_length: c.gradient_stroke_length,
        applied_toc_style: tag.text("AppliedTOCStyle"@),
        overprint_fill: c.overprint_fill,
        overprint_stroke: c.overprint_stroke,
        nonprinting: c.nonprinting,
        visible: c.visible,
        locked: c.locked,
    }
}

/// Reads it from a tag.
pub fn read_text_frame(tag: &Tag, groups: &Vec<Option<Matrix>>) -> (r: TextFrame)
    ensures
        r.deep_view() == text_frame_of(tag@, groups@),
{
    let c: CommonAttrs = read_common_attrs(tag);
    TextFrame {
        self_id: c.self_id,
        parent_story: tag.text("ParentStory"),
        bounds: tag.bounds("GeometricBounds").unwrap_or(Bounds::zero()),
        item_transform: effective_item_transform(groups, c.item_transform),
        fill_color: c.fill_color,
        fill_tint: c.fill_tint,
        stroke_color: c.stroke_color,
        stroke_weight: c.stroke_weight,
        stroke_type: c.stroke_type,
        stroke_gap_color: c.stroke_gap_color,
        stroke_gap_tint: c.stroke_gap_tint,
        stroke_dash: c.stroke_dash,
        drop_shadow: None,
        stroke_drop_shadow: None,
        next_text_frame: tag.text("NextTextFrame"),
        vertical_justification: None,
        first_baseline_offset: None,
        minimum_first_baseline_offset: None,
        inset_spacing: None,
        auto_sizing: None,
        auto_sizing_reference_point: None,
        minimum_width_for_auto_sizing: None,
        minimum_height_for_auto_sizing: None,
        use_minimum_height_for_auto_sizing: None,
        column_count: None,
        column_gutter: None,
        column_balance: None,
        applied_object_style: c.applied_object_style,
        text_wrap: None,
        item_layer: c.item_layer,
        is_anchored: false,
        opacity: None,
        blend_mode: None,
        anchors: Vec::new(),
        subpath_starts: Vec::new(),
        subpath_open: Vec::new(),
        effects: None,
        gradient_fill_angle: c.gradient_fill_angle,
        gradient_fill_length: c.gradient_fill_length,
        gradient_stroke_angle: c.gradient_stroke_angle,
        gradient_stroke_length: c.gradient_stroke_length,
        applied_toc_style: tag.text("AppliedTOCStyle"),
        overprint_fill: c.overprint_fill,
        overprint_stroke: c.overprint_stroke,
        nonprinting: c.nonprinting,
        visible: c.visible,
        locked: c.locked,
    }
}

/// The item that a `Rectangle` tag states inside `groups`, before anything is known
/// from its children.
pub open spec fn rectangle_of(tag: TagView, groups: Seq<Option<Matrix>>) -> RectangleView {
    let c = common_attrs_of(tag);
    RectangleView {
        self_id: c.self_id,
        bounds: tag.bounds("GeometricBounds"@).unwrap_or(zero_bounds()),
        item_transform: transform_in_groups(groups, c.item_transform),
        fill_color: c.fill_color,
        fill_tint: c.fill_tint,
        stroke_color: c.stroke_color,
        stroke_weight: c.stroke_weight,
        drop_shadow: None,
        stroke_drop_shadow: None,
        image_link: None,
        image_bytes: None,
        image_clip: None,
        has_image_element: false,
        has_inline_pdf: false,
        image_item_transform: None,
        applied_object_style: c.applied_object_style,
        text_wrap: None,
        frame_fitting: None,
        stroke_type: c.stroke_type,
        stroke_alignment: tag.text("StrokeAlignment"@),
        end_cap: tag.text("EndCap"@),
        end_join: tag.text("EndJoin"@),
        miter_limit: tag.num("MiterLimit"@),
        stroke_gap_color: c.stroke_gap_color,
        stroke_gap_tint: c.stroke_gap_tint,
        stroke_dash: c.stroke_dash,
        item_layer: c.item_layer,
        corner_radius: tag.num("CornerRadius"@),
        corner_option: tag.text("CornerOption"@),
        corners: corners_of(tag),
        is_anchored: false,
        opacity: None,
        blend_mode: None,
        effects: None,
        gradient_fill_angle: c.gradient_fill_angle,
        gradient_fill_length: c.gradient_fill_length,
        gradient_stroke_angle: c.gradient_stroke_angle,
        gradient_stroke_length: c.gradient_stroke_length,
        text_paths: Seq::empty(),
        overprint_fill: c.overprint_fill,
        overprint_stroke: c.overprint_stroke,
        nonprinting: c.nonprinting,
        visible: c.visible,
        locked: c.locked,
        anchors: Seq::empty(),
        subpath_starts: Seq::empty(),
        subpath_open: Seq::empty(),
    }
}

/// Reads it from a tag.
pub fn read_rectangle(tag: &Tag, groups: &Vec<Option<Matrix>>) -> (r: Rectangle)
    ensures
        r.deep_view() == rectangle_of(tag@, groups@),
{
    let c: CommonAttrs = read_common_attrs(tag);
    Rectangle {
        self_id: c.self_id,
        bounds: tag.bounds("GeometricBounds").unwrap_or(Bounds::zero()),
        item_transform: effective_item_transform(groups, c.item_transform),
        fill_color: c.fill_color,
        fill_tint: c.fill_tint,
        stroke_color: c.stroke_color,
        stroke_weight: c.stroke_weight,
        drop_shadow: None,
        stroke_drop_shadow: None,
        image_link: None,
        image_bytes: None,
        image_clip: None,
        has_image_element: false,
        has_inline_pdf: false,
        image_item_transform: None,
        applied_object_style: c.applied_object_style,
        text_wrap: None,
        frame_fitting: None,
        stroke_type: c.stroke_type,
        stroke_alignment: tag.text("StrokeAlignment"),
        end_cap: tag.text("EndCap"),
        end_join: tag.text("EndJoin"),
        miter_limit: tag.num("MiterLimit"),
        stroke_gap_color: c.stroke_gap_color,
        stroke_gap_tint: c.stroke_gap_tint,
        stroke_dash: c.stroke_dash,
        item_layer: c.item_layer,
        corner_radius: tag.num("CornerRadius"),
        corner_option: tag.text("CornerOption"),
        corners: read_corners(tag),
        is_anchored: false,
        opacity: None,
        blend_mode: None,
        effects: None,
        gradient_fill_angle: c.gradient_fill_angle,
        gradient_fill_length: c.gradient_fill_length,
        gradient_stroke_angle: c.gradient_stroke_angle,
        gradient_stroke_length: c.gradient_stroke_length,
        text_paths: Vec::new(),
        overprint_fill: c.overprint_fill,
        overprint_stroke: c.overprint_stroke,
        nonprinting: c.nonprinting,
        visible: c.visible,
        locked: c.locked,
        anchors: Vec::new(),
        subpath_starts: Vec::new(),
        subpath_open: Vec::new(),
    }
}

/// The item that a `Oval` tag states inside `groups`, before anything is known
/// from its children.
pub open spec fn oval_of(tag: TagView, groups: Seq<Option<Matrix>>) -> OvalView {
    let c = common_attrs_of(tag);
    OvalView {
        self_id: c.self_id,
        bounds: tag.bounds("GeometricBounds"@).unwrap_or(zero_bounds()),
        item_transform: transform_in_groups(groups, c.item_transform),
        fill_color: c.fill_color,
        fill_tint: c.fill_tint,
        stroke_color: c.stroke_color,
        stroke_weight: c.stroke_weight,
        stroke_type: c.stroke_type,
        stroke_alignment: tag.text("StrokeAlignment"@),
        stroke_gap_color: c.stroke_gap_color,
        stroke_gap_tint: c.stroke_gap_tint,
        stroke_dash: c.stroke_dash,
        drop_shadow: None,
        stroke_drop_shadow: None,
        applied_object_style: c.applied_object_style,
        text_wrap: None,
        item_layer: c.item_layer,
        gradient_fill_angle: c.gradient_fill_angle,
        gradient_fill_length: c.gradient_fill_length,
        gradient_stroke_angle: c.gradient_stroke_angle,
        gradient_stroke_length: c.gradient_stroke_length,
        opacity: None,
        blend_mode: None,
        image_link: None,
        image_bytes: None,
        image_clip: None,
        has_image_element: false,
        has_inline_pdf: false,
        image_item_transform: None,
        effects: None,
        overprint_fill: c.overprint_fill,
        overprint_stroke: c.overprint_stroke,
        nonprinting: c.nonprinting,
        visible: c.visible,
        locked: c.locked,
    }
}

/// Reads it from a tag.
pub fn read_oval(tag: &Tag, groups: &Vec<Option<Matrix>>) -> (r: Oval)
    ensures
        r.deep_view() == oval_of(tag@, groups@),
{
    let c: CommonAttrs = read_common_attrs(tag);
    Oval {
        self_id: c.self_id,
        bounds: tag.bounds("GeometricBounds").unwrap_or(Bounds::zero()),
        item_transform: effective_item_transform(groups, c.item_transform),
        fill_color: c.fill_color,
        fill_tint: c.fill_tint,
        stroke_color: c.stroke_color,
        stroke_weight: c.stroke_weight,
        stroke_type: c.stroke_type,
        stroke_alignment: tag.text("StrokeAlignment"),
        stroke_gap_color: c.stroke_gap_color,
        stroke_gap_tint: c.stroke_gap_tint,
        stroke_dash: c.stroke_dash,
        drop_shadow: None,
        stroke_drop_shadow: None,
        applied_object_style: c.applied_object_style,
        text_wrap: None,
        item_layer: c.item_layer,
        gradient_fill_angle: c.gradient_fill_angle,
        gradient_fill_length: c.gradient_fill_length,
        gradient_stroke_angle: c.gradient_stroke_angle,
        gradient_stroke_length: c.gradient_stroke_length,
        opacity: None,
        blend_mode: None,
        image_link: None,
        image_bytes: None,
        image_clip: None,
        has_image_element: false,
        has_inline_pdf: false,
        image_item_transform: None,
        effects: None,
        overprint_fill: c.overprint_fill,
        overprint_stroke: c.overprint_stroke,
        nonprinting: c.nonprinting,
        visible: c.visible,
        locked: c.locked,
    }
}

/// The item that a `GraphicLine` tag states inside `groups`, before anything is known
/// from its children.
pub open spec fn graphic_line_of(tag: TagView, groups: Seq<Option<Matrix>>) -> GraphicLineView {
    let c = common_attrs_of(tag);
    GraphicLineView {
        self_id: c.self_id,
        bounds: tag.bounds("GeometricBounds"@).unwrap_or(zero_bounds()),
        item_transform: transform_in_groups(groups, c.item_transform),
        stroke_color: c.stroke_color,
        stroke_weight: c.stroke_weight,
        stroke_type: c.stroke_type,
        end_join: tag.text("EndJoin"@),
        miter_limit: tag.num("MiterLimit"@),
        stroke_gap_color: c.stroke_gap_color,
        stroke_gap_tint: c.stroke_gap_tint,
        stroke_dash: c.stroke_dash,
        applied_object_style: c.applied_object_style,
        text_wrap: None,
        item_layer: c.item_layer,
        anchors: Seq::empty(),
        subpath_starts: Seq::empty(),
        subpath_open: Seq::empty(),
        text_paths: Seq::empty(),
        effects: None,
        overprint_stroke: c.overprint_stroke,
        nonprinting: c.nonprinting,
        visible: c.visible,
        locked: c.locked,
        start_arrow: arrow_of(tag, "LeftLineEnd"@),
        end_arrow: arrow_of(tag, "RightLineEnd"@),
        start_arrow_scale: tag.num("LeftArrowHeadScale"@).unwrap_or(hundred()),
        end_arrow_scale: tag.num("RightArrowHeadScale"@).unwrap_or(hundred()),
    }
}

/// Reads it from a tag.
pub fn read_graphic_line(tag: &Tag, groups: &Vec<Option<Matrix>>) -> (r: GraphicLine)
    ensures
        r.deep_view() == graphic_line_of(tag@, groups@),
{
    let c: CommonAttrs = read_common_attrs(tag);
    GraphicLine {
        self_id: c.self_id,
        bounds: tag.bounds("GeometricBounds").unwrap_or(Bounds::zero()),
        item_transform: effective_item_transform(groups, c.item_transform),
        stroke_color: c.stroke_color,
        stroke_weight: c.stroke_weight,
        stroke_type: c.stroke_type,
        end_join: tag.text("EndJoin"),
        miter_limit: tag.num("MiterLimit"),
        stroke_gap_color: c.stroke_gap_color,
        stroke_gap_tint: c.stroke_gap_tint,
        stroke_dash: c.stroke_dash,
        applied_object_style: c.applied_object_style,
        text_wrap: None,
        item_layer: c.item_layer,
        anchors: Vec::new(),
        subpath_starts: Vec::new(),
        subpath_open: Vec::new(),
        text_paths: Vec::new(),
        effects: None,
        overprint_stroke: c.overprint_stroke,
        nonprinting: c.nonprinting,
        visible: c.visible,
        locked: c.locked,
        start_arrow: read_arrow(tag, "LeftLineEnd"),
        end_arrow: read_arrow(tag, "RightLineEnd"),
        start_arrow_scale: tag.num("LeftArrowHeadScale").unwrap_or(Num { bits: 0x42c8_0000 }),
        end_arrow_scale: tag.num("RightArrowHeadScale").unwrap_or(Num { bits: 0x42c8_0000 }),
    }
}

/// The item that a `Polygon` tag states inside `groups`, before anything is known
/// from its children.
pub open spec fn polygon_of(tag: TagView, groups: Seq<Option<Matrix>>) -> PolygonView {
    let c = common_attrs_of(tag);
    PolygonView {
        self_id: c.self_id,
        bounds: tag.bounds("GeometricBounds"@).unwrap_or(zero_bounds()),
        item_transform: transform_in_groups(groups, c.item_transform),
        fill_color: c.fill_color,
        fill_tint: c.fill_tint,
        stroke_color: c.stroke_color,
        stroke_weight: c.stroke_weight,
        stroke_type: c.stroke_type,
        stroke_alignment: tag.text("StrokeAlignment"@),
        end_join: tag.text("EndJoin"@),
        miter_limit: tag.num("MiterLimit"@),
        stroke_gap_color: c.stroke_gap_color,
        stroke_gap_tint: c.stroke_gap_tint,
        stroke_dash: c.stroke_dash,
        applied_object_style: c.applied_object_style,
        text_wrap: None,
        anchors: Seq::empty(),
        subpath_starts: Seq::empty(),
        subpath_open: Seq::empty(),
        item_layer: c.item_layer,
        gradient_fill_angle: c.gradient_fill_angle,
        gradient_fill_length: c.gradient_fill_length,
        gradient_stroke_angle: c.gradient_stroke_angle,
        gradient_stroke_length: c.gradient_stroke_length,
        opacity: None,
        blend_mode: None,
        text_paths: Seq::empty(),
        image_link: None,
        image_bytes: None,
        image_clip: None,
        has_image_element: false,
        has_inline_pdf: false,
        image_item_transform: None,
        effects: None,
        overprint_fill: c.overprint_fill,
        overprint_stroke: c.overprint_stroke,
        nonprinting: c.nonprinting,
        visible: c.visible,
        locked: c.locked,
    }
}

/// Reads it from a tag.
pub fn read_polygon(tag: &Tag, groups: &Vec<Option<Matrix>>) -> (r: Polygon)
    ensures
        r.deep_view() == polygon_of(tag@, groups@),
{
    let c: CommonAttrs = read_common_attrs(tag);
    Polygon {
        self_id: c.self_id,
        bounds: tag.bounds("GeometricBounds").unwrap_or(Bounds::zero()),
        item_transform: effective_item_transform(groups, c.item_transform),
        fill_color: c.fill_color,
        fill_tint: c.fill_tint,
        stroke_color: c.stroke_color,
        stroke_weight: c.stroke_weight,
        stroke_type: c.stroke_type,
        stroke_alignment: tag.text("StrokeAlignment"),
        end_join: tag.text("EndJoin"),
        miter_limit: tag.num("MiterLimit"),
        stroke_gap_color: c.stroke_gap_color,
        stroke_gap_tint: c.stroke_gap_tint,
        stroke_dash: c.stroke_dash,
        applied_object_style: c.applied_object_style,
        text_wrap: None,
        anchors: Vec::new(),
        subpath_starts: Vec::new(),
        subpath_open: Vec::new(),
        item_layer: c.item_layer,
        gradient_fill_angle: c.gradient_fill_angle,
        gradient_fill_length: c.gradient_fill_length,
        gradient_stroke_angle: c.gradient_stroke_angle,
        gradient_stroke_length: c.gradient_stroke_length,
        opacity: None,
        blend_mode: None,
        text_paths: Vec::new(),
        image_link: None,
        image_bytes: None,
        image_clip: None,
        has_image_element: false,
        has_inline_pdf: false,
        image_item_transform: None,
        effects: None,
        overprint_fill: c.overprint_fill,
        overprint_stroke: c.overprint_stroke,
        nonprinting: c.nonprinting,
        visible: c.visible,
        locked: c.locked,
    }
}

/// The mode of a `DropShadowSetting` tag: `Drop` where none is stated.
pub open spec fn shadow_mode_of(tag: TagView) -> Seq<char> {
    tag.text("Mode"@).unwrap_or("Drop"@)
}

fn read_shadow_mode(tag: &Tag) -> (r: String)
    ensures
        r@ == shadow_mode_of(tag@),
{
    match tag.text("Mode") {
        None => "Drop".to_string(),
        Some(s) => s,
    }
}

/// The shadow that a `DropShadowSetting` tag states: seven points to the right
/// and down, five points soft and three quarters dense, as far as it states
/// nothing else.
pub open spec fn drop_shadow_of(tag: TagView) -> DropShadowSettingView {
    DropShadowSettingView {
        mode: shadow_mode_of(tag),
        x_offset: tag.num("XOffset"@).unwrap_or(Num { bits: 0x40e0_0000 }),
        y_offset: tag.num("YOffset"@).unwrap_or(Num { bits: 0x40e0_0000 }),
        size: tag.num("Size"@).unwrap_or(Num { bits: 0x40a0_0000 }),
        opacity_pct: tag.num("Opacity"@).unwrap_or(Num { bits: 0x4296_0000 }),
        effect_color: tag.text("EffectColor"@),
    }
}

/// Reads it from a tag.
pub fn read_drop_shadow(tag: &Tag) -> (r: DropShadowSetting)
    ensures
        r.deep_view() == drop_shadow_of(tag@),
{
    DropShadowSetting {
        mode: read_shadow_mode(tag),
        x_offset: tag.num("XOffset").unwrap_or(Num { bits: 0x40e0_0000 }),
        y_offset: tag.num("YOffset").unwrap_or(Num { bits: 0x40e0_0000 }),
        size: tag.num("Size").unwrap_or(Num { bits: 0x40a0_0000 }),
        opacity_pct: tag.num("Opacity").unwrap_or(Num { bits: 0x4296_0000 }),
        effect_color: tag.text("EffectColor"),
    }
}

/// What a `InnerShadowSetting` tag states.
pub open spec fn inner_shadow_of(tag: TagView) -> InnerShadowParamsView {
    InnerShadowParamsView {
        x_offset: tag.finite("XOffset"@),
        y_offset: tag.finite("YOffset"@),
        size: tag.finite("Size"@),
        opacity_pct: tag.finite("Opacity"@),
        effect_color: tag.text("EffectColor"@),
        angle_deg: tag.finite("Angle"@),
        distance: tag.finite("Distance"@),
        choke_pct: tag.finite("ChokeAmount"@),
        blend_mode: tag.text("BlendMode"@),
        noise_pct: tag.finite("Noise"@),
    }
}

/// Reads it from a tag.
pub fn read_inner_shadow(tag: &Tag) -> (r: InnerShadowParams)
    ensures
        r.deep_view() == inner_shadow_of(tag@),
{
    InnerShadowParams {
        x_offset: tag.finite("XOffset"),
        y_offset: tag.finite("YOffset"),
        size: tag.finite("Size"),
        opacity_pct: tag.finite("Opacity"),
        effect_color: tag.text("EffectColor"),
        angle_deg: tag.finite("Angle"),
        distance: tag.finite("Distance"),
        choke_pct: tag.finite("ChokeAmount"),
        blend_mode: tag.text("BlendMode"),
        noise_pct: tag.finite("Noise"),
    }
}

/// What a `OuterGlowSetting` tag states.
pub open spec fn outer_glow_of(tag: TagView) -> OuterGlowParamsView {
    OuterGlowParamsView {
        size: tag.finite("Size"@),
        opacity_pct: tag.finite("Opacity"@),
        effect_color: tag.text("EffectColor"@),
        spread_pct: tag.finite("Spread"@),
        blend_mode: tag.text("BlendMode"@),
        noise_pct: tag.finite("Noise"@),
    }
}

/// Reads it from a tag.
pub fn read_outer_glow(tag: &Tag) -> (r: OuterGlowParams)
    ensures
        r.deep_view() == outer_glow_of(tag@),
{
    OuterGlowParams {
        size: tag.finite("Size"),
        opacity_pct: tag.finite("Opacity"),
        effect_color: tag.text("EffectColor"),
        spread_pct: tag.finite("Spread"),
        blend_mode: tag.text("BlendMode"),
        noise_pct: tag.finite("Noise"),
    }
}

/// What a `InnerGlowSetting` tag states.
pub open spec fn inner_glow_of(tag: TagView) -> InnerGlowParamsView {
    InnerGlowParamsView {
        size: tag.finite("Size"@),
        opacity_pct: tag.finite("Opacity"@),
        effect_color: tag.text("EffectColor"@),
        choke_pct: tag.finite("ChokeAmount"@),
        blend_mode: tag.text("BlendMode"@),
        source: tag.text("Source"@),
        noise_pct: tag.finite("Noise"@),
    }
}

/// Reads it from a tag.
pub fn read_inner_glow(tag: &Tag) -> (r: InnerGlowParams)
    ensures
        r.deep_view() == inner_glow_of(tag@),
{
    InnerGlowParams {
        size: tag.finite("Size"),
        opacity_pct: tag.finite("Opacity"),
        effect_color: tag.text("EffectColor"),
        choke_pct: tag.finite("ChokeAmount"),
        blend_mode: tag.text("BlendMode"),
        source: tag.text("Source"),
        noise_pct: tag.finite("Noise"),
    }
}

/// What a `BevelAndEmbossSetting` tag states.
pub open spec fn bevel_of(tag: TagView) -> BevelEmbossParamsView {
    BevelEmbossParamsView {
        depth_pct: tag.finite("Depth"@),
        size: tag.finite("Size"@),
        angle_deg: tag.finite("Angle"@),
        altitude_deg: tag.finite("Altitude"@),
        highlight_color: tag.text("HighlightColor"@),
        shadow_color: tag.text("ShadowColor"@),
        highlight_opacity_pct: tag.finite("HighlightOpacity"@),
        shadow_opacity_pct: tag.finite("ShadowOpacity"@),
        style: tag.text("Style"@),
        direction: tag.text("Direction"@),
        technique: tag.text("Technique"@),
        soften: tag.finite("Soften"@),
    }
}

/// Reads it from a tag.
pub fn read_bevel(tag: &Tag) -> (r: BevelEmbossParams)
    ensures
        r.deep_view() == bevel_of(tag@),
{
    BevelEmbossParams {
        depth_pct: tag.finite("Depth"),
        size: tag.finite("Size"),
        angle_deg: tag.finite("Angle"),
        altitude_deg: tag.finite("Altitude"),
        highlight_color: tag.text("HighlightColor"),
        shadow_color: tag.text("ShadowColor"),
        highlight_opacity_pct: tag.finite("HighlightOpacity"),
        shadow_opacity_pct: tag.finite("ShadowOpacity"),
        style: tag.text("Style"),
        direction: tag.text("Direction"),
        technique: tag.text("Technique"),
        soften: tag.finite("Soften"),
    }
}

/// What a `SatinSetting` tag states.
pub open spec fn satin_of(tag: TagView) -> SatinParamsView {
    SatinParamsView {
        size: tag.finite("Size"@),
        angle_deg: tag.finite("Angle"@),
        distance: tag.finite("Distance"@),
        effect_color: tag.text("EffectColor"@),
        opacity_pct: tag.finite("Opacity"@),
        blend_mode: tag.text("BlendMode"@),
        invert: tag.flag("Invert"@),
    }
}

/// Reads it from a tag.
pub fn read_satin(tag: &Tag) -> (r: SatinParams)
    ensures
        r.deep_view() == satin_of(tag@),
{
    SatinParams {
        size: tag.finite("Size"),
        angle_deg: tag.finite("Angle"),
        distance: tag.finite("Distance"),
        effect_color: tag.text("EffectColor"),
        opacity_pct: tag.finite("Opacity"),
        blend_mode: tag.text("BlendMode"),
        invert: tag.flag("Invert"),
    }
}

/// What a `FeatherSetting` tag states.
pub open spec fn feather_of(tag: TagView) -> FeatherParamsView {
    FeatherParamsView {
        width: tag.finite("Width"@),
        corner_type: tag.text("CornerType"@),
        noise_pct: tag.finite("Noise"@),
        choke_pct: tag.finite("ChokeAmount"@),
    }
}

/// Reads it from a tag.
pub fn read_feather(tag: &Tag) -> (r: FeatherParams)
    ensures
        r.deep_view() == feather_of(tag@),
{
    FeatherParams {
        width: tag.finite("Width"),
        corner_type: tag.text("CornerType"),
        noise_pct: tag.finite("Noise"),
        choke_pct: tag.finite("ChokeAmount"),
    }
}

/// What a `DirectionalFeatherSetting` tag states.
pub open spec fn directional_feather_of(tag: TagView) -> DirectionalFeatherParamsView {
    DirectionalFeatherParamsView {
        left_width: tag.finite("LeftWidth"@),
        right_width: tag.finite("RightWidth"@),
        top_width: tag.finite("TopWidth"@),
        bottom_width: tag.finite("BottomWidth"@),
        angle_deg: tag.finite("Angle"@),
        noise_pct: tag.finite("NoiseAmount"@),
        choke_pct: tag.finite("ChokeAmount"@),
        corner_type: tag.text("CornerType"@),
    }
}

/// Reads it from a tag.
pub fn read_directional_feather(tag: &Tag) -> (r: DirectionalFeatherParams)
    ensures
        r.deep_view() == directional_feather_of(tag@),
{
    DirectionalFeatherParams {
        left_width: tag.finite("LeftWidth"),
        right_width: tag.finite("RightWidth"),
        top_width: tag.finite("TopWidth"),
        bottom_width: tag.finite("BottomWidth"),
        angle_deg: tag.finite("Angle"),
        noise_pct: tag.finite("NoiseAmount"),
        choke_pct: tag.finite("ChokeAmount"),
        corner_type: tag.text("CornerType"),
    }
}

/// The angle of a gradient feather.
pub open spec fn feather_angle_of(tag: TagView) -> Option<Num> {
    either(tag.finite("GradientAngle"@), tag.finite("Angle"@))
}

fn read_feather_angle(tag: &Tag) -> (r: Option<Num>)
    ensures
        r == feather_angle_of(tag@),
{
    first_of(tag.finite("GradientAngle"), tag.finite("Angle"))
}

/// Where the axis of a gradient feather ends: as the tag states it, or `Length`
/// to the right of the start where no angle turns the axis. A turned axis is
/// left to be projected.
pub open spec fn feather_end_of(tag: TagView) -> Option<Point> {
    let angle = feather_angle_of(tag).unwrap_or(zero());
    match tag.point("GradientEnd"@) {
        Some(p) => Some(p),
        None => match (tag.point("GradientStart"@), tag.finite("Length"@)) {
            (Some(start), Some(length)) => if size_bits(angle) == 0 {
                Some((sum(start.0, length), difference(start.1, product(length, angle))))
            } else {
                None
            },
            _ => None,
        },
    }
}

fn read_feather_end(tag: &Tag) -> (r: Option<Point>)
    ensures
        r == feather_end_of(tag@),
{
    let angle: Num = read_feather_angle(tag).unwrap_or(Num::zero());
    match tag.point("GradientEnd") {
        Some(p) => Some(p),
        None => match (tag.point("GradientStart"), tag.finite("Length")) {
            (Some(start), Some(length)) => if angle.size_bits() == 0 {
                Some((start.0.plus(length), start.1.minus(length.times(angle))))
            } else {
                None
            },
            _ => None,
        },
    }
}

/// Where an axis ends, given where it starts, its length, and the sine and the
/// cosine of its angle. Angles turn against the clock, and `y` grows downward.
pub open spec fn turned_end(start: Point, length: Num, sin: Num, cos: Num) -> Point {
    (sum(start.0, product(length, cos)), difference(start.1, product(length, sin)))
}

/// The end of a feather's axis, given the sine and the cosine of its angle: as it
/// is, where it is known.
pub open spec fn projected_end(feather: GradientFeatherParamsView, sin: Num, cos: Num) -> Option<
    Point,
> {
    match (feather.end_point, feather.start_point, feather.length) {
        (None, Some(start), Some(length)) => Some(turned_end(start, length, sin, cos)),
        (end, _, _) => end,
    }
}

impl GradientFeatherParams {
    /// Projects the end of a turned axis, given the sine and the cosine of its angle.
    pub fn project_end(&mut self, sin: Num, cos: Num)
        ensures
            final(self).deep_view() == (GradientFeatherParamsView {
                end_point: projected_end(old(self).deep_view(), sin, cos),
                ..old(self).deep_view()
            }),
    {
        if self.end_point.is_none() {
            if let Some(start) = self.start_point {
                if let Some(length) = self.length {
                    self.end_point = Some(
                        (start.0.plus(length.times(cos)), start.1.minus(length.times(sin))),
                    );
                }
            }
        }
    }
}

/// What a `GradientFeatherSetting` tag states, its stops still missing.
pub open spec fn gradient_feather_of(tag: TagView) -> GradientFeatherParamsView {
    GradientFeatherParamsView {
        gradient_type: tag.text("Type"@),
        start_point: tag.point("GradientStart"@),
        end_point: feather_end_of(tag),
        length: tag.finite("Length"@),
        angle_deg: feather_angle_of(tag),
        stops: Seq::empty(),
    }
}

/// Reads it from a tag.
pub fn read_gradient_feather(tag: &Tag) -> (r: GradientFeatherParams)
    ensures
        r.deep_view() == gradient_feather_of(tag@),
{
    GradientFeatherParams {
        gradient_type: tag.text("Type"),
        start_point: tag.point("GradientStart"),
        end_point: read_feather_end(tag),
        length: tag.finite("Length"),
        angle_deg: read_feather_angle(tag),
        stops: Vec::new(),
    }
}

/// The stop that a `GradientStop` or an `OpacityGradientStop` tag states:
/// opaque and halfway, as far as it states nothing else.
pub open spec fn feather_stop_of(tag: TagView) -> GradientFeatherStopView {
    GradientFeatherStopView {
        stop_color: tag.text("StopColor"@),
        location_pct: tag.finite("Location"@).unwrap_or(zero()),
        alpha_pct: either(tag.finite("Opacity"@), tag.finite("Alpha"@)).unwrap_or(hundred()),
        midpoint_pct: either(
            tag.finite("GradientStopMidpoint"@),
            tag.finite("Midpoint"@),
        ).unwrap_or(Num { bits: 0x4248_0000 }),
    }
}

/// Reads it from a tag.
pub fn read_feather_stop(tag: &Tag) -> (r: GradientFeatherStop)
    ensures
        r.deep_view() == feather_stop_of(tag@),
{
    GradientFeatherStop {
        stop_color: tag.text("StopColor"),
        location_pct: tag.finite("Location").unwrap_or(Num::zero()),
        alpha_pct: first_of(
            tag.finite("Opacity"),
            tag.finite("Alpha"),
        ).unwrap_or(Num { bits: 0x42c8_0000 }),
        midpoint_pct: first_of(
            tag.finite("GradientStopMidpoint"),
            tag.finite("Midpoint"),
        ).unwrap_or(Num { bits: 0x4248_0000 }),
    }
}

/// No effects.
pub open spec fn no_effects() -> FrameEffectsView {
    FrameEffectsView {
        inner_shadow: None,
        outer_glow: None,
        inner_glow: None,
        bevel: None,
        satin: None,
        feather: None,
        directional_feather: None,
        gradient_feather: None,
    }
}

impl Default for FrameEffects {
    fn default() -> (r: FrameEffects)
        ensures
            r.deep_view() == no_effects(),
    {
        FrameEffects {
            inner_shadow: None,
            outer_glow: None,
            inner_glow: None,
            bevel: None,
            satin: None,
            feather: None,
            directional_feather: None,
            gradient_feather: None,
        }
    }
}

/// Whether the tag is that of an effect.
pub open spec fn is_effect(tag: TagView) -> bool {
    ||| tag.is("InnerShadowSetting"@)
    ||| tag.is("OuterGlowSetting"@)
    ||| tag.is("InnerGlowSetting"@)
    ||| tag.is("BevelAndEmbossSetting"@)
    ||| tag.is("SatinSetting"@)
    ||| tag.is("FeatherSetting"@)
    ||| tag.is("DirectionalFeatherSetting"@)
    ||| tag.is("GradientFeatherSetting"@)
}

/// Tests whether the tag is that of an effect.
pub fn test_effect(tag: &Tag) -> (r: bool)
    ensures
        r == is_effect(tag@),
{
    tag.is("InnerShadowSetting")
        || tag.is("OuterGlowSetting")
        || tag.is("InnerGlowSetting")
        || tag.is("BevelAndEmbossSetting")
        || tag.is("SatinSetting")
        || tag.is("FeatherSetting")
        || tag.is("DirectionalFeatherSetting")
        || tag.is("GradientFeatherSetting")
}

/// `bag` with the effect that a tag states put in.
pub open spec fn with_effect(bag: FrameEffectsView, tag: TagView) -> FrameEffectsView {
    if tag.is("InnerShadowSetting"@) {
        FrameEffectsView { inner_shadow: Some(inner_shadow_of(tag)), ..bag }
    } else if tag.is("OuterGlowSetting"@) {
        FrameEffectsView { outer_glow: Some(outer_glow_of(tag)), ..bag }
    } else if tag.is("InnerGlowSetting"@) {
        FrameEffectsView { inner_glow: Some(inner_glow_of(tag)), ..bag }
    } else if tag.is("BevelAndEmbossSetting"@) {
        FrameEffectsView { bevel: Some(bevel_of(tag)), ..bag }
    } else if tag.is("SatinSetting"@) {
        FrameEffectsView { satin: Some(satin_of(tag)), ..bag }
    } else if tag.is("FeatherSetting"@) {
        FrameEffectsView { feather: Some(feather_of(tag)), ..bag }
    } else if tag.is("DirectionalFeatherSetting"@) {
        FrameEffectsView { directional_feather: Some(directional_feather_of(tag)), ..bag }
    } else if tag.is("GradientFeatherSetting"@) {
        FrameEffectsView { gradient_feather: Some(gradient_feather_of(tag)), ..bag }
    } else {
        bag
    }
}

/// Puts the effect that a tag states in.
pub fn put_effect(bag: &mut FrameEffects, tag: &Tag)
    ensures
        final(bag).deep_view() == with_effect(old(bag).deep_view(), tag@),
{
    if tag.is("InnerShadowSetting") {
        bag.inner_shadow = Some(read_inner_shadow(tag));
    } else if tag.is("OuterGlowSetting") {
        bag.outer_glow = Some(read_outer_glow(tag));
    } else if tag.is("InnerGlowSetting") {
        bag.inner_glow = Some(read_inner_glow(tag));
    } else if tag.is("BevelAndEmbossSetting") {
        bag.bevel = Some(read_bevel(tag));
    } else if tag.is("SatinSetting") {
        bag.satin = Some(read_satin(tag));
    } else if tag.is("FeatherSetting") {
        bag.feather = Some(read_feather(tag));
    } else if tag.is("DirectionalFeatherSetting") {
        bag.directional_feather = Some(read_directional_feather(tag));
    } else if tag.is("GradientFeatherSetting") {
        bag.gradient_feather = Some(read_gradient_feather(tag));
    }
}

/// The page that a `Page` tag states, where it has a box.
pub open spec fn page_of(tag: TagView) -> Option<PageView> {
    match tag.bounds("GeometricBounds"@) {
        None => None,
        Some(bounds) => Some(PageView {
            self_id: tag.text("Self"@),
            bounds: bounds,
            applied_master: tag.text("AppliedMaster"@),
            item_transform: tag.matrix("ItemTransform"@),
            master_page_transform: tag.matrix("MasterPageTransform"@),
            override_list: tag.list("OverrideList"@),
            name: tag.text("Name"@),
            show_master_items: tag.flag("ShowMasterItems"@),
        }),
    }
}

/// Reads it from a tag.
pub fn read_page(tag: &Tag) -> (r: Option<Page>)
    ensures
        r.deep_view() == page_of(tag@),
{
    match tag.bounds("GeometricBounds") {
        None => None,
        Some(bounds) => Some(Page {
            self_id: tag.text("Self"),
            bounds: bounds,
            applied_master: tag.text("AppliedMaster"),
            item_transform: tag.matrix("ItemTransform"),
            master_page_transform: tag.matrix("MasterPageTransform"),
            override_list: tag.list("OverrideList"),
            name: tag.text("Name"),
            show_master_items: tag.flag("ShowMasterItems"),
        }),
    }
}

/// The margins that a `MarginPreference` tag states: none, and one column, as
/// far as it states nothing else.
pub open spec fn margins_of(tag: TagView) -> MarginPreference {
    MarginPreference {
        top: tag.num("Top"@).unwrap_or(zero()),
        bottom: tag.num("Bottom"@).unwrap_or(zero()),
        left: tag.num("Left"@).unwrap_or(zero()),
        right: tag.num("Right"@).unwrap_or(zero()),
        column_count: tag.count("ColumnCount"@).unwrap_or(1),
        column_gutter: tag.num("ColumnGutter"@).unwrap_or(zero()),
    }
}

/// Reads it from a tag.
pub fn read_margins(tag: &Tag) -> (r: MarginPreference)
    ensures
        r.deep_view() == margins_of(tag@),
{
    MarginPreference {
        top: tag.num("Top").unwrap_or(Num::zero()),
        bottom: tag.num("Bottom").unwrap_or(Num::zero()),
        left: tag.num("Left").unwrap_or(Num::zero()),
        right: tag.num("Right").unwrap_or(Num::zero()),
        column_count: tag.count("ColumnCount").unwrap_or(1),
        column_gutter: tag.num("ColumnGutter").unwrap_or(Num::zero()),
    }
}

/// The orientation of a `Guide` tag.
pub open spec fn orientation_of(tag: TagView) -> Option<GuideOrientation> {
    match tag.text("Orientation"@) {
        None => None,
        Some(s) => GuideOrientation::named(s),
    }
}

fn read_orientation(tag: &Tag) -> (r: Option<GuideOrientation>)
    ensures
        r == orientation_of(tag@),
{
    match tag.text("Orientation") {
        None => None,
        Some(s) => GuideOrientation::from_idml(s.as_str()),
    }
}

/// The guide that a `Guide` tag states, where it says which way and where it
/// runs.
pub open spec fn guide_of(tag: TagView) -> Option<RulerGuide> {
    match orientation_of(tag) {
        None => None,
        Some(orientation) => {
            match tag.num("Location"@) {
                None => None,
                Some(location) => Some(RulerGuide {
                    orientation: orientation,
                    location: location,
                    page_index: tag.count("PageIndex"@).unwrap_or(0),
                }),
            }
        },
    }
}

/// Reads it from a tag.
pub fn read_guide(tag: &Tag) -> (r: Option<RulerGuide>)
    ensures
        r.deep_view() == guide_of(tag@),
{
    match read_orientation(tag) {
        None => None,
        Some(orientation) => {
            match tag.num("Location") {
                None => None,
                Some(location) => Some(RulerGuide {
                    orientation: orientation,
                    location: location,
                    page_index: tag.count("PageIndex").unwrap_or(0),
                }),
            }
        },
    }
}

/// The clipping type of a tag.
pub open spec fn clipping_type_of(tag: TagView) -> Option<ClippingType> {
    match tag.text("ClippingType"@) {
        None => None,
        Some(s) => Some(ClippingType::named(s)),
    }
}

fn read_clipping_type(tag: &Tag) -> (r: Option<ClippingType>)
    ensures
        r == clipping_type_of(tag@),
{
    match tag.text("ClippingType") {
        None => None,
        Some(s) => Some(ClippingType::from_idml(s.as_str())),
    }
}

/// The name of the path that a tag applies; an empty one counts as none.
pub open spec fn path_name_of(tag: TagView) -> Option<Seq<char>> {
    match tag.text("AppliedPathName"@) {
        Some(s) if s != ""@ && s != "$ID/"@ => Some(s),
        _ => None,
    }
}

fn read_path_name(tag: &Tag) -> (r: Option<String>)
    ensures
        r.deep_view() == path_name_of(tag@),
{
    match tag.text("AppliedPathName") {
        None => None,
        Some(s) => if same_text(s.as_str(), "") || same_text(s.as_str(), "$ID/") {
            None
        } else {
            Some(s)
        },
    }
}

/// What a `ClippingPathSettings` tag states, its path still missing.
pub open spec fn clipping_of(tag: TagView) -> ClippingPathSettingsView {
    ClippingPathSettingsView {
        clipping_type: clipping_type_of(tag),
        invert_path: tag.flag("InvertPath"@).unwrap_or(false),
        include_inside_edges: tag.flag("IncludeInsideEdges"@).unwrap_or(false),
        applied_path_name: path_name_of(tag),
        threshold: tag.num("Threshold"@),
        tolerance: tag.num("Tolerance"@),
        clip_anchors: Seq::empty(),
        clip_subpath_starts: Seq::empty(),
        clip_subpath_open: Seq::empty(),
    }
}

/// Reads it from a tag.
pub fn read_clipping(tag: &Tag) -> (r: ClippingPathSettings)
    ensures
        r.deep_view() == clipping_of(tag@),
{
    ClippingPathSettings {
        clipping_type: read_clipping_type(tag),
        invert_path: tag.flag("InvertPath").unwrap_or(false),
        include_inside_edges: tag.flag("IncludeInsideEdges").unwrap_or(false),
        applied_path_name: read_path_name(tag),
        threshold: tag.num("Threshold"),
        tolerance: tag.num("Tolerance"),
        clip_anchors: Vec::new(),
        clip_subpath_starts: Vec::new(),
        clip_subpath_open: Vec::new(),
    }
}

/// What a `FrameFittingOption` tag states.
pub open spec fn fitting_of(tag: TagView) -> FrameFittingOptionView {
    FrameFittingOptionView {
        left_crop: tag.num("LeftCrop"@),
        top_crop: tag.num("TopCrop"@),
        right_crop: tag.num("RightCrop"@),
        bottom_crop: tag.num("BottomCrop"@),
        fitting_on_empty_frame: tag.text("FittingOnEmptyFrame"@),
        reference_point: tag.text("FittingAlignment"@),
        auto_fit: tag.flag("AutoFit"@),
    }
}

/// Reads it from a tag.
pub fn read_fitting(tag: &Tag) -> (r: FrameFittingOption)
    ensures
        r.deep_view() == fitting_of(tag@),
{
    FrameFittingOption {
        left_crop: tag.num("LeftCrop"),
        top_crop: tag.num("TopCrop"),
        right_crop: tag.num("RightCrop"),
        bottom_crop: tag.num("BottomCrop"),
        fitting_on_empty_frame: tag.text("FittingOnEmptyFrame"),
        reference_point: tag.text("FittingAlignment"),
        auto_fit: tag.flag("AutoFit"),
    }
}

/// The text path that a `TextPath` tag states.
pub open spec fn text_path_of(tag: TagView) -> Option<TextPathView> {
    match tag.text("ParentStory"@) {
        None => None,
        Some(parent_story) => Some(TextPathView {
            self_id: tag.text("Self"@),
            parent_story: parent_story,
            path_alignment: tag.text("PathAlignment"@),
            path_type_alignment: tag.text("PathTypeAlignment"@),
            path_effect: tag.text("PathEffect"@),
            flip_path_effect: tag.text("FlipPathEffect"@),
            start_bracket: tag.num("StartBracket"@),
            end_bracket: tag.num("EndBracket"@),
        }),
    }
}

/// Reads it from a tag.
pub fn read_text_path(tag: &Tag) -> (r: Option<TextPath>)
    ensures
        r.deep_view() == text_path_of(tag@),
{
    match tag.text("ParentStory") {
        None => None,
        Some(parent_story) => Some(TextPath {
            self_id: tag.text("Self"),
            parent_story: parent_story,
            path_alignment: tag.text("PathAlignment"),
            path_type_alignment: tag.text("PathTypeAlignment"),
            path_effect: tag.text("PathEffect"),
            flip_path_effect: tag.text("FlipPathEffect"),
            start_bracket: tag.num("StartBracket"),
            end_bracket: tag.num("EndBracket"),
        }),
    }
}

/// The path point that a `PathPointType` tag states; a direction that it leaves
/// out is the point itself.
pub open spec fn path_anchor_of(tag: TagView) -> Option<PathAnchor> {
    match tag.point("Anchor"@) {
        None => None,
        Some(anchor) => Some(
            PathAnchor {
                anchor,
                left: tag.point("LeftDirection"@).unwrap_or(anchor),
                right: tag.point("RightDirection"@).unwrap_or(anchor),
            },
        ),
    }
}

/// Reads it from a tag.
pub fn read_path_anchor(tag: &Tag) -> (r: Option<PathAnchor>)
    ensures
        r == path_anchor_of(tag@),
{
    match tag.point("Anchor") {
        None => None,
        Some(anchor) => Some(
            PathAnchor {
                anchor,
                left: tag.point("LeftDirection").unwrap_or(anchor),
                right: tag.point("RightDirection").unwrap_or(anchor),
            },
        ),
    }
}

/// Whether `c` may stand round a pair of resolutions.
pub open spec fn is_wrapping(c: char) -> bool {
    c == '(' || c == ')' || c == ' '
}

/// `s` without the brackets and blanks at its start.
pub open spec fn unwrapped_start(s: Seq<char>) -> Seq<char>
    decreases s.len(),
{
    if s.len() > 0 && is_wrapping(s[0]) {
        unwrapped_start(s.skip(1))
    } else {
        s
    }
}

/// `s` without the brackets and blanks at its end.
pub open spec fn unwrapped_end(s: Seq<char>) -> Seq<char>
    decreases s.len(),
{
    if s.len() > 0 && is_wrapping(s.last()) {
        unwrapped_end(s.drop_last())
    } else {
        s
    }
}

fn test_wrapping(c: char) -> (r: bool)
    ensures
        r == is_wrapping(c),
{
    c == '(' || c == ')' || c == ' '
}

fn unwrap_pair(s: &str) -> (r: String)
    ensures
        r@ == unwrapped_end(unwrapped_start(s@)),
{
    let chars: Vec<char> = chars_of(s);
    let ghost t = chars@;
    let mut from: usize = 0;
    assert(t.skip(0) =~= t);
    while from < chars.len() && test_wrapping(chars[from])
        invariant
            from <= t.len(),
            t == chars@,
            unwrapped_start(t) == unwrapped_start(t.skip(from as int)),
        decreases t.len() - from,
    {
        assert(t.skip(from as int)[0] == t[from as int]);
        assert(t.skip(from as int).skip(1) =~= t.skip(from + 1));
        from = from + 1;
    }
    let ghost u = t.skip(from as int);
    assert(from < t.len() ==> u[0] == t[from as int]);
    assert(unwrapped_start(t) == u);
    let mut to: usize = chars.len();
    assert(t.subrange(from as int, to as int) =~= u);
    while to > from && test_wrapping(chars[to - 1])
        invariant
            from <= to <= t.len(),
            t == chars@,
            unwrapped_end(u) == unwrapped_end(t.subrange(from as int, to as int)),
        decreases to,
    {
        let ghost v = t.subrange(from as int, to as int);
        assert(v.last() == t[to - 1]);
        assert(v.drop_last() =~= t.subrange(from as int, to - 1));
        to = to - 1;
    }
    proof {
        let v = t.subrange(from as int, to as int);
        if to > from {
            assert(v.last() == t[to - 1]);
        }
        assert(unwrapped_end(v) == v);
    }
    text_between(&chars, from, to)
}

/// The horizontal resolution that `s` writes, alone or as the first of a pair
/// in brackets; only a positive number counts.
pub open spec fn written_ppi(s: Seq<char>) -> Option<Num> {
    let w = words(unwrapped_end(unwrapped_start(s)), false);
    if w.len() == 0 {
        None
    } else {
        match written_number(w[0]) {
            Some(n) if is_finite(n) && less(zero(), n) => Some(n),
            _ => None,
        }
    }
}

/// Reads the horizontal resolution.
pub fn parse_ppi_x(s: &str) -> (r: Option<Num>)
    ensures
        r == written_ppi(s@),
{
    let core: String = unwrap_pair(s);
    let w: Vec<String> = split_words(core.as_str(), false);
    assert(w.deep_view().len() == w@.len());
    if w.len() == 0 {
        return None;
    }
    assert(w.deep_view()[0] == w@[0]@);
    match parse_number(w[0].as_str()) {
        None => None,
        Some(n) => if n.is_finite() && Num::zero().less(n) {
            Some(n)
        } else {
            None
        },
    }
}

/// The attribute `key` read as a resolution.
pub open spec fn ppi_of(tag: TagView, key: Seq<char>) -> Option<Num> {
    match tag.text(key) {
        None => None,
        Some(s) => written_ppi(s),
    }
}

fn read_ppi(tag: &Tag, key: &str) -> (r: Option<Num>)
    ensures
        r == ppi_of(tag@, key@),
{
    match tag.text(key) {
        None => None,
        Some(s) => parse_ppi_x(s.as_str()),
    }
}

/// `s` without the mark of an internal name in front.
pub open spec fn without_id_mark(s: Seq<char>) -> Seq<char> {
    if starts_with(s, "$ID/"@) {
        s.skip("$ID/"@.len() as int)
    } else {
        s
    }
}

fn strip_id_mark(s: String) -> (r: String)
    ensures
        r@ == without_id_mark(s@),
{
    let chars: Vec<char> = chars_of(s.as_str());
    let mark: Vec<char> = chars_of("$ID/");
    if chars.len() < mark.len() {
        return s;
    }
    let mut i: usize = 0;
    while i < mark.len()
        invariant
            i <= mark@.len(),
            mark@ == "$ID/"@,
            chars@ == s@,
            mark@.len() <= chars@.len(),
            forall|j: int| 0 <= j < i ==> chars@[j] == mark@[j],
        decreases mark@.len() - i,
    {
        if chars[i] != mark[i] {
            assert(chars@.take(mark@.len() as int)[i as int] != mark@[i as int]);
            return s;
        }
        i = i + 1;
    }
    assert(chars@.take(mark@.len() as int) =~= mark@);
    assert(chars@.subrange(mark@.len() as int, chars@.len() as int) =~= chars@.skip(
        mark@.len() as int,
    ));
    text_between(&chars, mark.len(), chars.len())
}

/// What an `Image` tag states about its source, where it states anything.
pub open spec fn image_metadata_of(tag: TagView) -> Option<ImageMetadataView> {
    let meta = ImageMetadataView {
        space: match tag.text("Space"@) {
            None => None,
            Some(s) => Some(without_id_mark(s)),
        },
        actual_ppi: ppi_of(tag, "ActualPpi"@),
        effective_ppi: ppi_of(tag, "EffectivePpi"@),
    };
    if meta.space is None && meta.actual_ppi is None && meta.effective_ppi is None {
        None
    } else {
        Some(meta)
    }
}

/// Reads it from a tag.
pub fn read_image_metadata(tag: &Tag) -> (r: Option<ImageMetadata>)
    ensures
        r.deep_view() == image_metadata_of(tag@),
{
    let space: Option<String> = match tag.text("Space") {
        None => None,
        Some(s) => Some(strip_id_mark(s)),
    };
    let actual_ppi: Option<Num> = read_ppi(tag, "ActualPpi");
    let effective_ppi: Option<Num> = read_ppi(tag, "EffectivePpi");
    if space.is_none() && actual_ppi.is_none() && effective_ppi.is_none() {
        None
    } else {
        Some(ImageMetadata { space, actual_ppi, effective_ppi })
    }
}

} // verus!
