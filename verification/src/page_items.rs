//! The items that stand on the pages of a spread.
use crate::geometry::{Bounds, Insets, Matrix, PathAnchor, Point};
use crate::idmap::IdMap;
use crate::number::Num;
use crate::vocabulary::{
    ArrowheadType, AutoSizingReferencePoint, AutoSizingType, ClippingType, ContourOptionType,
    CornerOption, FirstBaselineOffset, GuideOrientation, TextWrapMode, VerticalJustification,
};
use vstd::prelude::*;

verus! {

/// What one corner of a rectangle states for itself.
#[derive(Clone, Copy, Debug, PartialEq, Eq)]
pub struct CornerSpec {
    pub option: Option<CornerOption>,
    pub radius: Option<Num>,
}

impl DeepView for CornerSpec {
    type V = CornerSpec;

    open spec fn deep_view(&self) -> CornerSpec {
        *self
    }
}

/// The four corners of a rectangle.
#[derive(Clone, Copy, Debug, PartialEq, Eq)]
pub struct Corners {
    pub top_left: CornerSpec,
    pub top_right: CornerSpec,
    pub bottom_right: CornerSpec,
    pub bottom_left: CornerSpec,
}

impl DeepView for Corners {
    type V = Corners;

    open spec fn deep_view(&self) -> Corners {
        *self
    }
}

/// How text runs round an item.
#[derive(Clone, Copy, Debug, PartialEq, Eq)]
pub struct TextWrap {
    pub mode: TextWrapMode,
    pub offsets: Insets,
    pub invert: Option<bool>,
    pub contour_type: Option<ContourOptionType>,
    pub include_inside_edges: Option<bool>,
}

impl DeepView for TextWrap {
    type V = TextWrap;

    open spec fn deep_view(&self) -> TextWrap {
        *self
    }
}

/// A drop shadow.
#[derive(Debug, PartialEq)]
pub struct DropShadowSetting {
    pub mode: String,
    pub x_offset: Num,
    pub y_offset: Num,
    pub size: Num,
    pub opacity_pct: Num,
    pub effect_color: Option<String>,
}

/// What a [`DropShadowSetting`] holds.
#[verifier::ext_equal]
pub struct DropShadowSettingView {
    pub mode: Seq<char>,
    pub x_offset: Num,
    pub y_offset: Num,
    pub size: Num,
    pub opacity_pct: Num,
    pub effect_color: Option<Seq<char>>,
}

impl DeepView for DropShadowSetting {
    type V = DropShadowSettingView;

    open spec fn deep_view(&self) -> DropShadowSettingView {
        DropShadowSettingView {
            mode: self.mode@,
            x_offset: self.x_offset,
            y_offset: self.y_offset,
            size: self.size,
            opacity_pct: self.opacity_pct,
            effect_color: self.effect_color.deep_view(),
        }
    }
}

/// An inner shadow.
#[derive(Debug, PartialEq)]
pub struct InnerShadowParams {
    pub x_offset: Option<Num>,
    pub y_offset: Option<Num>,
    pub size: Option<Num>,
    pub opacity_pct: Option<Num>,
    pub effect_color: Option<String>,
    pub angle_deg: Option<Num>,
    pub distance: Option<Num>,
    pub choke_pct: Option<Num>,
    pub blend_mode: Option<String>,
    pub noise_pct: Option<Num>,
}

/// What a [`InnerShadowParams`] holds.
#[verifier::ext_equal]
pub struct InnerShadowParamsView {
    pub x_offset: Option<Num>,
    pub y_offset: Option<Num>,
    pub size: Option<Num>,
    pub opacity_pct: Option<Num>,
    pub effect_color: Option<Seq<char>>,
    pub angle_deg: Option<Num>,
    pub distance: Option<Num>,
    pub choke_pct: Option<Num>,
    pub blend_mode: Option<Seq<char>>,
    pub noise_pct: Option<Num>,
}

impl DeepView for InnerShadowParams {
    type V = InnerShadowParamsView;

    open spec fn deep_view(&self) -> InnerShadowParamsView {
        InnerShadowParamsView {
            x_offset: self.x_offset,
            y_offset: self.y_offset,
            size: self.size,
            opacity_pct: self.opacity_pct,
            effect_color: self.effect_color.deep_view(),
            angle_deg: self.angle_deg,
            distance: self.distance,
            choke_pct: self.choke_pct,
            blend_mode: self.blend_mode.deep_view(),
            noise_pct: self.noise_pct,
        }
    }
}

/// An outer glow.
#[derive(Debug, PartialEq)]
pub struct OuterGlowParams {
    pub size: Option<Num>,
    pub opacity_pct: Option<Num>,
    pub effect_color: Option<String>,
    pub spread_pct: Option<Num>,
    pub blend_mode: Option<String>,
    pub noise_pct: Option<Num>,
}

/// What a [`OuterGlowParams`] holds.
#[verifier::ext_equal]
pub struct OuterGlowParamsView {
    pub size: Option<Num>,
    pub opacity_pct: Option<Num>,
    pub effect_color: Option<Seq<char>>,
    pub spread_pct: Option<Num>,
    pub blend_mode: Option<Seq<char>>,
    pub noise_pct: Option<Num>,
}

impl DeepView for OuterGlowParams {
    type V = OuterGlowParamsView;

    open spec fn deep_view(&self) -> OuterGlowParamsView {
        OuterGlowParamsView {
            size: self.size,
            opacity_pct: self.opacity_pct,
            effect_color: self.effect_color.deep_view(),
            spread_pct: self.spread_pct,
            blend_mode: self.blend_mode.deep_view(),
            noise_pct: self.noise_pct,
        }
    }
}

/// An inner glow.
#[derive(Debug, PartialEq)]
pub struct InnerGlowParams {
    pub size: Option<Num>,
    pub opacity_pct: Option<Num>,
    pub effect_color: Option<String>,
    pub choke_pct: Option<Num>,
    pub blend_mode: Option<String>,
    pub source: Option<String>,
    pub noise_pct: Option<Num>,
}

/// What a [`InnerGlowParams`] holds.
#[verifier::ext_equal]
pub struct InnerGlowParamsView {
    pub size: Option<Num>,
    pub opacity_pct: Option<Num>,
    pub effect_color: Option<Seq<char>>,
    pub choke_pct: Option<Num>,
    pub blend_mode: Option<Seq<char>>,
    pub source: Option<Seq<char>>,
    pub noise_pct: Option<Num>,
}

impl DeepView for InnerGlowParams {
    type V = InnerGlowParamsView;

    open spec fn deep_view(&self) -> InnerGlowParamsView {
        InnerGlowParamsView {
            size: self.size,
            opacity_pct: self.opacity_pct,
            effect_color: self.effect_color.deep_view(),
            choke_pct: self.choke_pct,
            blend_mode: self.blend_mode.deep_view(),
            source: self.source.deep_view(),
            noise_pct: self.noise_pct,
        }
    }
}

/// A bevel or an embossing.
#[derive(Debug, PartialEq)]
pub struct BevelEmbossParams {
    pub depth_pct: Option<Num>,
    pub size: Option<Num>,
    pub angle_deg: Option<Num>,
    pub altitude_deg: Option<Num>,
    pub highlight_color: Option<String>,
    pub shadow_color: Option<String>,
    pub highlight_opacity_pct: Option<Num>,
    pub shadow_opacity_pct: Option<Num>,
    pub style: Option<String>,
    pub direction: Option<String>,
    pub technique: Option<String>,
    pub soften: Option<Num>,
}

/// What a [`BevelEmbossParams`] holds.
#[verifier::ext_equal]
pub struct BevelEmbossParamsView {
    pub depth_pct: Option<Num>,
    pub size: Option<Num>,
    pub angle_deg: Option<Num>,
    pub altitude_deg: Option<Num>,
    pub highlight_color: Option<Seq<char>>,
    pub shadow_color: Option<Seq<char>>,
    pub highlight_opacity_pct: Option<Num>,
    pub shadow_opacity_pct: Option<Num>,
    pub style: Option<Seq<char>>,
    pub direction: Option<Seq<char>>,
    pub technique: Option<Seq<char>>,
    pub soften: Option<Num>,
}

impl DeepView for BevelEmbossParams {
    type V = BevelEmbossParamsView;

    open spec fn deep_view(&self) -> BevelEmbossParamsView {
        BevelEmbossParamsView {
            depth_pct: self.depth_pct,
            size: self.size,
            angle_deg: self.angle_deg,
            altitude_deg: self.altitude_deg,
            highlight_color: self.highlight_color.deep_view(),
            shadow_color: self.shadow_color.deep_view(),
            highlight_opacity_pct: self.highlight_opacity_pct,
            shadow_opacity_pct: self.shadow_opacity_pct,
            style: self.style.deep_view(),
            direction: self.direction.deep_view(),
            technique: self.technique.deep_view(),
            soften: self.soften,
        }
    }
}

/// A satin.
#[derive(Debug, PartialEq)]
pub struct SatinParams {
    pub size: Option<Num>,
    pub angle_deg: Option<Num>,
    pub distance: Option<Num>,
    pub effect_color: Option<String>,
    pub opacity_pct: Option<Num>,
    pub blend_mode: Option<String>,
    pub invert: Option<bool>,
}

/// What a [`SatinParams`] holds.
#[verifier::ext_equal]
pub struct SatinParamsView {
    pub size: Option<Num>,
    pub angle_deg: Option<Num>,
    pub distance: Option<Num>,
    pub effect_color: Option<Seq<char>>,
    pub opacity_pct: Option<Num>,
    pub blend_mode: Option<Seq<char>>,
    pub invert: Option<bool>,
}

impl DeepView for SatinParams {
    type V = SatinParamsView;

    open spec fn deep_view(&self) -> SatinParamsView {
        SatinParamsView {
            size: self.size,
            angle_deg: self.angle_deg,
            distance: self.distance,
            effect_color: self.effect_color.deep_view(),
            opacity_pct: self.opacity_pct,
            blend_mode: self.blend_mode.deep_view(),
            invert: self.invert,
        }
    }
}

/// A feathered edge.
#[derive(Debug, PartialEq)]
pub struct FeatherParams {
    pub width: Option<Num>,
    pub corner_type: Option<String>,
    pub noise_pct: Option<Num>,
    pub choke_pct: Option<Num>,
}

/// What a [`FeatherParams`] holds.
#[verifier::ext_equal]
pub struct FeatherParamsView {
    pub width: Option<Num>,
    pub corner_type: Option<Seq<char>>,
    pub noise_pct: Option<Num>,
    pub choke_pct: Option<Num>,
}

impl DeepView for FeatherParams {
    type V = FeatherParamsView;

    open spec fn deep_view(&self) -> FeatherParamsView {
        FeatherParamsView {
            width: self.width,
            corner_type: self.corner_type.deep_view(),
            noise_pct: self.noise_pct,
            choke_pct: self.choke_pct,
        }
    }
}

/// An edge feathered by a width of its own on each side.
#[derive(Debug, PartialEq)]
pub struct DirectionalFeatherParams {
    pub left_width: Option<Num>,
    pub right_width: Option<Num>,
    pub top_width: Option<Num>,
    pub bottom_width: Option<Num>,
    pub angle_deg: Option<Num>,
    pub noise_pct: Option<Num>,
    pub choke_pct: Option<Num>,
    pub corner_type: Option<String>,
}

/// What a [`DirectionalFeatherParams`] holds.
#[verifier::ext_equal]
pub struct DirectionalFeatherParamsView {
    pub left_width: Option<Num>,
    pub right_width: Option<Num>,
    pub top_width: Option<Num>,
    pub bottom_width: Option<Num>,
    pub angle_deg: Option<Num>,
    pub noise_pct: Option<Num>,
    pub choke_pct: Option<Num>,
    pub corner_type: Option<Seq<char>>,
}

impl DeepView for DirectionalFeatherParams {
    type V = DirectionalFeatherParamsView;

    open spec fn deep_view(&self) -> DirectionalFeatherParamsView {
        DirectionalFeatherParamsView {
            left_width: self.left_width,
            right_width: self.right_width,
            top_width: self.top_width,
            bottom_width: self.bottom_width,
            angle_deg: self.angle_deg,
            noise_pct: self.noise_pct,
            choke_pct: self.choke_pct,
            corner_type: self.corner_type.deep_view(),
        }
    }
}

/// A stop of a gradient feather.
#[derive(Debug, PartialEq)]
pub struct GradientFeatherStop {
    pub stop_color: Option<String>,
    pub location_pct: Num,
    pub alpha_pct: Num,
    pub midpoint_pct: Num,
}

/// What a [`GradientFeatherStop`] holds.
#[verifier::ext_equal]
pub struct GradientFeatherStopView {
    pub stop_color: Option<Seq<char>>,
    pub location_pct: Num,
    pub alpha_pct: Num,
    pub midpoint_pct: Num,
}

impl DeepView for GradientFeatherStop {
    type V = GradientFeatherStopView;

    open spec fn deep_view(&self) -> GradientFeatherStopView {
        GradientFeatherStopView {
            stop_color: self.stop_color.deep_view(),
            location_pct: self.location_pct,
            alpha_pct: self.alpha_pct,
            midpoint_pct: self.midpoint_pct,
        }
    }
}

/// A feather along a gradient.
#[derive(Debug, PartialEq)]
pub struct GradientFeatherParams {
    pub gradient_type: Option<String>,
    pub start_point: Option<Point>,
    /// Where the axis ends, as far as no angle has to be projected.
    pub end_point: Option<Point>,
    /// How long the axis is.
    pub length: Option<Num>,
    pub angle_deg: Option<Num>,
    pub stops: Vec<GradientFeatherStop>,
}

/// What a [`GradientFeatherParams`] holds.
#[verifier::ext_equal]
pub struct GradientFeatherParamsView {
    pub gradient_type: Option<Seq<char>>,
    pub start_point: Option<Point>,
    pub end_point: Option<Point>,
    pub length: Option<Num>,
    pub angle_deg: Option<Num>,
    pub stops: Seq<GradientFeatherStopView>,
}

impl DeepView for GradientFeatherParams {
    type V = GradientFeatherParamsView;

    open spec fn deep_view(&self) -> GradientFeatherParamsView {
        GradientFeatherParamsView {
            gradient_type: self.gradient_type.deep_view(),
            start_point: self.start_point,
            end_point: self.end_point,
            length: self.length,
            angle_deg: self.angle_deg,
            stops: self.stops.deep_view(),
        }
    }
}

/// The effects that an item has.
#[derive(Debug, PartialEq)]
pub struct FrameEffects {
    pub inner_shadow: Option<InnerShadowParams>,
    pub outer_glow: Option<OuterGlowParams>,
    pub inner_glow: Option<InnerGlowParams>,
    pub bevel: Option<BevelEmbossParams>,
    pub satin: Option<SatinParams>,
    pub feather: Option<FeatherParams>,
    pub directional_feather: Option<DirectionalFeatherParams>,
    pub gradient_feather: Option<GradientFeatherParams>,
}

/// What a [`FrameEffects`] holds.
#[verifier::ext_equal]
pub struct FrameEffectsView {
    pub inner_shadow: Option<InnerShadowParamsView>,
    pub outer_glow: Option<OuterGlowParamsView>,
    pub inner_glow: Option<InnerGlowParamsView>,
    pub bevel: Option<BevelEmbossParamsView>,
    pub satin: Option<SatinParamsView>,
    pub feather: Option<FeatherParamsView>,
    pub directional_feather: Option<DirectionalFeatherParamsView>,
    pub gradient_feather: Option<GradientFeatherParamsView>,
}

impl DeepView for FrameEffects {
    type V = FrameEffectsView;

    open spec fn deep_view(&self) -> FrameEffectsView {
        FrameEffectsView {
            inner_shadow: self.inner_shadow.deep_view(),
            outer_glow: self.outer_glow.deep_view(),
            inner_glow: self.inner_glow.deep_view(),
            bevel: self.bevel.deep_view(),
            satin: self.satin.deep_view(),
            feather: self.feather.deep_view(),
            directional_feather: self.directional_feather.deep_view(),
            gradient_feather: self.gradient_feather.deep_view(),
        }
    }
}

/// The clipping path of a placed image.
#[derive(Debug, PartialEq)]
pub struct ClippingPathSettings {
    pub clipping_type: Option<ClippingType>,
    pub invert_path: bool,
    pub include_inside_edges: bool,
    pub applied_path_name: Option<String>,
    pub threshold: Option<Num>,
    pub tolerance: Option<Num>,
    pub clip_anchors: Vec<PathAnchor>,
    pub clip_subpath_starts: Vec<usize>,
    pub clip_subpath_open: Vec<bool>,
}

/// What a [`ClippingPathSettings`] holds.
#[verifier::ext_equal]
pub struct ClippingPathSettingsView {
    pub clipping_type: Option<ClippingType>,
    pub invert_path: bool,
    pub include_inside_edges: bool,
    pub applied_path_name: Option<Seq<char>>,
    pub threshold: Option<Num>,
    pub tolerance: Option<Num>,
    pub clip_anchors: Seq<PathAnchor>,
    pub clip_subpath_starts: Seq<usize>,
    pub clip_subpath_open: Seq<bool>,
}

impl DeepView for ClippingPathSettings {
    type V = ClippingPathSettingsView;

    open spec fn deep_view(&self) -> ClippingPathSettingsView {
        ClippingPathSettingsView {
            clipping_type: self.clipping_type,
            invert_path: self.invert_path,
            include_inside_edges: self.include_inside_edges,
            applied_path_name: self.applied_path_name.deep_view(),
            threshold: self.threshold,
            tolerance: self.tolerance,
            clip_anchors: self.clip_anchors@,
            clip_subpath_starts: self.clip_subpath_starts@,
            clip_subpath_open: self.clip_subpath_open@,
        }
    }
}

/// How an image fits its frame.
#[derive(Debug, PartialEq)]
pub struct FrameFittingOption {
    pub left_crop: Option<Num>,
    pub top_crop: Option<Num>,
    pub right_crop: Option<Num>,
    pub bottom_crop: Option<Num>,
    pub fitting_on_empty_frame: Option<String>,
    pub reference_point: Option<String>,
    pub auto_fit: Option<bool>,
}

/// What a [`FrameFittingOption`] holds.
#[verifier::ext_equal]
pub struct FrameFittingOptionView {
    pub left_crop: Option<Num>,
    pub top_crop: Option<Num>,
    pub right_crop: Option<Num>,
    pub bottom_crop: Option<Num>,
    pub fitting_on_empty_frame: Option<Seq<char>>,
    pub reference_point: Option<Seq<char>>,
    pub auto_fit: Option<bool>,
}

impl DeepView for FrameFittingOption {
    type V = FrameFittingOptionView;

    open spec fn deep_view(&self) -> FrameFittingOptionView {
        FrameFittingOptionView {
            left_crop: self.left_crop,
            top_crop: self.top_crop,
            right_crop: self.right_crop,
            bottom_crop: self.bottom_crop,
            fitting_on_empty_frame: self.fitting_on_empty_frame.deep_view(),
            reference_point: self.reference_point.deep_view(),
            auto_fit: self.auto_fit,
        }
    }
}

/// Text that runs along the outline of an item.
#[derive(Debug, PartialEq)]
pub struct TextPath {
    pub self_id: Option<String>,
    pub parent_story: String,
    pub path_alignment: Option<String>,
    pub path_type_alignment: Option<String>,
    pub path_effect: Option<String>,
    pub flip_path_effect: Option<String>,
    pub start_bracket: Option<Num>,
    pub end_bracket: Option<Num>,
}

/// What a [`TextPath`] holds.
#[verifier::ext_equal]
pub struct TextPathView {
    pub self_id: Option<Seq<char>>,
    pub parent_story: Seq<char>,
    pub path_alignment: Option<Seq<char>>,
    pub path_type_alignment: Option<Seq<char>>,
    pub path_effect: Option<Seq<char>>,
    pub flip_path_effect: Option<Seq<char>>,
    pub start_bracket: Option<Num>,
    pub end_bracket: Option<Num>,
}

impl DeepView for TextPath {
    type V = TextPathView;

    open spec fn deep_view(&self) -> TextPathView {
        TextPathView {
            self_id: self.self_id.deep_view(),
            parent_story: self.parent_story@,
            path_alignment: self.path_alignment.deep_view(),
            path_type_alignment: self.path_type_alignment.deep_view(),
            path_effect: self.path_effect.deep_view(),
            flip_path_effect: self.flip_path_effect.deep_view(),
            start_bracket: self.start_bracket,
            end_bracket: self.end_bracket,
        }
    }
}

/// What a placed image states about its source.
#[derive(Debug, PartialEq)]
pub struct ImageMetadata {
    /// The colour space.
    pub space: Option<String>,
    pub actual_ppi: Option<Num>,
    pub effective_ppi: Option<Num>,
}

/// What a [`ImageMetadata`] holds.
#[verifier::ext_equal]
pub struct ImageMetadataView {
    pub space: Option<Seq<char>>,
    pub actual_ppi: Option<Num>,
    pub effective_ppi: Option<Num>,
}

impl DeepView for ImageMetadata {
    type V = ImageMetadataView;

    open spec fn deep_view(&self) -> ImageMetadataView {
        ImageMetadataView {
            space: self.space.deep_view(),
            actual_ppi: self.actual_ppi,
            effective_ppi: self.effective_ppi,
        }
    }
}

/// A text frame.
#[derive(Debug, PartialEq)]
pub struct TextFrame {
    pub self_id: Option<String>,
    pub parent_story: Option<String>,
    pub bounds: Bounds,
    pub item_transform: Option<Matrix>,
    pub fill_color: Option<String>,
    pub fill_tint: Option<Num>,
    pub stroke_color: Option<String>,
    pub stroke_weight: Option<Num>,
    pub stroke_type: Option<String>,
    pub stroke_gap_color: Option<String>,
    pub stroke_gap_tint: Option<Num>,
    pub stroke_dash: Vec<Num>,
    pub drop_shadow: Option<DropShadowSetting>,
    pub stroke_drop_shadow: Option<DropShadowSetting>,
    pub next_text_frame: Option<String>,
    pub vertical_justification: Option<VerticalJustification>,
    pub first_baseline_offset: Option<FirstBaselineOffset>,
    pub minimum_first_baseline_offset: Option<Num>,
    pub inset_spacing: Option<Insets>,
    pub auto_sizing: Option<AutoSizingType>,
    pub auto_sizing_reference_point: Option<AutoSizingReferencePoint>,
    pub minimum_width_for_auto_sizing: Option<Num>,
    pub minimum_height_for_auto_sizing: Option<Num>,
    pub use_minimum_height_for_auto_sizing: Option<bool>,
    pub column_count: Option<u32>,
    pub column_gutter: Option<Num>,
    pub column_balance: Option<bool>,
    pub applied_object_style: Option<String>,
    pub text_wrap: Option<TextWrap>,
    pub item_layer: Option<String>,
    pub is_anchored: bool,
    pub opacity: Option<Num>,
    pub blend_mode: Option<String>,
    pub anchors: Vec<PathAnchor>,
    pub subpath_starts: Vec<usize>,
    pub subpath_open: Vec<bool>,
    pub effects: Option<FrameEffects>,
    pub gradient_fill_angle: Option<Num>,
    pub gradient_fill_length: Option<Num>,
    pub gradient_stroke_angle: Option<Num>,
    pub gradient_stroke_length: Option<Num>,
    pub applied_toc_style: Option<String>,
    pub overprint_fill: bool,
    pub overprint_stroke: bool,
    pub nonprinting: bool,
    pub visible: bool,
    pub locked: bool,
}

/// What a [`TextFrame`] holds.
#[verifier::ext_equal]
pub struct TextFrameView {
    pub self_id: Option<Seq<char>>,
    pub parent_story: Option<Seq<char>>,
    pub bounds: Bounds,
    pub item_transform: Option<Matrix>,
    pub fill_color: Option<Seq<char>>,
    pub fill_tint: Option<Num>,
    pub stroke_color: Option<Seq<char>>,
    pub stroke_weight: Option<Num>,
    pub stroke_type: Option<Seq<char>>,
    pub stroke_gap_color: Option<Seq<char>>,
    pub stroke_gap_tint: Option<Num>,
    pub stroke_dash: Seq<Num>,
    pub drop_shadow: Option<DropShadowSettingView>,
    pub stroke_drop_shadow: Option<DropShadowSettingView>,
    pub next_text_frame: Option<Seq<char>>,
    pub vertical_justification: Option<VerticalJustification>,
    pub first_baseline_offset: Option<FirstBaselineOffset>,
    pub minimum_first_baseline_offset: Option<Num>,
    pub inset_spacing: Option<Insets>,
    pub auto_sizing: Option<AutoSizingType>,
    pub auto_sizing_reference_point: Option<AutoSizingReferencePoint>,
    pub minimum_width_for_auto_sizing: Option<Num>,
    pub minimum_height_for_auto_sizing: Option<Num>,
    pub use_minimum_height_for_auto_sizing: Option<bool>,
    pub column_count: Option<u32>,
    pub column_gutter: Option<Num>,
    pub column_balance: Option<bool>,
    pub applied_object_style: Option<Seq<char>>,
    pub text_wrap: Option<TextWrap>,
    pub item_layer: Option<Seq<char>>,
    pub is_anchored: bool,
    pub opacity: Option<Num>,
    pub blend_mode: Option<Seq<char>>,
    pub anchors: Seq<PathAnchor>,
    pub subpath_starts: Seq<usize>,
    pub subpath_open: Seq<bool>,
    pub effects: Option<FrameEffectsView>,
    pub gradient_fill_angle: Option<Num>,
    pub gradient_fill_length: Option<Num>,
    pub gradient_stroke_angle: Option<Num>,
    pub gradient_stroke_length: Option<Num>,
    pub applied_toc_style: Option<Seq<char>>,
    pub overprint_fill: bool,
    pub overprint_stroke: bool,
    pub nonprinting: bool,
    pub visible: bool,
    pub locked: bool,
}

impl DeepView for TextFrame {
    type V = TextFrameView;

    open spec fn deep_view(&self) -> TextFrameView {
        TextFrameView {
            self_id: self.self_id.deep_view(),
            parent_story: self.parent_story.deep_view(),
            bounds: self.bounds,
            item_transform: self.item_transform,
            fill_color: self.fill_color.deep_view(),
            fill_tint: self.fill_tint,
            stroke_color: self.stroke_color.deep_view(),
            stroke_weight: self.stroke_weight,
            stroke_type: self.stroke_type.deep_view(),
            stroke_gap_color: self.stroke_gap_color.deep_view(),
            stroke_gap_tint: self.stroke_gap_tint,
            stroke_dash: self.stroke_dash@,
            drop_shadow: self.drop_shadow.deep_view(),
            stroke_drop_shadow: self.stroke_drop_shadow.deep_view(),
            next_text_frame: self.next_text_frame.deep_view(),
            vertical_justification: self.vertical_justification,
            first_baseline_offset: self.first_baseline_offset,
            minimum_first_baseline_offset: self.minimum_first_baseline_offset,
            inset_spacing: self.inset_spacing,
            auto_sizing: self.auto_sizing,
            auto_sizing_reference_point: self.auto_sizing_reference_point,
            minimum_width_for_auto_sizing: self.minimum_width_for_auto_sizing,
            minimum_height_for_auto_sizing: self.minimum_height_for_auto_sizing,
            use_minimum_height_for_auto_sizing: self.use_minimum_height_for_auto_sizing,
            column_count: self.column_count,
            column_gutter: self.column_gutter,
            column_balance: self.column_balance,
            applied_object_style: self.applied_object_style.deep_view(),
            text_wrap: self.text_wrap,
            item_layer: self.item_layer.deep_view(),
            is_anchored: self.is_anchored,
            opacity: self.opacity,
            blend_mode: self.blend_mode.deep_view(),
            anchors: self.anchors@,
            subpath_starts: self.subpath_starts@,
            subpath_open: self.subpath_open@,
            effects: self.effects.deep_view(),
            gradient_fill_angle: self.gradient_fill_angle,
            gradient_fill_length: self.gradient_fill_length,
            gradient_stroke_angle: self.gradient_stroke_angle,
            gradient_stroke_length: self.gradient_stroke_length,
            applied_toc_style: self.applied_toc_style.deep_view(),
            overprint_fill: self.overprint_fill,
            overprint_stroke: self.overprint_stroke,
            nonprinting: self.nonprinting,
            visible: self.visible,
            locked: self.locked,
        }
    }
}

/// A rectangle, which may hold an image.
#[derive(Debug, PartialEq)]
pub struct Rectangle {
    pub self_id: Option<String>,
    pub bounds: Bounds,
    pub item_transform: Option<Matrix>,
    pub fill_color: Option<String>,
    pub fill_tint: Option<Num>,
    pub stroke_color: Option<String>,
    pub stroke_weight: Option<Num>,
    pub drop_shadow: Option<DropShadowSetting>,
    pub stroke_drop_shadow: Option<DropShadowSetting>,
    pub image_link: Option<String>,
    pub image_bytes: Option<Vec<u8>>,
    pub image_clip: Option<ClippingPathSettings>,
    pub has_image_element: bool,
    pub has_inline_pdf: bool,
    pub image_item_transform: Option<Matrix>,
    pub applied_object_style: Option<String>,
    pub text_wrap: Option<TextWrap>,
    pub frame_fitting: Option<FrameFittingOption>,
    pub stroke_type: Option<String>,
    pub stroke_alignment: Option<String>,
    pub end_cap: Option<String>,
    pub end_join: Option<String>,
    pub miter_limit: Option<Num>,
    pub stroke_gap_color: Option<String>,
    pub stroke_gap_tint: Option<Num>,
    pub stroke_dash: Vec<Num>,
    pub item_layer: Option<String>,
    pub corner_radius: Option<Num>,
    pub corner_option: Option<String>,
    pub corners: Corners,
    pub is_anchored: bool,
    pub opacity: Option<Num>,
    pub blend_mode: Option<String>,
    pub effects: Option<FrameEffects>,
    pub gradient_fill_angle: Option<Num>,
    pub gradient_fill_length: Option<Num>,
    pub gradient_stroke_angle: Option<Num>,
    pub gradient_stroke_length: Option<Num>,
    pub text_paths: Vec<TextPath>,
    pub overprint_fill: bool,
    pub overprint_stroke: bool,
    pub nonprinting: bool,
    pub visible: bool,
    pub locked: bool,
    pub anchors: Vec<PathAnchor>,
    pub subpath_starts: Vec<usize>,
    pub subpath_open: Vec<bool>,
}

/// What a [`Rectangle`] holds.
#[verifier::ext_equal]
pub struct RectangleView {
    pub self_id: Option<Seq<char>>,
    pub bounds: Bounds,
    pub item_transform: Option<Matrix>,
    pub fill_color: Option<Seq<char>>,
    pub fill_tint: Option<Num>,
    pub stroke_color: Option<Seq<char>>,
    pub stroke_weight: Option<Num>,
    pub drop_shadow: Option<DropShadowSettingView>,
    pub stroke_drop_shadow: Option<DropShadowSettingView>,
    pub image_link: Option<Seq<char>>,
    pub image_bytes: Option<Seq<u8>>,
    pub image_clip: Option<ClippingPathSettingsView>,
    pub has_image_element: bool,
    pub has_inline_pdf: bool,
    pub image_item_transform: Option<Matrix>,
    pub applied_object_style: Option<Seq<char>>,
    pub text_wrap: Option<TextWrap>,
    pub frame_fitting: Option<FrameFittingOptionView>,
    pub stroke_type: Option<Seq<char>>,
    pub stroke_alignment: Option<Seq<char>>,
    pub end_cap: Option<Seq<char>>,
    pub end_join: Option<Seq<char>>,
    pub miter_limit: Option<Num>,
    pub stroke_gap_color: Option<Seq<char>>,
    pub stroke_gap_tint: Option<Num>,
    pub stroke_dash: Seq<Num>,
    pub item_layer: Option<Seq<char>>,
    pub corner_radius: Option<Num>,
    pub corner_option: Option<Seq<char>>,
    pub corners: Corners,
    pub is_anchored: bool,
    pub opacity: Option<Num>,
    pub blend_mode: Option<Seq<char>>,
    pub effects: Option<FrameEffectsView>,
    pub gradient_fill_angle: Option<Num>,
    pub gradient_fill_length: Option<Num>,
    pub gradient_stroke_angle: Option<Num>,
    pub gradient_stroke_length: Option<Num>,
    pub text_paths: Seq<TextPathView>,
    pub overprint_fill: bool,
    pub overprint_stroke: bool,
    pub nonprinting: bool,
    pub visible: bool,
    pub locked: bool,
    pub anchors: Seq<PathAnchor>,
    pub subpath_starts: Seq<usize>,
    pub subpath_open: Seq<bool>,
}

impl DeepView for Rectangle {
    type V = RectangleView;

    open spec fn deep_view(&self) -> RectangleView {
        RectangleView {
            self_id: self.self_id.deep_view(),
            bounds: self.bounds,
            item_transform: self.item_transform,
            fill_color: self.fill_color.deep_view(),
            fill_tint: self.fill_tint,
            stroke_color: self.stroke_color.deep_view(),
            stroke_weight: self.stroke_weight,
            drop_shadow: self.drop_shadow.deep_view(),
            stroke_drop_shadow: self.stroke_drop_shadow.deep_view(),
            image_link: self.image_link.deep_view(),
            image_bytes: self.image_bytes.deep_view(),
            image_clip: self.image_clip.deep_view(),
            has_image_element: self.has_image_element,
            has_inline_pdf: self.has_inline_pdf,
            image_item_transform: self.image_item_transform,
            applied_object_style: self.applied_object_style.deep_view(),
            text_wrap: self.text_wrap,
            frame_fitting: self.frame_fitting.deep_view(),
            stroke_type: self.stroke_type.deep_view(),
            stroke_alignment: self.stroke_alignment.deep_view(),
            end_cap: self.end_cap.deep_view(),
            end_join: self.end_join.deep_view(),
            miter_limit: self.miter_limit,
            stroke_gap_color: self.stroke_gap_color.deep_view(),
            stroke_gap_tint: self.stroke_gap_tint,
            stroke_dash: self.stroke_dash@,
            item_layer: self.item_layer.deep_view(),
            corner_radius: self.corner_radius,
            corner_option: self.corner_option.deep_view(),
            corners: self.corners,
            is_anchored: self.is_anchored,
            opacity: self.opacity,
            blend_mode: self.blend_mode.deep_view(),
            effects: self.effects.deep_view(),
            gradient_fill_angle: self.gradient_fill_angle,
            gradient_fill_length: self.gradient_fill_length,
            gradient_stroke_angle: self.gradient_stroke_angle,
            gradient_stroke_length: self.gradient_stroke_length,
            text_paths: self.text_paths.deep_view(),
            overprint_fill: self.overprint_fill,
            overprint_stroke: self.overprint_stroke,
            nonprinting: self.nonprinting,
            visible: self.visible,
            locked: self.locked,
            anchors: self.anchors@,
            subpath_starts: self.subpath_starts@,
            subpath_open: self.subpath_open@,
        }
    }
}

/// An oval, which may hold an image.
#[derive(Debug, PartialEq)]
pub struct Oval {
    pub self_id: Option<String>,
    pub bounds: Bounds,
    pub item_transform: Option<Matrix>,
    pub fill_color: Option<String>,
    pub fill_tint: Option<Num>,
    pub stroke_color: Option<String>,
    pub stroke_weight: Option<Num>,
    pub stroke_type: Option<String>,
    pub stroke_alignment: Option<String>,
    pub stroke_gap_color: Option<String>,
    pub stroke_gap_tint: Option<Num>,
    pub stroke_dash: Vec<Num>,
    pub drop_shadow: Option<DropShadowSetting>,
    pub stroke_drop_shadow: Option<DropShadowSetting>,
    pub applied_object_style: Option<String>,
    pub text_wrap: Option<TextWrap>,
    pub item_layer: Option<String>,
    pub gradient_fill_angle: Option<Num>,
    pub gradient_fill_length: Option<Num>,
    pub gradient_stroke_angle: Option<Num>,
    pub gradient_stroke_length: Option<Num>,
    pub opacity: Option<Num>,
    pub blend_mode: Option<String>,
    pub image_link: Option<String>,
    pub image_bytes: Option<Vec<u8>>,
    pub image_clip: Option<ClippingPathSettings>,
    pub has_image_element: bool,
    pub has_inline_pdf: bool,
    pub image_item_transform: Option<Matrix>,
    pub effects: Option<FrameEffects>,
    pub overprint_fill: bool,
    pub overprint_stroke: bool,
    pub nonprinting: bool,
    pub visible: bool,
    pub locked: bool,
}

/// What a [`Oval`] holds.
#[verifier::ext_equal]
pub struct OvalView {
    pub self_id: Option<Seq<char>>,
    pub bounds: Bounds,
    pub item_transform: Option<Matrix>,
    pub fill_color: Option<Seq<char>>,
    pub fill_tint: Option<Num>,
    pub stroke_color: Option<Seq<char>>,
    pub stroke_weight: Option<Num>,
    pub stroke_type: Option<Seq<char>>,
    pub stroke_alignment: Option<Seq<char>>,
    pub stroke_gap_color: Option<Seq<char>>,
    pub stroke_gap_tint: Option<Num>,
    pub stroke_dash: Seq<Num>,
    pub drop_shadow: Option<DropShadowSettingView>,
    pub stroke_drop_shadow: Option<DropShadowSettingView>,
    pub applied_object_style: Option<Seq<char>>,
    pub text_wrap: Option<TextWrap>,
    pub item_layer: Option<Seq<char>>,
    pub gradient_fill_angle: Option<Num>,
    pub gradient_fill_length: Option<Num>,
    pub gradient_stroke_angle: Option<Num>,
    pub gradient_stroke_length: Option<Num>,
    pub opacity: Option<Num>,
    pub blend_mode: Option<Seq<char>>,
    pub image_link: Option<Seq<char>>,
    pub image_bytes: Option<Seq<u8>>,
    pub image_clip: Option<ClippingPathSettingsView>,
    pub has_image_element: bool,
    pub has_inline_pdf: bool,
    pub image_item_transform: Option<Matrix>,
    pub effects: Option<FrameEffectsView>,
    pub overprint_fill: bool,
    pub overprint_stroke: bool,
    pub nonprinting: bool,
    pub visible: bool,
    pub locked: bool,
}

impl DeepView for Oval {
    type V = OvalView;

    open spec fn deep_view(&self) -> OvalView {
        OvalView {
            self_id: self.self_id.deep_view(),
            bounds: self.bounds,
            item_transform: self.item_transform,
            fill_color: self.fill_color.deep_view(),
            fill_tint: self.fill_tint,
            stroke_color: self.stroke_color.deep_view(),
            stroke_weight: self.stroke_weight,
            stroke_type: self.stroke_type.deep_view(),
            stroke_alignment: self.stroke_alignment.deep_view(),
            stroke_gap_color: self.stroke_gap_color.deep_view(),
            stroke_gap_tint: self.stroke_gap_tint,
            stroke_dash: self.stroke_dash@,
            drop_shadow: self.drop_shadow.deep_view(),
            stroke_drop_shadow: self.stroke_drop_shadow.deep_view(),
            applied_object_style: self.applied_object_style.deep_view(),
            text_wrap: self.text_wrap,
            item_layer: self.item_layer.deep_view(),
            gradient_fill_angle: self.gradient_fill_angle,
            gradient_fill_length: self.gradient_fill_length,
            gradient_stroke_angle: self.gradient_stroke_angle,
            gradient_stroke_length: self.gradient_stroke_length,
            opacity: self.opacity,
            blend_mode: self.blend_mode.deep_view(),
            image_link: self.image_link.deep_view(),
            image_bytes: self.image_bytes.deep_view(),
            image_clip: self.image_clip.deep_view(),
            has_image_element: self.has_image_element,
            has_inline_pdf: self.has_inline_pdf,
            image_item_transform: self.image_item_transform,
            effects: self.effects.deep_view(),
            overprint_fill: self.overprint_fill,
            overprint_stroke: self.overprint_stroke,
            nonprinting: self.nonprinting,
            visible: self.visible,
            locked: self.locked,
        }
    }
}

/// A line.
#[derive(Debug, PartialEq)]
pub struct GraphicLine {
    pub self_id: Option<String>,
    pub bounds: Bounds,
    pub item_transform: Option<Matrix>,
    pub stroke_color: Option<String>,
    pub stroke_weight: Option<Num>,
    pub stroke_type: Option<String>,
    pub end_join: Option<String>,
    pub miter_limit: Option<Num>,
    pub stroke_gap_color: Option<String>,
    pub stroke_gap_tint: Option<Num>,
    pub stroke_dash: Vec<Num>,
    pub applied_object_style: Option<String>,
    pub text_wrap: Option<TextWrap>,
    pub item_layer: Option<String>,
    pub anchors: Vec<PathAnchor>,
    pub subpath_starts: Vec<usize>,
    pub subpath_open: Vec<bool>,
    pub text_paths: Vec<TextPath>,
    pub effects: Option<FrameEffects>,
    pub overprint_stroke: bool,
    pub nonprinting: bool,
    pub visible: bool,
    pub locked: bool,
    pub start_arrow: ArrowheadType,
    pub end_arrow: ArrowheadType,
    pub start_arrow_scale: Num,
    pub end_arrow_scale: Num,
}

/// What a [`GraphicLine`] holds.
#[verifier::ext_equal]
pub struct GraphicLineView {
    pub self_id: Option<Seq<char>>,
    pub bounds: Bounds,
    pub item_transform: Option<Matrix>,
    pub stroke_color: Option<Seq<char>>,
    pub stroke_weight: Option<Num>,
    pub stroke_type: Option<Seq<char>>,
    pub end_join: Option<Seq<char>>,
    pub miter_limit: Option<Num>,
    pub stroke_gap_color: Option<Seq<char>>,
    pub stroke_gap_tint: Option<Num>,
    pub stroke_dash: Seq<Num>,
    pub applied_object_style: Option<Seq<char>>,
    pub text_wrap: Option<TextWrap>,
    pub item_layer: Option<Seq<char>>,
    pub anchors: Seq<PathAnchor>,
    pub subpath_starts: Seq<usize>,
    pub subpath_open: Seq<bool>,
    pub text_paths: Seq<TextPathView>,
    pub effects: Option<FrameEffectsView>,
    pub overprint_stroke: bool,
    pub nonprinting: bool,
    pub visible: bool,
    pub locked: bool,
    pub start_arrow: ArrowheadType,
    pub end_arrow: ArrowheadType,
    pub start_arrow_scale: Num,
    pub end_arrow_scale: Num,
}

impl DeepView for GraphicLine {
    type V = GraphicLineView;

    open spec fn deep_view(&self) -> GraphicLineView {
        GraphicLineView {
            self_id: self.self_id.deep_view(),
            bounds: self.bounds,
            item_transform: self.item_transform,
            stroke_color: self.stroke_color.deep_view(),
            stroke_weight: self.stroke_weight,
            stroke_type: self.stroke_type.deep_view(),
            end_join: self.end_join.deep_view(),
            miter_limit: self.miter_limit,
            stroke_gap_color: self.stroke_gap_color.deep_view(),
            stroke_gap_tint: self.stroke_gap_tint,
            stroke_dash: self.stroke_dash@,
            applied_object_style: self.applied_object_style.deep_view(),
            text_wrap: self.text_wrap,
            item_layer: self.item_layer.deep_view(),
            anchors: self.anchors@,
            subpath_starts: self.subpath_starts@,
            subpath_open: self.subpath_open@,
            text_paths: self.text_paths.deep_view(),
            effects: self.effects.deep_view(),
            overprint_stroke: self.overprint_stroke,
            nonprinting: self.nonprinting,
            visible: self.visible,
            locked: self.locked,
            start_arrow: self.start_arrow,
            end_arrow: self.end_arrow,
            start_arrow_scale: self.start_arrow_scale,
            end_arrow_scale: self.end_arrow_scale,
        }
    }
}

/// A polygon, which may hold an image.
#[derive(Debug, PartialEq)]
pub struct Polygon {
    pub self_id: Option<String>,
    pub bounds: Bounds,
    pub item_transform: Option<Matrix>,
    pub fill_color: Option<String>,
    pub fill_tint: Option<Num>,
    pub stroke_color: Option<String>,
    pub stroke_weight: Option<Num>,
    pub stroke_type: Option<String>,
    pub stroke_alignment: Option<String>,
    pub end_join: Option<String>,
    pub miter_limit: Option<Num>,
    pub stroke_gap_color: Option<String>,
    pub stroke_gap_tint: Option<Num>,
    pub stroke_dash: Vec<Num>,
    pub applied_object_style: Option<String>,
    pub text_wrap: Option<TextWrap>,
    pub anchors: Vec<PathAnchor>,
    pub subpath_starts: Vec<usize>,
    pub subpath_open: Vec<bool>,
    pub item_layer: Option<String>,
    pub gradient_fill_angle: Option<Num>,
    pub gradient_fill_length: Option<Num>,
    pub gradient_stroke_angle: Option<Num>,
    pub gradient_stroke_length: Option<Num>,
    pub opacity: Option<Num>,
    pub blend_mode: Option<String>,
    pub text_paths: Vec<TextPath>,
    pub image_link: Option<String>,
    pub image_bytes: Option<Vec<u8>>,
    pub image_clip: Option<ClippingPathSettings>,
    pub has_image_element: bool,
    pub has_inline_pdf: bool,
    pub image_item_transform: Option<Matrix>,
    pub effects: Option<FrameEffects>,
    pub overprint_fill: bool,
    pub overprint_stroke: bool,
    pub nonprinting: bool,
    pub visible: bool,
    pub locked: bool,
}

/// What a [`Polygon`] holds.
#[verifier::ext_equal]
pub struct PolygonView {
    pub self_id: Option<Seq<char>>,
    pub bounds: Bounds,
    pub item_transform: Option<Matrix>,
    pub fill_color: Option<Seq<char>>,
    pub fill_tint: Option<Num>,
    pub stroke_color: Option<Seq<char>>,
    pub stroke_weight: Option<Num>,
    pub stroke_type: Option<Seq<char>>,
    pub stroke_alignment: Option<Seq<char>>,
    pub end_join: Option<Seq<char>>,
    pub miter_limit: Option<Num>,
    pub stroke_gap_color: Option<Seq<char>>,
    pub stroke_gap_tint: Option<Num>,
    pub stroke_dash: Seq<Num>,
    pub applied_object_style: Option<Seq<char>>,
    pub text_wrap: Option<TextWrap>,
    pub anchors: Seq<PathAnchor>,
    pub subpath_starts: Seq<usize>,
    pub subpath_open: Seq<bool>,
    pub item_layer: Option<Seq<char>>,
    pub gradient_fill_angle: Option<Num>,
    pub gradient_fill_length: Option<Num>,
    pub gradient_stroke_angle: Option<Num>,
    pub gradient_stroke_length: Option<Num>,
    pub opacity: Option<Num>,
    pub blend_mode: Option<Seq<char>>,
    pub text_paths: Seq<TextPathView>,
    pub image_link: Option<Seq<char>>,
    pub image_bytes: Option<Seq<u8>>,
    pub image_clip: Option<ClippingPathSettingsView>,
    pub has_image_element: bool,
    pub has_inline_pdf: bool,
    pub image_item_transform: Option<Matrix>,
    pub effects: Option<FrameEffectsView>,
    pub overprint_fill: bool,
    pub overprint_stroke: bool,
    pub nonprinting: bool,
    pub visible: bool,
    pub locked: bool,
}

impl DeepView for Polygon {
    type V = PolygonView;

    open spec fn deep_view(&self) -> PolygonView {
        PolygonView {
            self_id: self.self_id.deep_view(),
            bounds: self.bounds,
            item_transform: self.item_transform,
            fill_color: self.fill_color.deep_view(),
            fill_tint: self.fill_tint,
            stroke_color: self.stroke_color.deep_view(),
            stroke_weight: self.stroke_weight,
            stroke_type: self.stroke_type.deep_view(),
            stroke_alignment: self.stroke_alignment.deep_view(),
            end_join: self.end_join.deep_view(),
            miter_limit: self.miter_limit,
            stroke_gap_color: self.stroke_gap_color.deep_view(),
            stroke_gap_tint: self.stroke_gap_tint,
            stroke_dash: self.stroke_dash@,
            applied_object_style: self.applied_object_style.deep_view(),
            text_wrap: self.text_wrap,
            anchors: self.anchors@,
            subpath_starts: self.subpath_starts@,
            subpath_open: self.subpath_open@,
            item_layer: self.item_layer.deep_view(),
            gradient_fill_angle: self.gradient_fill_angle,
            gradient_fill_length: self.gradient_fill_length,
            gradient_stroke_angle: self.gradient_stroke_angle,
            gradient_stroke_length: self.gradient_stroke_length,
            opacity: self.opacity,
            blend_mode: self.blend_mode.deep_view(),
            text_paths: self.text_paths.deep_view(),
            image_link: self.image_link.deep_view(),
            image_bytes: self.image_bytes.deep_view(),
            image_clip: self.image_clip.deep_view(),
            has_image_element: self.has_image_element,
            has_inline_pdf: self.has_inline_pdf,
            image_item_transform: self.image_item_transform,
            effects: self.effects.deep_view(),
            overprint_fill: self.overprint_fill,
            overprint_stroke: self.overprint_stroke,
            nonprinting: self.nonprinting,
            visible: self.visible,
            locked: self.locked,
        }
    }
}

/// A page item or a group, by its place in the list of its kind.
#[derive(Clone, Copy, Debug, PartialEq, Eq, Structural)]
pub enum FrameRef {
    TextFrame(usize),
    Rectangle(usize),
    Oval(usize),
    GraphicLine(usize),
    Polygon(usize),
    Group(usize),
}

impl DeepView for FrameRef {
    type V = FrameRef;

    open spec fn deep_view(&self) -> FrameRef {
        *self
    }
}

/// How a group as a whole blends in.
#[derive(Debug, PartialEq)]
pub struct GroupTransparency {
    pub drop_shadow: Option<DropShadowSetting>,
    pub opacity: Option<Num>,
    pub blend_mode: Option<String>,
}

/// What a [`GroupTransparency`] holds.
#[verifier::ext_equal]
pub struct GroupTransparencyView {
    pub drop_shadow: Option<DropShadowSettingView>,
    pub opacity: Option<Num>,
    pub blend_mode: Option<Seq<char>>,
}

impl DeepView for GroupTransparency {
    type V = GroupTransparencyView;

    open spec fn deep_view(&self) -> GroupTransparencyView {
        GroupTransparencyView {
            drop_shadow: self.drop_shadow.deep_view(),
            opacity: self.opacity,
            blend_mode: self.blend_mode.deep_view(),
        }
    }
}

/// A group of items.
#[derive(Debug, PartialEq)]
pub struct Group {
    pub self_id: Option<String>,
    pub item_transform: Option<Matrix>,
    /// In document order.
    pub members: Vec<FrameRef>,
    pub transparency: GroupTransparency,
}

/// What a [`Group`] holds.
#[verifier::ext_equal]
pub struct GroupView {
    pub self_id: Option<Seq<char>>,
    pub item_transform: Option<Matrix>,
    pub members: Seq<FrameRef>,
    pub transparency: GroupTransparencyView,
}

impl DeepView for Group {
    type V = GroupView;

    open spec fn deep_view(&self) -> GroupView {
        GroupView {
            self_id: self.self_id.deep_view(),
            item_transform: self.item_transform,
            members: self.members@,
            transparency: self.transparency.deep_view(),
        }
    }
}

/// A page.
#[derive(Debug, PartialEq)]
pub struct Page {
    pub self_id: Option<String>,
    pub bounds: Bounds,
    pub applied_master: Option<String>,
    pub item_transform: Option<Matrix>,
    pub master_page_transform: Option<Matrix>,
    pub override_list: Vec<String>,
    pub name: Option<String>,
    pub show_master_items: Option<bool>,
}

/// What a [`Page`] holds.
#[verifier::ext_equal]
pub struct PageView {
    pub self_id: Option<Seq<char>>,
    pub bounds: Bounds,
    pub applied_master: Option<Seq<char>>,
    pub item_transform: Option<Matrix>,
    pub master_page_transform: Option<Matrix>,
    pub override_list: Seq<Seq<char>>,
    pub name: Option<Seq<char>>,
    pub show_master_items: Option<bool>,
}

impl DeepView for Page {
    type V = PageView;

    open spec fn deep_view(&self) -> PageView {
        PageView {
            self_id: self.self_id.deep_view(),
            bounds: self.bounds,
            applied_master: self.applied_master.deep_view(),
            item_transform: self.item_transform,
            master_page_transform: self.master_page_transform,
            override_list: self.override_list.deep_view(),
            name: self.name.deep_view(),
            show_master_items: self.show_master_items,
        }
    }
}

/// The margins and columns of a page.
#[derive(Clone, Copy, Debug, PartialEq, Eq)]
pub struct MarginPreference {
    pub top: Num,
    pub bottom: Num,
    pub left: Num,
    pub right: Num,
    pub column_count: u32,
    pub column_gutter: Num,
}

impl DeepView for MarginPreference {
    type V = MarginPreference;

    open spec fn deep_view(&self) -> MarginPreference {
        *self
    }
}

/// A ruler guide.
#[derive(Clone, Copy, Debug, PartialEq, Eq)]
pub struct RulerGuide {
    pub orientation: GuideOrientation,
    pub location: Num,
    pub page_index: u32,
}

impl DeepView for RulerGuide {
    type V = RulerGuide;

    open spec fn deep_view(&self) -> RulerGuide {
        *self
    }
}

/// A spread: its pages and the items on them.
#[derive(Debug)]
pub struct Spread {
    pub self_id: Option<String>,
    pub item_transform: Option<Matrix>,
    pub pages: Vec<Page>,
    /// By the identifier of the page.
    pub page_margins: IdMap<MarginPreference>,
    pub text_frames: Vec<TextFrame>,
    pub rectangles: Vec<Rectangle>,
    pub ovals: Vec<Oval>,
    pub graphic_lines: Vec<GraphicLine>,
    pub polygons: Vec<Polygon>,
    pub groups: Vec<Group>,
    /// What stands outside every group, in document order.
    pub frames_in_order: Vec<FrameRef>,
    /// How many items inside groups were left out: every one is lifted out of
    /// its groups, so none is.
    pub skipped_nested_frames: u32,
    pub guides: Vec<RulerGuide>,
    /// The labels of each item, by its identifier.
    pub labels: IdMap<Vec<(String, String)>>,
    /// By the identifier of the item that holds the image.
    pub image_metadata: IdMap<ImageMetadata>,
}

/// What a [`Spread`] holds.
#[verifier::ext_equal]
pub struct SpreadView {
    pub self_id: Option<Seq<char>>,
    pub item_transform: Option<Matrix>,
    pub pages: Seq<PageView>,
    pub page_margins: Map<Seq<char>, MarginPreference>,
    pub text_frames: Seq<TextFrameView>,
    pub rectangles: Seq<RectangleView>,
    pub ovals: Seq<OvalView>,
    pub graphic_lines: Seq<GraphicLineView>,
    pub polygons: Seq<PolygonView>,
    pub groups: Seq<GroupView>,
    pub frames_in_order: Seq<FrameRef>,
    pub skipped_nested_frames: u32,
    pub guides: Seq<RulerGuide>,
    pub labels: Map<Seq<char>, Seq<(Seq<char>, Seq<char>)>>,
    pub image_metadata: Map<Seq<char>, ImageMetadataView>,
}

impl DeepView for Spread {
    type V = SpreadView;

    open spec fn deep_view(&self) -> SpreadView {
        SpreadView {
            self_id: self.self_id.deep_view(),
            item_transform: self.item_transform,
            pages: self.pages.deep_view(),
            page_margins: self.page_margins.deep_view(),
            text_frames: self.text_frames.deep_view(),
            rectangles: self.rectangles.deep_view(),
            ovals: self.ovals.deep_view(),
            graphic_lines: self.graphic_lines.deep_view(),
            polygons: self.polygons.deep_view(),
            groups: self.groups.deep_view(),
            frames_in_order: self.frames_in_order@,
            skipped_nested_frames: self.skipped_nested_frames,
            guides: self.guides@,
            labels: self.labels.deep_view(),
            image_metadata: self.image_metadata.deep_view(),
        }
    }
}

/// A spread with nothing on it.
pub open spec fn empty_spread() -> SpreadView {
    SpreadView {
        self_id: None,
        item_transform: None,
        pages: Seq::empty(),
        page_margins: Map::empty(),
        text_frames: Seq::empty(),
        rectangles: Seq::empty(),
        ovals: Seq::empty(),
        graphic_lines: Seq::empty(),
        polygons: Seq::empty(),
        groups: Seq::empty(),
        frames_in_order: Seq::empty(),
        skipped_nested_frames: 0,
        guides: Seq::empty(),
        labels: Map::empty(),
        image_metadata: Map::empty(),
    }
}

impl Default for Spread {
    fn default() -> (r: Spread)
        ensures
            r.deep_view() == empty_spread(),
    {
        Spread {
            self_id: None,
            item_transform: None,
            pages: Vec::new(),
            page_margins: IdMap::new(),
            text_frames: Vec::new(),
            rectangles: Vec::new(),
            ovals: Vec::new(),
            graphic_lines: Vec::new(),
            polygons: Vec::new(),
            groups: Vec::new(),
            frames_in_order: Vec::new(),
            skipped_nested_frames: 0,
            guides: Vec::new(),
            labels: IdMap::new(),
            image_metadata: IdMap::new(),
        }
    }
}

impl ClippingPathSettings {
    /// Whether the path itself is known, so that it can be drawn.
    pub fn has_renderable_geometry(&self) -> (r: bool)
        ensures
            r == (self.clipping_type != Some(ClippingType::NoClip) && self.clip_anchors@.len() > 0),
    {
        let off: bool = match self.clipping_type {
            Some(ClippingType::NoClip) => true,
            _ => false,
        };
        !off && self.clip_anchors.len() > 0
    }

    /// Whether there is a clip whose path stands in the image itself.
    pub fn is_deferred_clip(&self) -> (r: bool)
        ensures
            r == (self.clipping_type is Some && self.clipping_type != Some(ClippingType::NoClip)
                && self.clip_anchors@.len() == 0),
    {
        let on: bool = match self.clipping_type {
            None => false,
            Some(ClippingType::NoClip) => false,
            _ => true,
        };
        on && self.clip_anchors.len() == 0
    }
}

} // verus!
