//! What an edit of an item changes: the thing that it states, on the one item that it
//! is made to, and nothing else of the spread.
use crate::edits::{
    identifier_at, text_wrap_at, with_anchored_flag, with_blending, with_bounds, with_drop_shadow,
    with_feather_stop, with_fitting, with_image, with_image_bytes, with_image_clip,
    with_item_effect, with_outline, with_preference, with_stroke_drop_shadow, with_text_path,
    with_text_wrap, FrameKind,
};
use crate::encoding::{base64_decoded, cleaned};
use crate::geometry::{Bounds, Matrix, PathAnchor};
use crate::number::Num;
use crate::page_items::{
    ClippingPathSettingsView, DropShadowSettingView, FrameEffectsView, SpreadView, TextPathView,
    TextWrap,
};
use crate::place_laws::{has_one_more, points_at};
use crate::shapes::{feather_stop_of, is_effect, no_effects, with_effect};
use crate::spread::{
    after_event, after_wrap, contour_type_of, has_item, labels_at, with_group_blending,
    with_group_shadow, with_key_value, with_label, wrap_offsets_of, CurrentFrameView,
    GroupBuilderView, ProgressView,
};
use crate::spread_laws::{bounds_at, law_later_label_stands};
use crate::xml::{law_names_differ, EventView, TagView};
use vstd::prelude::*;
use vstd::utf8::encode_utf8;

verus! {

/// Whether two lists are the same but for the thing at one place.
pub open spec fn same_but_at<T>(a: Seq<T>, b: Seq<T>, i: int) -> bool {
    &&& a.len() == b.len()
    &&& forall|j: int| 0 <= j < a.len() && j != i ==> #[trigger] b[j] == a[j]
}

/// Whether two spreads are the same but for one item.
pub open spec fn same_but_for(a: SpreadView, b: SpreadView, kind: FrameKind) -> bool {
    match kind {
        FrameKind::Text(i) => {
            &&& same_but_at(a.text_frames, b.text_frames, i as int)
            &&& a == (SpreadView { text_frames: a.text_frames, ..b })
        },
        FrameKind::Rect(i) => {
            &&& same_but_at(a.rectangles, b.rectangles, i as int)
            &&& a == (SpreadView { rectangles: a.rectangles, ..b })
        },
        FrameKind::Oval(i) => {
            &&& same_but_at(a.ovals, b.ovals, i as int)
            &&& a == (SpreadView { ovals: a.ovals, ..b })
        },
        FrameKind::Line(i) => {
            &&& same_but_at(a.graphic_lines, b.graphic_lines, i as int)
            &&& a == (SpreadView { graphic_lines: a.graphic_lines, ..b })
        },
        FrameKind::Polygon(i) => {
            &&& same_but_at(a.polygons, b.polygons, i as int)
            &&& a == (SpreadView { polygons: a.polygons, ..b })
        },
    }
}

/// The shadow of an item.
pub open spec fn shadow_at(out: SpreadView, kind: FrameKind) -> Option<DropShadowSettingView> {
    match kind {
        FrameKind::Text(i) => if i < out.text_frames.len() {
            out.text_frames[i as int].drop_shadow
        } else {
            None
        },
        FrameKind::Rect(i) => if i < out.rectangles.len() {
            out.rectangles[i as int].drop_shadow
        } else {
            None
        },
        FrameKind::Oval(i) => if i < out.ovals.len() {
            out.ovals[i as int].drop_shadow
        } else {
            None
        },
        _ => None,
    }
}

/// The effects of an item.
pub open spec fn effects_at(out: SpreadView, kind: FrameKind) -> Option<FrameEffectsView> {
    match kind {
        FrameKind::Text(i) => if i < out.text_frames.len() {
            out.text_frames[i as int].effects
        } else {
            None
        },
        FrameKind::Rect(i) => if i < out.rectangles.len() {
            out.rectangles[i as int].effects
        } else {
            None
        },
        FrameKind::Oval(i) => if i < out.ovals.len() {
            out.ovals[i as int].effects
        } else {
            None
        },
        FrameKind::Line(i) => if i < out.graphic_lines.len() {
            out.graphic_lines[i as int].effects
        } else {
            None
        },
        FrameKind::Polygon(i) => if i < out.polygons.len() {
            out.polygons[i as int].effects
        } else {
            None
        },
    }
}

/// The text paths of an item, where its kind has them.
pub open spec fn text_paths_at(out: SpreadView, kind: FrameKind) -> Option<Seq<TextPathView>> {
    match kind {
        FrameKind::Rect(i) => if i < out.rectangles.len() {
            Some(out.rectangles[i as int].text_paths)
        } else {
            None
        },
        FrameKind::Line(i) => if i < out.graphic_lines.len() {
            Some(out.graphic_lines[i as int].text_paths)
        } else {
            None
        },
        FrameKind::Polygon(i) => if i < out.polygons.len() {
            Some(out.polygons[i as int].text_paths)
        } else {
            None
        },
        _ => None,
    }
}

/// The image that an item holds.
pub open spec fn image_at(out: SpreadView, kind: FrameKind) -> Option<Seq<u8>> {
    match kind {
        FrameKind::Rect(i) => if i < out.rectangles.len() {
            out.rectangles[i as int].image_bytes
        } else {
            None
        },
        FrameKind::Oval(i) => if i < out.ovals.len() {
            out.ovals[i as int].image_bytes
        } else {
            None
        },
        FrameKind::Polygon(i) => if i < out.polygons.len() {
            out.polygons[i as int].image_bytes
        } else {
            None
        },
        _ => None,
    }
}

/// The clipping path of the image that an item holds.
pub open spec fn clip_at(out: SpreadView, kind: FrameKind) -> Option<ClippingPathSettingsView> {
    match kind {
        FrameKind::Rect(i) => if i < out.rectangles.len() {
            out.rectangles[i as int].image_clip
        } else {
            None
        },
        FrameKind::Oval(i) => if i < out.ovals.len() {
            out.ovals[i as int].image_clip
        } else {
            None
        },
        FrameKind::Polygon(i) => if i < out.polygons.len() {
            out.polygons[i as int].image_clip
        } else {
            None
        },
        _ => None,
    }
}

/// The box that is given to an item is the box that it has; no other item changes.
pub proof fn law_box_is_given_to_its_item(out: SpreadView, kind: FrameKind, bounds: Bounds)
    ensures
        same_but_for(out, with_bounds(out, kind, bounds), kind),
        has_item(out, kind) ==> bounds_at(with_bounds(out, kind, bounds), kind) == Some(bounds),
{
}

/// The wrap that is given to an item is the wrap that it has; no other item changes.
pub proof fn law_wrap_is_given_to_its_item(
    out: SpreadView,
    kind: FrameKind,
    wrap: Option<TextWrap>,
)
    ensures
        same_but_for(out, with_text_wrap(out, kind, wrap), kind),
        has_item(out, kind) ==> text_wrap_at(with_text_wrap(out, kind, wrap), kind) == wrap,
{
}

/// The path that is given to an item is the path that it has; no other item
/// changes.
pub proof fn law_path_is_given_to_its_item(
    out: SpreadView,
    kind: FrameKind,
    anchors: Seq<PathAnchor>,
    starts: Seq<usize>,
    opens: Seq<bool>,
)
    ensures
        same_but_for(out, with_outline(out, kind, anchors, starts, opens), kind),
        points_at(out, kind) is Some ==> points_at(
            with_outline(out, kind, anchors, starts, opens),
            kind,
        ) == Some(anchors),
{
}

/// The shadow that is given to an item is the shadow that it has; no other item
/// changes, nor does the shadow of a stroke change that of the item.
pub proof fn law_shadow_is_given_to_its_item(
    out: SpreadView,
    kind: FrameKind,
    shadow: DropShadowSettingView,
)
    ensures
        same_but_for(out, with_drop_shadow(out, kind, shadow), kind),
        same_but_for(out, with_stroke_drop_shadow(out, kind, shadow), kind),
        shadow_at(with_stroke_drop_shadow(out, kind, shadow), kind) == shadow_at(out, kind),
        has_item(out, kind) && (kind is Text || kind is Rect || kind is Oval) ==> shadow_at(
            with_drop_shadow(out, kind, shadow),
            kind,
        ) == Some(shadow),
{
}

/// An edit of an item changes no other item, and nothing else of the spread.
pub proof fn law_edits_change_one_item(
    out: SpreadView,
    kind: FrameKind,
    tag: TagView,
    opacity: Option<Num>,
    mode: Option<Seq<char>>,
)
    ensures
        same_but_for(out, with_anchored_flag(out, kind), kind),
        same_but_for(out, with_preference(out, kind, tag), kind),
        same_but_for(out, with_fitting(out, kind, tag), kind),
        same_but_for(out, with_blending(out, kind, opacity, mode), kind),
        same_but_for(out, with_item_effect(out, kind, tag), kind),
{
}

/// What is said of an image changes no other item, and nothing else of the spread.
pub proof fn law_image_edits_change_one_item(
    out: SpreadView,
    kind: FrameKind,
    is_image: bool,
    inline_pdf: bool,
    link: Option<Seq<char>>,
    placed: Option<Matrix>,
)
    ensures
        same_but_for(out, with_image(out, kind, is_image, inline_pdf, link, placed), kind),
{
}

/// The image that is given to an item of a kind that can hold one is the image that
/// it has, and the clipping path is the one that is given.
pub proof fn law_image_is_given_to_its_item(
    out: SpreadView,
    kind: FrameKind,
    bytes: Seq<u8>,
    clip: ClippingPathSettingsView,
)
    ensures
        same_but_for(out, with_image_bytes(out, kind, bytes), kind),
        same_but_for(out, with_image_clip(out, kind, clip), kind),
        has_item(out, kind) && (kind is Rect || kind is Oval || kind is Polygon) ==> image_at(
            with_image_bytes(out, kind, bytes),
            kind,
        ) == Some(bytes),
        has_item(out, kind) && (kind is Rect || kind is Oval || kind is Polygon) ==> clip_at(
            with_image_clip(out, kind, clip),
            kind,
        ) == Some(clip),
        image_at(with_image_clip(out, kind, clip), kind) == image_at(out, kind),
{
}

/// A text path stands behind the text paths that its item had, all of which stay.
pub proof fn law_text_paths_gather(out: SpreadView, kind: FrameKind, path: TextPathView)
    ensures
        same_but_for(out, with_text_path(out, kind, path), kind),
        text_paths_at(out, kind) matches Some(before) ==> (text_paths_at(
            with_text_path(out, kind, path),
            kind,
        ) matches Some(after) && has_one_more(before, after) && after.last() == path),
{
    if let Some(before) = text_paths_at(out, kind) {
        assert(before.push(path).drop_last() =~= before);
    }
}

/// A stop of a gradient feather stands behind the stops that were there, all of
/// which stay; all other effects of the item stay as they were.
pub proof fn law_feather_stops_gather(out: SpreadView, kind: FrameKind, tag: TagView)
    ensures
        same_but_for(out, with_feather_stop(out, kind, tag), kind),
        effects_at(out, kind) matches Some(a) ==> (a.gradient_feather matches Some(f) ==> (
        effects_at(with_feather_stop(out, kind, tag), kind) matches Some(b)
            && b.gradient_feather matches Some(g) && {
            &&& has_one_more(f.stops, g.stops)
            &&& g.stops.last() == feather_stop_of(tag)
            &&& g.start_point == f.start_point
            &&& g.end_point == f.end_point
            &&& b == (FrameEffectsView { gradient_feather: b.gradient_feather, ..a })
        })),
{
    if let Some(a) = effects_at(out, kind) {
        if let Some(f) = a.gradient_feather {
            assert(f.stops.push(feather_stop_of(tag)).drop_last() =~= f.stops);
        }
    }
}

/// No other effect is named `InnerShadowSetting`.
proof fn lemma_inner_shadow_name()
    ensures
        encode_utf8("InnerShadowSetting"@) != encode_utf8("OuterGlowSetting"@),
        encode_utf8("InnerShadowSetting"@) != encode_utf8("InnerGlowSetting"@),
        encode_utf8("InnerShadowSetting"@) != encode_utf8("BevelAndEmbossSetting"@),
        encode_utf8("InnerShadowSetting"@) != encode_utf8("SatinSetting"@),
        encode_utf8("InnerShadowSetting"@) != encode_utf8("FeatherSetting"@),
        encode_utf8("InnerShadowSetting"@) != encode_utf8("DirectionalFeatherSetting"@),
        encode_utf8("InnerShadowSetting"@) != encode_utf8("GradientFeatherSetting"@),
{
    reveal_strlit("InnerShadowSetting");
    reveal_strlit("OuterGlowSetting");
    reveal_strlit("InnerGlowSetting");
    reveal_strlit("BevelAndEmbossSetting");
    reveal_strlit("SatinSetting");
    reveal_strlit("FeatherSetting");
    reveal_strlit("DirectionalFeatherSetting");
    reveal_strlit("GradientFeatherSetting");
    law_names_differ("InnerShadowSetting"@, "OuterGlowSetting"@);
    law_names_differ("InnerShadowSetting"@, "InnerGlowSetting"@);
    law_names_differ("InnerShadowSetting"@, "BevelAndEmbossSetting"@);
    law_names_differ("InnerShadowSetting"@, "SatinSetting"@);
    law_names_differ("InnerShadowSetting"@, "FeatherSetting"@);
    law_names_differ("InnerShadowSetting"@, "DirectionalFeatherSetting"@);
    law_names_differ("InnerShadowSetting"@, "GradientFeatherSetting"@);
}

/// No other effect is named `OuterGlowSetting`.
proof fn lemma_outer_glow_name()
    ensures
        encode_utf8("OuterGlowSetting"@) != encode_utf8("InnerShadowSetting"@),
        encode_utf8("OuterGlowSetting"@) != encode_utf8("InnerGlowSetting"@),
        encode_utf8("OuterGlowSetting"@) != encode_utf8("BevelAndEmbossSetting"@),
        encode_utf8("OuterGlowSetting"@) != encode_utf8("SatinSetting"@),
        encode_utf8("OuterGlowSetting"@) != encode_utf8("FeatherSetting"@),
        encode_utf8("OuterGlowSetting"@) != encode_utf8("DirectionalFeatherSetting"@),
        encode_utf8("OuterGlowSetting"@) != encode_utf8("GradientFeatherSetting"@),
{
    reveal_strlit("OuterGlowSetting");
    reveal_strlit("InnerShadowSetting");
    reveal_strlit("InnerGlowSetting");
    reveal_strlit("BevelAndEmbossSetting");
    reveal_strlit("SatinSetting");
    reveal_strlit("FeatherSetting");
    reveal_strlit("DirectionalFeatherSetting");
    reveal_strlit("GradientFeatherSetting");
    law_names_differ("OuterGlowSetting"@, "InnerShadowSetting"@);
    assert("OuterGlowSetting"@[0] != "InnerGlowSetting"@[0]);
    law_names_differ("OuterGlowSetting"@, "InnerGlowSetting"@);
    law_names_differ("OuterGlowSetting"@, "BevelAndEmbossSetting"@);
    law_names_differ("OuterGlowSetting"@, "SatinSetting"@);
    law_names_differ("OuterGlowSetting"@, "FeatherSetting"@);
    law_names_differ("OuterGlowSetting"@, "DirectionalFeatherSetting"@);
    law_names_differ("OuterGlowSetting"@, "GradientFeatherSetting"@);
}

/// No other effect is named `InnerGlowSetting`.
proof fn lemma_inner_glow_name()
    ensures
        encode_utf8("InnerGlowSetting"@) != encode_utf8("InnerShadowSetting"@),
        encode_utf8("InnerGlowSetting"@) != encode_utf8("OuterGlowSetting"@),
        encode_utf8("InnerGlowSetting"@) != encode_utf8("BevelAndEmbossSetting"@),
        encode_utf8("InnerGlowSetting"@) != encode_utf8("SatinSetting"@),
        encode_utf8("InnerGlowSetting"@) != encode_utf8("FeatherSetting"@),
        encode_utf8("InnerGlowSetting"@) != encode_utf8("DirectionalFeatherSetting"@),
        encode_utf8("InnerGlowSetting"@) != encode_utf8("GradientFeatherSetting"@),
{
    reveal_strlit("InnerGlowSetting");
    reveal_strlit("InnerShadowSetting");
    reveal_strlit("OuterGlowSetting");
    reveal_strlit("BevelAndEmbossSetting");
    reveal_strlit("SatinSetting");
    reveal_strlit("FeatherSetting");
    reveal_strlit("DirectionalFeatherSetting");
    reveal_strlit("GradientFeatherSetting");
    law_names_differ("InnerGlowSetting"@, "InnerShadowSetting"@);
    assert("InnerGlowSetting"@[0] != "OuterGlowSetting"@[0]);
    law_names_differ("InnerGlowSetting"@, "OuterGlowSetting"@);
    law_names_differ("InnerGlowSetting"@, "BevelAndEmbossSetting"@);
    law_names_differ("InnerGlowSetting"@, "SatinSetting"@);
    law_names_differ("InnerGlowSetting"@, "FeatherSetting"@);
    law_names_differ("InnerGlowSetting"@, "DirectionalFeatherSetting"@);
    law_names_differ("InnerGlowSetting"@, "GradientFeatherSetting"@);
}

/// No other effect is named `BevelAndEmbossSetting`.
proof fn lemma_bevel_name()
    ensures
        encode_utf8("BevelAndEmbossSetting"@) != encode_utf8("InnerShadowSetting"@),
        encode_utf8("BevelAndEmbossSetting"@) != encode_utf8("OuterGlowSetting"@),
        encode_utf8("BevelAndEmbossSetting"@) != encode_utf8("InnerGlowSetting"@),
        encode_utf8("BevelAndEmbossSetting"@) != encode_utf8("SatinSetting"@),
        encode_utf8("BevelAndEmbossSetting"@) != encode_utf8("FeatherSetting"@),
        encode_utf8("BevelAndEmbossSetting"@) != encode_utf8("DirectionalFeatherSetting"@),
        encode_utf8("BevelAndEmbossSetting"@) != encode_utf8("GradientFeatherSetting"@),
{
    reveal_strlit("BevelAndEmbossSetting");
    reveal_strlit("InnerShadowSetting");
    reveal_strlit("OuterGlowSetting");
    reveal_strlit("InnerGlowSetting");
    reveal_strlit("SatinSetting");
    reveal_strlit("FeatherSetting");
    reveal_strlit("DirectionalFeatherSetting");
    reveal_strlit("GradientFeatherSetting");
    law_names_differ("BevelAndEmbossSetting"@, "InnerShadowSetting"@);
    law_names_differ("BevelAndEmbossSetting"@, "OuterGlowSetting"@);
    law_names_differ("BevelAndEmbossSetting"@, "InnerGlowSetting"@);
    law_names_differ("BevelAndEmbossSetting"@, "SatinSetting"@);
    law_names_differ("BevelAndEmbossSetting"@, "FeatherSetting"@);
    law_names_differ("BevelAndEmbossSetting"@, "DirectionalFeatherSetting"@);
    law_names_differ("BevelAndEmbossSetting"@, "GradientFeatherSetting"@);
}

/// No other effect is named `SatinSetting`.
proof fn lemma_satin_name()
    ensures
        encode_utf8("SatinSetting"@) != encode_utf8("InnerShadowSetting"@),
        encode_utf8("SatinSetting"@) != encode_utf8("OuterGlowSetting"@),
        encode_utf8("SatinSetting"@) != encode_utf8("InnerGlowSetting"@),
        encode_utf8("SatinSetting"@) != encode_utf8("BevelAndEmbossSetting"@),
        encode_utf8("SatinSetting"@) != encode_utf8("FeatherSetting"@),
        encode_utf8("SatinSetting"@) != encode_utf8("DirectionalFeatherSetting"@),
        encode_utf8("SatinSetting"@) != encode_utf8("GradientFeatherSetting"@),
{
    reveal_strlit("SatinSetting");
    reveal_strlit("InnerShadowSetting");
    reveal_strlit("OuterGlowSetting");
    reveal_strlit("InnerGlowSetting");
    reveal_strlit("BevelAndEmbossSetting");
    reveal_strlit("FeatherSetting");
    reveal_strlit("DirectionalFeatherSetting");
    reveal_strlit("GradientFeatherSetting");
    law_names_differ("SatinSetting"@, "InnerShadowSetting"@);
    law_names_differ("SatinSetting"@, "OuterGlowSetting"@);
    law_names_differ("SatinSetting"@, "InnerGlowSetting"@);
    law_names_differ("SatinSetting"@, "BevelAndEmbossSetting"@);
    law_names_differ("SatinSetting"@, "FeatherSetting"@);
    law_names_differ("SatinSetting"@, "DirectionalFeatherSetting"@);
    law_names_differ("SatinSetting"@, "GradientFeatherSetting"@);
}

/// No other effect is named `FeatherSetting`.
proof fn lemma_feather_name()
    ensures
        encode_utf8("FeatherSetting"@) != encode_utf8("InnerShadowSetting"@),
        encode_utf8("FeatherSetting"@) != encode_utf8("OuterGlowSetting"@),
        encode_utf8("FeatherSetting"@) != encode_utf8("InnerGlowSetting"@),
        encode_utf8("FeatherSetting"@) != encode_utf8("BevelAndEmbossSetting"@),
        encode_utf8("FeatherSetting"@) != encode_utf8("SatinSetting"@),
        encode_utf8("FeatherSetting"@) != encode_utf8("DirectionalFeatherSetting"@),
        encode_utf8("FeatherSetting"@) != encode_utf8("GradientFeatherSetting"@),
{
    reveal_strlit("FeatherSetting");
    reveal_strlit("InnerShadowSetting");
    reveal_strlit("OuterGlowSetting");
    reveal_strlit("InnerGlowSetting");
    reveal_strlit("BevelAndEmbossSetting");
    reveal_strlit("SatinSetting");
    reveal_strlit("DirectionalFeatherSetting");
    reveal_strlit("GradientFeatherSetting");
    law_names_differ("FeatherSetting"@, "InnerShadowSetting"@);
    law_names_differ("FeatherSetting"@, "OuterGlowSetting"@);
    law_names_differ("FeatherSetting"@, "InnerGlowSetting"@);
    law_names_differ("FeatherSetting"@, "BevelAndEmbossSetting"@);
    law_names_differ("FeatherSetting"@, "SatinSetting"@);
    law_names_differ("FeatherSetting"@, "DirectionalFeatherSetting"@);
    law_names_differ("FeatherSetting"@, "GradientFeatherSetting"@);
}

/// No other effect is named `DirectionalFeatherSetting`.
proof fn lemma_directional_feather_name()
    ensures
        encode_utf8("DirectionalFeatherSetting"@) != encode_utf8("InnerShadowSetting"@),
        encode_utf8("DirectionalFeatherSetting"@) != encode_utf8("OuterGlowSetting"@),
        encode_utf8("DirectionalFeatherSetting"@) != encode_utf8("InnerGlowSetting"@),
        encode_utf8("DirectionalFeatherSetting"@) != encode_utf8("BevelAndEmbossSetting"@),
        encode_utf8("DirectionalFeatherSetting"@) != encode_utf8("SatinSetting"@),
        encode_utf8("DirectionalFeatherSetting"@) != encode_utf8("FeatherSetting"@),
        encode_utf8("DirectionalFeatherSetting"@) != encode_utf8("GradientFeatherSetting"@),
{
    reveal_strlit("DirectionalFeatherSetting");
    reveal_strlit("InnerShadowSetting");
    reveal_strlit("OuterGlowSetting");
    reveal_strlit("InnerGlowSetting");
    reveal_strlit("BevelAndEmbossSetting");
    reveal_strlit("SatinSetting");
    reveal_strlit("FeatherSetting");
    reveal_strlit("GradientFeatherSetting");
    law_names_differ("DirectionalFeatherSetting"@, "InnerShadowSetting"@);
    law_names_differ("DirectionalFeatherSetting"@, "OuterGlowSetting"@);
    law_names_differ("DirectionalFeatherSetting"@, "InnerGlowSetting"@);
    law_names_differ("DirectionalFeatherSetting"@, "BevelAndEmbossSetting"@);
    law_names_differ("DirectionalFeatherSetting"@, "SatinSetting"@);
    law_names_differ("DirectionalFeatherSetting"@, "FeatherSetting"@);
    law_names_differ("DirectionalFeatherSetting"@, "GradientFeatherSetting"@);
}

/// No other effect is named `GradientFeatherSetting`.
proof fn lemma_gradient_feather_name()
    ensures
        encode_utf8("GradientFeatherSetting"@) != encode_utf8("InnerShadowSetting"@),
        encode_utf8("GradientFeatherSetting"@) != encode_utf8("OuterGlowSetting"@),
        encode_utf8("GradientFeatherSetting"@) != encode_utf8("InnerGlowSetting"@),
        encode_utf8("GradientFeatherSetting"@) != encode_utf8("BevelAndEmbossSetting"@),
        encode_utf8("GradientFeatherSetting"@) != encode_utf8("SatinSetting"@),
        encode_utf8("GradientFeatherSetting"@) != encode_utf8("FeatherSetting"@),
        encode_utf8("GradientFeatherSetting"@) != encode_utf8("DirectionalFeatherSetting"@),
{
    reveal_strlit("GradientFeatherSetting");
    reveal_strlit("InnerShadowSetting");
    reveal_strlit("OuterGlowSetting");
    reveal_strlit("InnerGlowSetting");
    reveal_strlit("BevelAndEmbossSetting");
    reveal_strlit("SatinSetting");
    reveal_strlit("FeatherSetting");
    reveal_strlit("DirectionalFeatherSetting");
    law_names_differ("GradientFeatherSetting"@, "InnerShadowSetting"@);
    law_names_differ("GradientFeatherSetting"@, "OuterGlowSetting"@);
    law_names_differ("GradientFeatherSetting"@, "InnerGlowSetting"@);
    law_names_differ("GradientFeatherSetting"@, "BevelAndEmbossSetting"@);
    law_names_differ("GradientFeatherSetting"@, "SatinSetting"@);
    law_names_differ("GradientFeatherSetting"@, "FeatherSetting"@);
    law_names_differ("GradientFeatherSetting"@, "DirectionalFeatherSetting"@);
}

/// An effect is given to what has others: it is there then, and those of other kinds
/// stay as they were.
pub proof fn law_effects_gather(before: FrameEffectsView, tag: TagView)
    requires
        is_effect(tag),
    ensures
        ({
            let after = with_effect(before, tag);
            &&& if tag.is("InnerShadowSetting"@) {
                after.inner_shadow is Some
            } else {
                after.inner_shadow == before.inner_shadow
            }
            &&& if tag.is("OuterGlowSetting"@) {
                after.outer_glow is Some
            } else {
                after.outer_glow == before.outer_glow
            }
            &&& if tag.is("InnerGlowSetting"@) {
                after.inner_glow is Some
            } else {
                after.inner_glow == before.inner_glow
            }
            &&& if tag.is("BevelAndEmbossSetting"@) {
                after.bevel is Some
            } else {
                after.bevel == before.bevel
            }
            &&& if tag.is("SatinSetting"@) {
                after.satin is Some
            } else {
                after.satin == before.satin
            }
            &&& if tag.is("FeatherSetting"@) {
                after.feather is Some
            } else {
                after.feather == before.feather
            }
            &&& if tag.is("DirectionalFeatherSetting"@) {
                after.directional_feather is Some
            } else {
                after.directional_feather == before.directional_feather
            }
            &&& if tag.is("GradientFeatherSetting"@) {
                after.gradient_feather is Some
            } else {
                after.gradient_feather == before.gradient_feather
            }
        }),
{
    lemma_inner_shadow_name();
    lemma_outer_glow_name();
    lemma_inner_glow_name();
    lemma_bevel_name();
    lemma_satin_name();
    lemma_feather_name();
    lemma_directional_feather_name();
    lemma_gradient_feather_name();
}

/// The effect that a tag states is added to the effects of the item that is open.
pub proof fn law_effect_is_given_to_its_item(out: SpreadView, kind: FrameKind, tag: TagView)
    requires
        has_item(out, kind),
    ensures
        effects_at(with_item_effect(out, kind, tag), kind) == Some(
            with_effect(
                match effects_at(out, kind) {
                    Some(before) => before,
                    None => no_effects(),
                },
                tag,
            ),
        ),
{
}

/// How opaque an item is.
pub open spec fn opacity_at(out: SpreadView, kind: FrameKind) -> Option<Num> {
    match kind {
        FrameKind::Text(i) => if i < out.text_frames.len() {
            out.text_frames[i as int].opacity
        } else {
            None
        },
        FrameKind::Rect(i) => if i < out.rectangles.len() {
            out.rectangles[i as int].opacity
        } else {
            None
        },
        FrameKind::Oval(i) => if i < out.ovals.len() {
            out.ovals[i as int].opacity
        } else {
            None
        },
        FrameKind::Polygon(i) => if i < out.polygons.len() {
            out.polygons[i as int].opacity
        } else {
            None
        },
        _ => None,
    }
}

/// The opacity that is stated is the one that the item has; one that is not stated
/// leaves the one it had.
pub proof fn law_opacity_is_given_to_its_item(
    out: SpreadView,
    kind: FrameKind,
    opacity: Option<Num>,
    mode: Option<Seq<char>>,
)
    requires
        has_item(out, kind),
        !(kind is Line),
    ensures
        opacity_at(with_blending(out, kind, opacity, mode), kind) == if opacity is Some {
            opacity
        } else {
            opacity_at(out, kind)
        },
{
}

/// A label is given to its item: the value stands under its key, and all labels under
/// other keys stay, as do the labels of all other items.
pub proof fn law_labels_gather(
    out: SpreadView,
    kind: FrameKind,
    tag: TagView,
    id: Seq<char>,
    key: Seq<char>,
    value: Seq<char>,
)
    requires
        identifier_at(out, kind) == Some(id),
        tag.unescaped("Key"@) == Some(key),
        tag.unescaped("Value"@) == Some(value),
    ensures
        ({
            let after = with_key_value(out, kind, tag);
            &&& after.labels.dom().contains(id)
            &&& exists|i: int|
                0 <= i < after.labels[id].len() && #[trigger] after.labels[id][i] == (key, value)
            &&& out.labels.dom().contains(id) ==> forall|i: int|
                0 <= i < out.labels[id].len() && (#[trigger] out.labels[id][i]).0 != key
                    ==> after.labels[id].contains(out.labels[id][i])
            &&& forall|other: Seq<char>|
                other != id && #[trigger] out.labels.dom().contains(other)
                    ==> after.labels.dom().contains(other) && after.labels[other]
                    == out.labels[other]
            &&& out == (SpreadView { labels: out.labels, ..after })
        }),
{
    let after = with_key_value(out, kind, tag);
    let entries = labels_at(out, id);
    law_later_label_stands(entries, key, value);
    assert(after.labels[id] == with_label(entries, key, value));
    if out.labels.dom().contains(id) {
        assert(entries == out.labels[id]);
        assert forall|i: int|
            0 <= i < out.labels[id].len() && (#[trigger] out.labels[id][i]).0 != key implies
            after.labels[id].contains(out.labels[id][i]) by {
            assert(after.labels[id][i] == entries[i]);
        }
    }
}

/// The offsets of a wrap and its contour are given to the wrap of their item, each
/// without changing what the wrap says else.
pub proof fn law_wrap_gathers(
    st: ProgressView,
    cf: CurrentFrameView,
    offsets: TagView,
    contour: TagView,
    wrap: TextWrap,
)
    requires
        has_item(st.out, cf.kind),
        cf.in_text_wrap,
        text_wrap_at(st.out, cf.kind) == Some(wrap),
        offsets.is("TextWrapOffset"@),
        !offsets.is("TextWrapPreference"@),
        !contour.is("TextWrapPreference"@),
        !contour.is("TextWrapOffset"@),
    ensures
        text_wrap_at(after_wrap(st, cf, offsets).out, cf.kind) matches Some(w) && {
            &&& w.offsets == wrap_offsets_of(offsets)
            &&& w == (TextWrap { offsets: w.offsets, ..wrap })
        },
        text_wrap_at(after_wrap(st, cf, contour).out, cf.kind) matches Some(w) && {
            &&& w.contour_type == contour_type_of(contour)
            &&& w == (TextWrap {
                contour_type: w.contour_type,
                include_inside_edges: w.include_inside_edges,
                ..wrap
            })
        },
{
}

/// The shadow and the blending of a group are given to the innermost group that is
/// open, each without changing what else it says; its members and all other groups
/// stay.
pub proof fn law_group_look_gathers(
    builders: Seq<GroupBuilderView>,
    shadow: DropShadowSettingView,
    opacity: Option<Num>,
    mode: Option<Seq<char>>,
)
    requires
        builders.len() > 0,
    ensures
        ({
            let before = builders.last();
            let a = with_group_shadow(builders, shadow);
            let b = with_group_blending(builders, opacity, mode);
            &&& a.len() == builders.len()
            &&& b.len() == builders.len()
            &&& a.drop_last() == builders.drop_last()
            &&& b.drop_last() == builders.drop_last()
            &&& a.last().members == before.members
            &&& b.last().members == before.members
            &&& a.last().transparency.drop_shadow == Some(shadow)
            &&& a.last().transparency.opacity == before.transparency.opacity
            &&& a.last().transparency.blend_mode == before.transparency.blend_mode
            &&& b.last().transparency.drop_shadow == before.transparency.drop_shadow
            &&& b.last().transparency.opacity == if opacity is Some {
                opacity
            } else {
                before.transparency.opacity
            }
            &&& b.last().transparency.blend_mode == if mode is Some {
                mode
            } else {
                before.transparency.blend_mode
            }
        }),
{
    let a = with_group_shadow(builders, shadow);
    let b = with_group_blending(builders, opacity, mode);
    assert(a.drop_last() =~= builders.drop_last());
    assert(b.drop_last() =~= builders.drop_last());
}

/// No other closing tag is `Contents`.
proof fn lemma_contents_name()
    ensures
        encode_utf8("Contents"@) != encode_utf8("Group"@),
        encode_utf8("Contents"@) != encode_utf8("TextFrame"@),
        encode_utf8("Contents"@) != encode_utf8("Rectangle"@),
        encode_utf8("Contents"@) != encode_utf8("Oval"@),
        encode_utf8("Contents"@) != encode_utf8("GraphicLine"@),
        encode_utf8("Contents"@) != encode_utf8("Polygon"@),
        encode_utf8("Contents"@) != encode_utf8("StrokeTransparencySetting"@),
        encode_utf8("Contents"@) != encode_utf8("ContentTransparencySetting"@),
        encode_utf8("Contents"@) != encode_utf8("GradientFeatherSetting"@),
{
    reveal_strlit("Contents");
    reveal_strlit("Group");
    reveal_strlit("TextFrame");
    reveal_strlit("Rectangle");
    reveal_strlit("Oval");
    reveal_strlit("GraphicLine");
    reveal_strlit("Polygon");
    reveal_strlit("StrokeTransparencySetting");
    reveal_strlit("ContentTransparencySetting");
    reveal_strlit("GradientFeatherSetting");
    law_names_differ("Contents"@, "Group"@);
    law_names_differ("Contents"@, "TextFrame"@);
    law_names_differ("Contents"@, "Rectangle"@);
    law_names_differ("Contents"@, "Oval"@);
    law_names_differ("Contents"@, "GraphicLine"@);
    law_names_differ("Contents"@, "Polygon"@);
    law_names_differ("Contents"@, "StrokeTransparencySetting"@);
    law_names_differ("Contents"@, "ContentTransparencySetting"@);
    law_names_differ("Contents"@, "GradientFeatherSetting"@);
}

/// The content of an image is all the data that stands in it, in order; once it
/// closes, the item has the image that the content writes, and no other item changes.
pub proof fn law_image_content_gathers(st: ProgressView, kind: FrameKind, raw: Seq<u8>)
    requires
        st.contents_target == Some(kind),
    ensures
        after_event(st, EventView::Text(raw)).contents == st.contents + raw,
        after_event(st, EventView::CData(raw)).contents == st.contents + raw,
        after_event(st, EventView::Text(raw)).out == st.out,
        ({
            let after = after_event(st, EventView::End(encode_utf8("Contents"@)));
            &&& same_but_for(st.out, after.out, kind)
            &&& after.contents_target is None
            &&& has_item(st.out, kind) && (kind is Rect || kind is Oval || kind is Polygon) ==> (
            base64_decoded(cleaned(st.contents)) matches Some(image) ==> image_at(after.out, kind)
                == Some(image))
        }),
{
    lemma_contents_name();
    if let Some(image) = base64_decoded(cleaned(st.contents)) {
        assert(same_but_for(st.out, with_image_bytes(st.out, kind, image), kind));
    }
}

} // verus!
