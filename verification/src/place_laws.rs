//! Where the things of a spread stand: pages, guides, groups and items are added
//! behind what was there, in the order in which their tags stand, and nothing that
//! was there is lost.
use crate::edits::{
    with_anchored_flag, with_feather_stop, with_fitting, with_image_bytes,
    with_image_clip, with_outline, with_preference, with_text_path, FrameKind,
};
use crate::geometry::PathAnchor;
use crate::page_items::{FrameRef, GroupView, PageView, RulerGuide, SpreadView, TextPathView};
use crate::shapes::{
    graphic_line_of, guide_of, oval_of, page_of, path_anchor_of, polygon_of, rectangle_of,
    text_frame_of, text_path_of,
};
use crate::spread::{
    after_blending, after_close, after_detail, after_effect, after_end, after_event, after_events,
    after_group_end, after_image, after_layout, after_look, after_open, after_shadow, after_shape,
    after_transparency, after_transparency_end, after_wrap, is_shape, registered, spread_of,
    with_key_value, CurrentFrameView, GroupBuilderView, ProgressView,
};
use crate::transform_laws::open_transforms;
use crate::xml::{law_names_differ, EventView, TagView};
use vstd::prelude::*;
use vstd::utf8::encode_utf8;

verus! {

/// No other name is `Group`.
proof fn lemma_group_name()
    ensures
        encode_utf8("Group"@) != encode_utf8("TextFrame"@),
        encode_utf8("Group"@) != encode_utf8("Rectangle"@),
        encode_utf8("Group"@) != encode_utf8("Oval"@),
        encode_utf8("Group"@) != encode_utf8("GraphicLine"@),
        encode_utf8("Group"@) != encode_utf8("Polygon"@),
        encode_utf8("Group"@) != encode_utf8("AnchoredObjectSetting"@),
        encode_utf8("Group"@) != encode_utf8("GeometryPathType"@),
        encode_utf8("Group"@) != encode_utf8("KeyValuePair"@),
        encode_utf8("Group"@) != encode_utf8("PathPointType"@),
        encode_utf8("Group"@) != encode_utf8("TextWrapPreference"@),
        encode_utf8("Group"@) != encode_utf8("TextWrapOffset"@),
        encode_utf8("Group"@) != encode_utf8("ContourOption"@),
        encode_utf8("Group"@) != encode_utf8("TextFramePreference"@),
        encode_utf8("Group"@) != encode_utf8("Image"@),
        encode_utf8("Group"@) != encode_utf8("EPSImage"@),
        encode_utf8("Group"@) != encode_utf8("PDF"@),
        encode_utf8("Group"@) != encode_utf8("ImportedPage"@),
        encode_utf8("Group"@) != encode_utf8("Link"@),
        encode_utf8("Group"@) != encode_utf8("ClippingPathSettings"@),
        encode_utf8("Group"@) != encode_utf8("Contents"@),
        encode_utf8("Group"@) != encode_utf8("FrameFittingOption"@),
        encode_utf8("Group"@) != encode_utf8("TextPath"@),
        encode_utf8("Group"@) != encode_utf8("StrokeTransparencySetting"@),
        encode_utf8("Group"@) != encode_utf8("ContentTransparencySetting"@),
        encode_utf8("Group"@) != encode_utf8("DropShadowSetting"@),
        encode_utf8("Group"@) != encode_utf8("InnerShadowSetting"@),
        encode_utf8("Group"@) != encode_utf8("OuterGlowSetting"@),
        encode_utf8("Group"@) != encode_utf8("InnerGlowSetting"@),
        encode_utf8("Group"@) != encode_utf8("BevelAndEmbossSetting"@),
        encode_utf8("Group"@) != encode_utf8("SatinSetting"@),
        encode_utf8("Group"@) != encode_utf8("FeatherSetting"@),
        encode_utf8("Group"@) != encode_utf8("DirectionalFeatherSetting"@),
        encode_utf8("Group"@) != encode_utf8("GradientFeatherSetting"@),
        encode_utf8("Group"@) != encode_utf8("GradientStop"@),
        encode_utf8("Group"@) != encode_utf8("OpacityGradientStop"@),
        encode_utf8("Group"@) != encode_utf8("BlendingSetting"@),
        encode_utf8("Group"@) != encode_utf8("Spread"@),
        encode_utf8("Group"@) != encode_utf8("MasterSpread"@),
        encode_utf8("Group"@) != encode_utf8("Guide"@),
        encode_utf8("Group"@) != encode_utf8("Page"@),
{
    reveal_strlit("Group");
    reveal_strlit("TextFrame");
    reveal_strlit("Rectangle");
    reveal_strlit("Oval");
    reveal_strlit("GraphicLine");
    reveal_strlit("Polygon");
    reveal_strlit("AnchoredObjectSetting");
    reveal_strlit("GeometryPathType");
    reveal_strlit("KeyValuePair");
    reveal_strlit("PathPointType");
    reveal_strlit("TextWrapPreference");
    reveal_strlit("TextWrapOffset");
    reveal_strlit("ContourOption");
    reveal_strlit("TextFramePreference");
    reveal_strlit("Image");
    reveal_strlit("EPSImage");
    reveal_strlit("PDF");
    reveal_strlit("ImportedPage");
    reveal_strlit("Link");
    reveal_strlit("ClippingPathSettings");
    reveal_strlit("Contents");
    reveal_strlit("FrameFittingOption");
    reveal_strlit("TextPath");
    reveal_strlit("StrokeTransparencySetting");
    reveal_strlit("ContentTransparencySetting");
    reveal_strlit("DropShadowSetting");
    reveal_strlit("InnerShadowSetting");
    reveal_strlit("OuterGlowSetting");
    reveal_strlit("InnerGlowSetting");
    reveal_strlit("BevelAndEmbossSetting");
    reveal_strlit("SatinSetting");
    reveal_strlit("FeatherSetting");
    reveal_strlit("DirectionalFeatherSetting");
    reveal_strlit("GradientFeatherSetting");
    reveal_strlit("GradientStop");
    reveal_strlit("OpacityGradientStop");
    reveal_strlit("BlendingSetting");
    reveal_strlit("Spread");
    reveal_strlit("MasterSpread");
    reveal_strlit("Guide");
    reveal_strlit("Page");
    law_names_differ("Group"@, "TextFrame"@);
    law_names_differ("Group"@, "Rectangle"@);
    law_names_differ("Group"@, "Oval"@);
    law_names_differ("Group"@, "GraphicLine"@);
    law_names_differ("Group"@, "Polygon"@);
    law_names_differ("Group"@, "AnchoredObjectSetting"@);
    law_names_differ("Group"@, "GeometryPathType"@);
    law_names_differ("Group"@, "KeyValuePair"@);
    law_names_differ("Group"@, "PathPointType"@);
    law_names_differ("Group"@, "TextWrapPreference"@);
    law_names_differ("Group"@, "TextWrapOffset"@);
    law_names_differ("Group"@, "ContourOption"@);
    law_names_differ("Group"@, "TextFramePreference"@);
    assert("Group"@[0] != "Image"@[0]);
    law_names_differ("Group"@, "Image"@);
    law_names_differ("Group"@, "EPSImage"@);
    law_names_differ("Group"@, "PDF"@);
    law_names_differ("Group"@, "ImportedPage"@);
    law_names_differ("Group"@, "Link"@);
    law_names_differ("Group"@, "ClippingPathSettings"@);
    law_names_differ("Group"@, "Contents"@);
    law_names_differ("Group"@, "FrameFittingOption"@);
    law_names_differ("Group"@, "TextPath"@);
    law_names_differ("Group"@, "StrokeTransparencySetting"@);
    law_names_differ("Group"@, "ContentTransparencySetting"@);
    law_names_differ("Group"@, "DropShadowSetting"@);
    law_names_differ("Group"@, "InnerShadowSetting"@);
    law_names_differ("Group"@, "OuterGlowSetting"@);
    law_names_differ("Group"@, "InnerGlowSetting"@);
    law_names_differ("Group"@, "BevelAndEmbossSetting"@);
    law_names_differ("Group"@, "SatinSetting"@);
    law_names_differ("Group"@, "FeatherSetting"@);
    law_names_differ("Group"@, "DirectionalFeatherSetting"@);
    law_names_differ("Group"@, "GradientFeatherSetting"@);
    law_names_differ("Group"@, "GradientStop"@);
    law_names_differ("Group"@, "OpacityGradientStop"@);
    law_names_differ("Group"@, "BlendingSetting"@);
    law_names_differ("Group"@, "Spread"@);
    law_names_differ("Group"@, "MasterSpread"@);
    assert("Group"@[1] != "Guide"@[1]);
    law_names_differ("Group"@, "Guide"@);
    law_names_differ("Group"@, "Page"@);
}

/// No other name is `Guide`.
proof fn lemma_guide_name()
    ensures
        encode_utf8("Guide"@) != encode_utf8("TextFrame"@),
        encode_utf8("Guide"@) != encode_utf8("Rectangle"@),
        encode_utf8("Guide"@) != encode_utf8("Oval"@),
        encode_utf8("Guide"@) != encode_utf8("GraphicLine"@),
        encode_utf8("Guide"@) != encode_utf8("Polygon"@),
        encode_utf8("Guide"@) != encode_utf8("AnchoredObjectSetting"@),
        encode_utf8("Guide"@) != encode_utf8("GeometryPathType"@),
        encode_utf8("Guide"@) != encode_utf8("KeyValuePair"@),
        encode_utf8("Guide"@) != encode_utf8("PathPointType"@),
        encode_utf8("Guide"@) != encode_utf8("TextWrapPreference"@),
        encode_utf8("Guide"@) != encode_utf8("TextWrapOffset"@),
        encode_utf8("Guide"@) != encode_utf8("ContourOption"@),
        encode_utf8("Guide"@) != encode_utf8("TextFramePreference"@),
        encode_utf8("Guide"@) != encode_utf8("Image"@),
        encode_utf8("Guide"@) != encode_utf8("EPSImage"@),
        encode_utf8("Guide"@) != encode_utf8("PDF"@),
        encode_utf8("Guide"@) != encode_utf8("ImportedPage"@),
        encode_utf8("Guide"@) != encode_utf8("Link"@),
        encode_utf8("Guide"@) != encode_utf8("ClippingPathSettings"@),
        encode_utf8("Guide"@) != encode_utf8("Contents"@),
        encode_utf8("Guide"@) != encode_utf8("FrameFittingOption"@),
        encode_utf8("Guide"@) != encode_utf8("TextPath"@),
        encode_utf8("Guide"@) != encode_utf8("StrokeTransparencySetting"@),
        encode_utf8("Guide"@) != encode_utf8("ContentTransparencySetting"@),
        encode_utf8("Guide"@) != encode_utf8("DropShadowSetting"@),
        encode_utf8("Guide"@) != encode_utf8("InnerShadowSetting"@),
        encode_utf8("Guide"@) != encode_utf8("OuterGlowSetting"@),
        encode_utf8("Guide"@) != encode_utf8("InnerGlowSetting"@),
        encode_utf8("Guide"@) != encode_utf8("BevelAndEmbossSetting"@),
        encode_utf8("Guide"@) != encode_utf8("SatinSetting"@),
        encode_utf8("Guide"@) != encode_utf8("FeatherSetting"@),
        encode_utf8("Guide"@) != encode_utf8("DirectionalFeatherSetting"@),
        encode_utf8("Guide"@) != encode_utf8("GradientFeatherSetting"@),
        encode_utf8("Guide"@) != encode_utf8("GradientStop"@),
        encode_utf8("Guide"@) != encode_utf8("OpacityGradientStop"@),
        encode_utf8("Guide"@) != encode_utf8("BlendingSetting"@),
        encode_utf8("Guide"@) != encode_utf8("Spread"@),
        encode_utf8("Guide"@) != encode_utf8("MasterSpread"@),
        encode_utf8("Guide"@) != encode_utf8("Group"@),
        encode_utf8("Guide"@) != encode_utf8("Page"@),
{
    reveal_strlit("Guide");
    reveal_strlit("TextFrame");
    reveal_strlit("Rectangle");
    reveal_strlit("Oval");
    reveal_strlit("GraphicLine");
    reveal_strlit("Polygon");
    reveal_strlit("AnchoredObjectSetting");
    reveal_strlit("GeometryPathType");
    reveal_strlit("KeyValuePair");
    reveal_strlit("PathPointType");
    reveal_strlit("TextWrapPreference");
    reveal_strlit("TextWrapOffset");
    reveal_strlit("ContourOption");
    reveal_strlit("TextFramePreference");
    reveal_strlit("Image");
    reveal_strlit("EPSImage");
    reveal_strlit("PDF");
    reveal_strlit("ImportedPage");
    reveal_strlit("Link");
    reveal_strlit("ClippingPathSettings");
    reveal_strlit("Contents");
    reveal_strlit("FrameFittingOption");
    reveal_strlit("TextPath");
    reveal_strlit("StrokeTransparencySetting");
    reveal_strlit("ContentTransparencySetting");
    reveal_strlit("DropShadowSetting");
    reveal_strlit("InnerShadowSetting");
    reveal_strlit("OuterGlowSetting");
    reveal_strlit("InnerGlowSetting");
    reveal_strlit("BevelAndEmbossSetting");
    reveal_strlit("SatinSetting");
    reveal_strlit("FeatherSetting");
    reveal_strlit("DirectionalFeatherSetting");
    reveal_strlit("GradientFeatherSetting");
    reveal_strlit("GradientStop");
    reveal_strlit("OpacityGradientStop");
    reveal_strlit("BlendingSetting");
    reveal_strlit("Spread");
    reveal_strlit("MasterSpread");
    reveal_strlit("Group");
    reveal_strlit("Page");
    law_names_differ("Guide"@, "TextFrame"@);
    law_names_differ("Guide"@, "Rectangle"@);
    law_names_differ("Guide"@, "Oval"@);
    law_names_differ("Guide"@, "GraphicLine"@);
    law_names_differ("Guide"@, "Polygon"@);
    law_names_differ("Guide"@, "AnchoredObjectSetting"@);
    law_names_differ("Guide"@, "GeometryPathType"@);
    law_names_differ("Guide"@, "KeyValuePair"@);
    law_names_differ("Guide"@, "PathPointType"@);
    law_names_differ("Guide"@, "TextWrapPreference"@);
    law_names_differ("Guide"@, "TextWrapOffset"@);
    law_names_differ("Guide"@, "ContourOption"@);
    law_names_differ("Guide"@, "TextFramePreference"@);
    assert("Guide"@[0] != "Image"@[0]);
    law_names_differ("Guide"@, "Image"@);
    law_names_differ("Guide"@, "EPSImage"@);
    law_names_differ("Guide"@, "PDF"@);
    law_names_differ("Guide"@, "ImportedPage"@);
    law_names_differ("Guide"@, "Link"@);
    law_names_differ("Guide"@, "ClippingPathSettings"@);
    law_names_differ("Guide"@, "Contents"@);
    law_names_differ("Guide"@, "FrameFittingOption"@);
    law_names_differ("Guide"@, "TextPath"@);
    law_names_differ("Guide"@, "StrokeTransparencySetting"@);
    law_names_differ("Guide"@, "ContentTransparencySetting"@);
    law_names_differ("Guide"@, "DropShadowSetting"@);
    law_names_differ("Guide"@, "InnerShadowSetting"@);
    law_names_differ("Guide"@, "OuterGlowSetting"@);
    law_names_differ("Guide"@, "InnerGlowSetting"@);
    law_names_differ("Guide"@, "BevelAndEmbossSetting"@);
    law_names_differ("Guide"@, "SatinSetting"@);
    law_names_differ("Guide"@, "FeatherSetting"@);
    law_names_differ("Guide"@, "DirectionalFeatherSetting"@);
    law_names_differ("Guide"@, "GradientFeatherSetting"@);
    law_names_differ("Guide"@, "GradientStop"@);
    law_names_differ("Guide"@, "OpacityGradientStop"@);
    law_names_differ("Guide"@, "BlendingSetting"@);
    law_names_differ("Guide"@, "Spread"@);
    law_names_differ("Guide"@, "MasterSpread"@);
    assert("Guide"@[1] != "Group"@[1]);
    law_names_differ("Guide"@, "Group"@);
    law_names_differ("Guide"@, "Page"@);
}

/// No other name is `Page`.
proof fn lemma_page_name()
    ensures
        encode_utf8("Page"@) != encode_utf8("TextFrame"@),
        encode_utf8("Page"@) != encode_utf8("Rectangle"@),
        encode_utf8("Page"@) != encode_utf8("Oval"@),
        encode_utf8("Page"@) != encode_utf8("GraphicLine"@),
        encode_utf8("Page"@) != encode_utf8("Polygon"@),
        encode_utf8("Page"@) != encode_utf8("AnchoredObjectSetting"@),
        encode_utf8("Page"@) != encode_utf8("GeometryPathType"@),
        encode_utf8("Page"@) != encode_utf8("KeyValuePair"@),
        encode_utf8("Page"@) != encode_utf8("PathPointType"@),
        encode_utf8("Page"@) != encode_utf8("TextWrapPreference"@),
        encode_utf8("Page"@) != encode_utf8("TextWrapOffset"@),
        encode_utf8("Page"@) != encode_utf8("ContourOption"@),
        encode_utf8("Page"@) != encode_utf8("TextFramePreference"@),
        encode_utf8("Page"@) != encode_utf8("Image"@),
        encode_utf8("Page"@) != encode_utf8("EPSImage"@),
        encode_utf8("Page"@) != encode_utf8("PDF"@),
        encode_utf8("Page"@) != encode_utf8("ImportedPage"@),
        encode_utf8("Page"@) != encode_utf8("Link"@),
        encode_utf8("Page"@) != encode_utf8("ClippingPathSettings"@),
        encode_utf8("Page"@) != encode_utf8("Contents"@),
        encode_utf8("Page"@) != encode_utf8("FrameFittingOption"@),
        encode_utf8("Page"@) != encode_utf8("TextPath"@),
        encode_utf8("Page"@) != encode_utf8("StrokeTransparencySetting"@),
        encode_utf8("Page"@) != encode_utf8("ContentTransparencySetting"@),
        encode_utf8("Page"@) != encode_utf8("DropShadowSetting"@),
        encode_utf8("Page"@) != encode_utf8("InnerShadowSetting"@),
        encode_utf8("Page"@) != encode_utf8("OuterGlowSetting"@),
        encode_utf8("Page"@) != encode_utf8("InnerGlowSetting"@),
        encode_utf8("Page"@) != encode_utf8("BevelAndEmbossSetting"@),
        encode_utf8("Page"@) != encode_utf8("SatinSetting"@),
        encode_utf8("Page"@) != encode_utf8("FeatherSetting"@),
        encode_utf8("Page"@) != encode_utf8("DirectionalFeatherSetting"@),
        encode_utf8("Page"@) != encode_utf8("GradientFeatherSetting"@),
        encode_utf8("Page"@) != encode_utf8("GradientStop"@),
        encode_utf8("Page"@) != encode_utf8("OpacityGradientStop"@),
        encode_utf8("Page"@) != encode_utf8("BlendingSetting"@),
        encode_utf8("Page"@) != encode_utf8("Spread"@),
        encode_utf8("Page"@) != encode_utf8("MasterSpread"@),
        encode_utf8("Page"@) != encode_utf8("Group"@),
        encode_utf8("Page"@) != encode_utf8("Guide"@),
{
    reveal_strlit("Page");
    reveal_strlit("TextFrame");
    reveal_strlit("Rectangle");
    reveal_strlit("Oval");
    reveal_strlit("GraphicLine");
    reveal_strlit("Polygon");
    reveal_strlit("AnchoredObjectSetting");
    reveal_strlit("GeometryPathType");
    reveal_strlit("KeyValuePair");
    reveal_strlit("PathPointType");
    reveal_strlit("TextWrapPreference");
    reveal_strlit("TextWrapOffset");
    reveal_strlit("ContourOption");
    reveal_strlit("TextFramePreference");
    reveal_strlit("Image");
    reveal_strlit("EPSImage");
    reveal_strlit("PDF");
    reveal_strlit("ImportedPage");
    reveal_strlit("Link");
    reveal_strlit("ClippingPathSettings");
    reveal_strlit("Contents");
    reveal_strlit("FrameFittingOption");
    reveal_strlit("TextPath");
    reveal_strlit("StrokeTransparencySetting");
    reveal_strlit("ContentTransparencySetting");
    reveal_strlit("DropShadowSetting");
    reveal_strlit("InnerShadowSetting");
    reveal_strlit("OuterGlowSetting");
    reveal_strlit("InnerGlowSetting");
    reveal_strlit("BevelAndEmbossSetting");
    reveal_strlit("SatinSetting");
    reveal_strlit("FeatherSetting");
    reveal_strlit("DirectionalFeatherSetting");
    reveal_strlit("GradientFeatherSetting");
    reveal_strlit("GradientStop");
    reveal_strlit("OpacityGradientStop");
    reveal_strlit("BlendingSetting");
    reveal_strlit("Spread");
    reveal_strlit("MasterSpread");
    reveal_strlit("Group");
    reveal_strlit("Guide");
    law_names_differ("Page"@, "TextFrame"@);
    law_names_differ("Page"@, "Rectangle"@);
    assert("Page"@[0] != "Oval"@[0]);
    law_names_differ("Page"@, "Oval"@);
    law_names_differ("Page"@, "GraphicLine"@);
    law_names_differ("Page"@, "Polygon"@);
    law_names_differ("Page"@, "AnchoredObjectSetting"@);
    law_names_differ("Page"@, "GeometryPathType"@);
    law_names_differ("Page"@, "KeyValuePair"@);
    law_names_differ("Page"@, "PathPointType"@);
    law_names_differ("Page"@, "TextWrapPreference"@);
    law_names_differ("Page"@, "TextWrapOffset"@);
    law_names_differ("Page"@, "ContourOption"@);
    law_names_differ("Page"@, "TextFramePreference"@);
    law_names_differ("Page"@, "Image"@);
    law_names_differ("Page"@, "EPSImage"@);
    law_names_differ("Page"@, "PDF"@);
    law_names_differ("Page"@, "ImportedPage"@);
    assert("Page"@[0] != "Link"@[0]);
    law_names_differ("Page"@, "Link"@);
    law_names_differ("Page"@, "ClippingPathSettings"@);
    law_names_differ("Page"@, "Contents"@);
    law_names_differ("Page"@, "FrameFittingOption"@);
    law_names_differ("Page"@, "TextPath"@);
    law_names_differ("Page"@, "StrokeTransparencySetting"@);
    law_names_differ("Page"@, "ContentTransparencySetting"@);
    law_names_differ("Page"@, "DropShadowSetting"@);
    law_names_differ("Page"@, "InnerShadowSetting"@);
    law_names_differ("Page"@, "OuterGlowSetting"@);
    law_names_differ("Page"@, "InnerGlowSetting"@);
    law_names_differ("Page"@, "BevelAndEmbossSetting"@);
    law_names_differ("Page"@, "SatinSetting"@);
    law_names_differ("Page"@, "FeatherSetting"@);
    law_names_differ("Page"@, "DirectionalFeatherSetting"@);
    law_names_differ("Page"@, "GradientFeatherSetting"@);
    law_names_differ("Page"@, "GradientStop"@);
    law_names_differ("Page"@, "OpacityGradientStop"@);
    law_names_differ("Page"@, "BlendingSetting"@);
    law_names_differ("Page"@, "Spread"@);
    law_names_differ("Page"@, "MasterSpread"@);
    law_names_differ("Page"@, "Group"@);
    law_names_differ("Page"@, "Guide"@);
}

/// No other item is named `TextFrame`.
proof fn lemma_text_frame_name()
    ensures
        encode_utf8("TextFrame"@) != encode_utf8("Rectangle"@),
        encode_utf8("TextFrame"@) != encode_utf8("Oval"@),
        encode_utf8("TextFrame"@) != encode_utf8("GraphicLine"@),
        encode_utf8("TextFrame"@) != encode_utf8("Polygon"@),
{
    reveal_strlit("TextFrame");
    reveal_strlit("Rectangle");
    reveal_strlit("Oval");
    reveal_strlit("GraphicLine");
    reveal_strlit("Polygon");
    assert("TextFrame"@[0] != "Rectangle"@[0]);
    law_names_differ("TextFrame"@, "Rectangle"@);
    law_names_differ("TextFrame"@, "Oval"@);
    law_names_differ("TextFrame"@, "GraphicLine"@);
    law_names_differ("TextFrame"@, "Polygon"@);
}

/// No other item is named `Rectangle`.
proof fn lemma_rectangle_name()
    ensures
        encode_utf8("Rectangle"@) != encode_utf8("TextFrame"@),
        encode_utf8("Rectangle"@) != encode_utf8("Oval"@),
        encode_utf8("Rectangle"@) != encode_utf8("GraphicLine"@),
        encode_utf8("Rectangle"@) != encode_utf8("Polygon"@),
{
    reveal_strlit("Rectangle");
    reveal_strlit("TextFrame");
    reveal_strlit("Oval");
    reveal_strlit("GraphicLine");
    reveal_strlit("Polygon");
    assert("Rectangle"@[0] != "TextFrame"@[0]);
    law_names_differ("Rectangle"@, "TextFrame"@);
    law_names_differ("Rectangle"@, "Oval"@);
    law_names_differ("Rectangle"@, "GraphicLine"@);
    law_names_differ("Rectangle"@, "Polygon"@);
}

/// No other item is named `Oval`.
proof fn lemma_oval_name()
    ensures
        encode_utf8("Oval"@) != encode_utf8("TextFrame"@),
        encode_utf8("Oval"@) != encode_utf8("Rectangle"@),
        encode_utf8("Oval"@) != encode_utf8("GraphicLine"@),
        encode_utf8("Oval"@) != encode_utf8("Polygon"@),
{
    reveal_strlit("Oval");
    reveal_strlit("TextFrame");
    reveal_strlit("Rectangle");
    reveal_strlit("GraphicLine");
    reveal_strlit("Polygon");
    law_names_differ("Oval"@, "TextFrame"@);
    law_names_differ("Oval"@, "Rectangle"@);
    law_names_differ("Oval"@, "GraphicLine"@);
    law_names_differ("Oval"@, "Polygon"@);
}

/// No other item is named `GraphicLine`.
proof fn lemma_line_name()
    ensures
        encode_utf8("GraphicLine"@) != encode_utf8("TextFrame"@),
        encode_utf8("GraphicLine"@) != encode_utf8("Rectangle"@),
        encode_utf8("GraphicLine"@) != encode_utf8("Oval"@),
        encode_utf8("GraphicLine"@) != encode_utf8("Polygon"@),
{
    reveal_strlit("GraphicLine");
    reveal_strlit("TextFrame");
    reveal_strlit("Rectangle");
    reveal_strlit("Oval");
    reveal_strlit("Polygon");
    law_names_differ("GraphicLine"@, "TextFrame"@);
    law_names_differ("GraphicLine"@, "Rectangle"@);
    law_names_differ("GraphicLine"@, "Oval"@);
    law_names_differ("GraphicLine"@, "Polygon"@);
}

/// No other item is named `Polygon`.
proof fn lemma_polygon_name()
    ensures
        encode_utf8("Polygon"@) != encode_utf8("TextFrame"@),
        encode_utf8("Polygon"@) != encode_utf8("Rectangle"@),
        encode_utf8("Polygon"@) != encode_utf8("Oval"@),
        encode_utf8("Polygon"@) != encode_utf8("GraphicLine"@),
{
    reveal_strlit("Polygon");
    reveal_strlit("TextFrame");
    reveal_strlit("Rectangle");
    reveal_strlit("Oval");
    reveal_strlit("GraphicLine");
    law_names_differ("Polygon"@, "TextFrame"@);
    law_names_differ("Polygon"@, "Rectangle"@);
    law_names_differ("Polygon"@, "Oval"@);
    law_names_differ("Polygon"@, "GraphicLine"@);
}

/// No other name inside an item is `PathPointType`.
proof fn lemma_point_name()
    ensures
        encode_utf8("PathPointType"@) != encode_utf8("TextFrame"@),
        encode_utf8("PathPointType"@) != encode_utf8("Rectangle"@),
        encode_utf8("PathPointType"@) != encode_utf8("Oval"@),
        encode_utf8("PathPointType"@) != encode_utf8("GraphicLine"@),
        encode_utf8("PathPointType"@) != encode_utf8("Polygon"@),
        encode_utf8("PathPointType"@) != encode_utf8("AnchoredObjectSetting"@),
        encode_utf8("PathPointType"@) != encode_utf8("GeometryPathType"@),
        encode_utf8("PathPointType"@) != encode_utf8("KeyValuePair"@),
        encode_utf8("PathPointType"@) != encode_utf8("TextWrapPreference"@),
        encode_utf8("PathPointType"@) != encode_utf8("TextWrapOffset"@),
        encode_utf8("PathPointType"@) != encode_utf8("ContourOption"@),
        encode_utf8("PathPointType"@) != encode_utf8("TextFramePreference"@),
        encode_utf8("PathPointType"@) != encode_utf8("Image"@),
        encode_utf8("PathPointType"@) != encode_utf8("EPSImage"@),
        encode_utf8("PathPointType"@) != encode_utf8("PDF"@),
        encode_utf8("PathPointType"@) != encode_utf8("ImportedPage"@),
        encode_utf8("PathPointType"@) != encode_utf8("Link"@),
        encode_utf8("PathPointType"@) != encode_utf8("ClippingPathSettings"@),
        encode_utf8("PathPointType"@) != encode_utf8("Contents"@),
        encode_utf8("PathPointType"@) != encode_utf8("FrameFittingOption"@),
        encode_utf8("PathPointType"@) != encode_utf8("TextPath"@),
{
    reveal_strlit("PathPointType");
    reveal_strlit("TextFrame");
    reveal_strlit("Rectangle");
    reveal_strlit("Oval");
    reveal_strlit("GraphicLine");
    reveal_strlit("Polygon");
    reveal_strlit("AnchoredObjectSetting");
    reveal_strlit("GeometryPathType");
    reveal_strlit("KeyValuePair");
    reveal_strlit("TextWrapPreference");
    reveal_strlit("TextWrapOffset");
    reveal_strlit("ContourOption");
    reveal_strlit("TextFramePreference");
    reveal_strlit("Image");
    reveal_strlit("EPSImage");
    reveal_strlit("PDF");
    reveal_strlit("ImportedPage");
    reveal_strlit("Link");
    reveal_strlit("ClippingPathSettings");
    reveal_strlit("Contents");
    reveal_strlit("FrameFittingOption");
    reveal_strlit("TextPath");
    law_names_differ("PathPointType"@, "TextFrame"@);
    law_names_differ("PathPointType"@, "Rectangle"@);
    law_names_differ("PathPointType"@, "Oval"@);
    law_names_differ("PathPointType"@, "GraphicLine"@);
    law_names_differ("PathPointType"@, "Polygon"@);
    law_names_differ("PathPointType"@, "AnchoredObjectSetting"@);
    law_names_differ("PathPointType"@, "GeometryPathType"@);
    law_names_differ("PathPointType"@, "KeyValuePair"@);
    law_names_differ("PathPointType"@, "TextWrapPreference"@);
    law_names_differ("PathPointType"@, "TextWrapOffset"@);
    assert("PathPointType"@[0] != "ContourOption"@[0]);
    law_names_differ("PathPointType"@, "ContourOption"@);
    law_names_differ("PathPointType"@, "TextFramePreference"@);
    law_names_differ("PathPointType"@, "Image"@);
    law_names_differ("PathPointType"@, "EPSImage"@);
    law_names_differ("PathPointType"@, "PDF"@);
    law_names_differ("PathPointType"@, "ImportedPage"@);
    law_names_differ("PathPointType"@, "Link"@);
    law_names_differ("PathPointType"@, "ClippingPathSettings"@);
    law_names_differ("PathPointType"@, "Contents"@);
    law_names_differ("PathPointType"@, "FrameFittingOption"@);
    law_names_differ("PathPointType"@, "TextPath"@);
}

/// No other name inside an item is `GeometryPathType`.
proof fn lemma_contour_name()
    ensures
        encode_utf8("GeometryPathType"@) != encode_utf8("TextFrame"@),
        encode_utf8("GeometryPathType"@) != encode_utf8("Rectangle"@),
        encode_utf8("GeometryPathType"@) != encode_utf8("Oval"@),
        encode_utf8("GeometryPathType"@) != encode_utf8("GraphicLine"@),
        encode_utf8("GeometryPathType"@) != encode_utf8("Polygon"@),
        encode_utf8("GeometryPathType"@) != encode_utf8("AnchoredObjectSetting"@),
        encode_utf8("GeometryPathType"@) != encode_utf8("KeyValuePair"@),
        encode_utf8("GeometryPathType"@) != encode_utf8("PathPointType"@),
        encode_utf8("GeometryPathType"@) != encode_utf8("TextWrapPreference"@),
        encode_utf8("GeometryPathType"@) != encode_utf8("TextWrapOffset"@),
        encode_utf8("GeometryPathType"@) != encode_utf8("ContourOption"@),
        encode_utf8("GeometryPathType"@) != encode_utf8("TextFramePreference"@),
        encode_utf8("GeometryPathType"@) != encode_utf8("Image"@),
        encode_utf8("GeometryPathType"@) != encode_utf8("EPSImage"@),
        encode_utf8("GeometryPathType"@) != encode_utf8("PDF"@),
        encode_utf8("GeometryPathType"@) != encode_utf8("ImportedPage"@),
        encode_utf8("GeometryPathType"@) != encode_utf8("Link"@),
        encode_utf8("GeometryPathType"@) != encode_utf8("ClippingPathSettings"@),
        encode_utf8("GeometryPathType"@) != encode_utf8("Contents"@),
        encode_utf8("GeometryPathType"@) != encode_utf8("FrameFittingOption"@),
        encode_utf8("GeometryPathType"@) != encode_utf8("TextPath"@),
{
    reveal_strlit("GeometryPathType");
    reveal_strlit("TextFrame");
    reveal_strlit("Rectangle");
    reveal_strlit("Oval");
    reveal_strlit("GraphicLine");
    reveal_strlit("Polygon");
    reveal_strlit("AnchoredObjectSetting");
    reveal_strlit("KeyValuePair");
    reveal_strlit("PathPointType");
    reveal_strlit("TextWrapPreference");
    reveal_strlit("TextWrapOffset");
    reveal_strlit("ContourOption");
    reveal_strlit("TextFramePreference");
    reveal_strlit("Image");
    reveal_strlit("EPSImage");
    reveal_strlit("PDF");
    reveal_strlit("ImportedPage");
    reveal_strlit("Link");
    reveal_strlit("ClippingPathSettings");
    reveal_strlit("Contents");
    reveal_strlit("FrameFittingOption");
    reveal_strlit("TextPath");
    law_names_differ("GeometryPathType"@, "TextFrame"@);
    law_names_differ("GeometryPathType"@, "Rectangle"@);
    law_names_differ("GeometryPathType"@, "Oval"@);
    law_names_differ("GeometryPathType"@, "GraphicLine"@);
    law_names_differ("GeometryPathType"@, "Polygon"@);
    law_names_differ("GeometryPathType"@, "AnchoredObjectSetting"@);
    law_names_differ("GeometryPathType"@, "KeyValuePair"@);
    law_names_differ("GeometryPathType"@, "PathPointType"@);
    law_names_differ("GeometryPathType"@, "TextWrapPreference"@);
    law_names_differ("GeometryPathType"@, "TextWrapOffset"@);
    law_names_differ("GeometryPathType"@, "ContourOption"@);
    law_names_differ("GeometryPathType"@, "TextFramePreference"@);
    law_names_differ("GeometryPathType"@, "Image"@);
    law_names_differ("GeometryPathType"@, "EPSImage"@);
    law_names_differ("GeometryPathType"@, "PDF"@);
    law_names_differ("GeometryPathType"@, "ImportedPage"@);
    law_names_differ("GeometryPathType"@, "Link"@);
    law_names_differ("GeometryPathType"@, "ClippingPathSettings"@);
    law_names_differ("GeometryPathType"@, "Contents"@);
    law_names_differ("GeometryPathType"@, "FrameFittingOption"@);
    law_names_differ("GeometryPathType"@, "TextPath"@);
}

/// The same pages, guides and open groups.
spec fn same_ground(st: ProgressView, after: ProgressView) -> bool {
    &&& after.out.pages == st.out.pages
    &&& after.out.guides == st.out.guides
    &&& after.group_transforms == st.group_transforms
}

proof fn lemma_edits_ground(out: SpreadView, kind: FrameKind, tag: TagView, path: TextPathView)
    ensures
        with_anchored_flag(out, kind).pages == out.pages,
        with_anchored_flag(out, kind).guides == out.guides,
        with_key_value(out, kind, tag).pages == out.pages,
        with_key_value(out, kind, tag).guides == out.guides,
        with_preference(out, kind, tag).pages == out.pages,
        with_preference(out, kind, tag).guides == out.guides,
        with_fitting(out, kind, tag).pages == out.pages,
        with_fitting(out, kind, tag).guides == out.guides,
        with_text_path(out, kind, path).pages == out.pages,
        with_text_path(out, kind, path).guides == out.guides,
{
}

proof fn lemma_detail_ground(st: ProgressView, cf: CurrentFrameView, tag: TagView)
    ensures
        same_ground(st, after_detail(st, cf, tag)),
{
    assert(same_ground(st, after_wrap(st, cf, tag)));
    assert(same_ground(st, after_image(st, cf, tag)));
    let path = text_path_of(tag).unwrap_or(arbitrary());
    lemma_edits_ground(st.out, cf.kind, tag, path);
}

proof fn lemma_effect_ground(st: ProgressView, tag: TagView)
    ensures
        same_ground(st, after_effect(st, tag)),
        forall|kind: FrameKind|
            (#[trigger] with_feather_stop(st.out, kind, tag)).pages == st.out.pages
                && with_feather_stop(st.out, kind, tag).guides == st.out.guides,
{
}

proof fn lemma_look_ground(st: ProgressView, tag: TagView)
    requires
        !tag.is("Group"@),
        !tag.is("Guide"@),
        !tag.is("Page"@),
    ensures
        same_ground(st, after_look(st, tag)),
{
    assert(same_ground(st, after_layout(st, tag)));
    assert(same_ground(st, after_transparency(st, true)));
    assert(same_ground(st, after_transparency(st, false)));
    assert(same_ground(st, after_shadow(st, tag)));
    lemma_effect_ground(st, tag);
    assert(same_ground(st, after_blending(st, tag)));
}

proof fn lemma_open_ground(st: ProgressView, tag: TagView)
    ensures
        ({
            let after = after_open(st, tag);
            &&& after.group_transforms == if tag.is("Group"@) {
                st.group_transforms.push(tag.matrix("ItemTransform"@))
            } else {
                st.group_transforms
            }
            &&& after.out.pages == match page_of(tag) {
                Some(page) if tag.is("Page"@) => st.out.pages.push(page),
                _ => st.out.pages,
            }
            &&& after.out.guides == match guide_of(tag) {
                Some(guide) if tag.is("Guide"@) => st.out.guides.push(guide),
                _ => st.out.guides,
            }
        }),
{
    lemma_group_name();
    lemma_guide_name();
    lemma_page_name();
    if tag.is("Group"@) || tag.is("Guide"@) || tag.is("Page"@) {
        assert(after_open(st, tag) == after_look(st, tag));
        assert(after_look(st, tag) == after_layout(st, tag));
    } else if is_shape(tag.name) {
        assert(same_ground(st, after_shape(st, tag)));
    } else {
        if let Some(cf) = st.current {
            lemma_detail_ground(st, cf, tag);
        }
        lemma_look_ground(st, tag);
    }
}

proof fn lemma_close_ground(st: ProgressView, cf: CurrentFrameView)
    ensures
        same_ground(st, after_close(st, cf)),
{
    assert forall|out: SpreadView| (#[trigger] with_outline(
        out,
        cf.kind,
        cf.anchors,
        cf.subpath_starts,
        cf.subpath_open,
    )).pages == out.pages by {}
    if let Some(clip) = cf.clip {
        let out = with_image_clip(st.out, cf.kind, clip);
        assert(out.pages == st.out.pages && out.guides == st.out.guides);
    }
}

proof fn lemma_end_ground(st: ProgressView, name: Seq<u8>)
    ensures
        ({
            let after = after_end(st, name);
            &&& after.out.pages == st.out.pages
            &&& after.out.guides == st.out.guides
            &&& after.group_transforms == if name == encode_utf8("Group"@)
                && st.group_transforms.len() > 0 {
                st.group_transforms.drop_last()
            } else {
                st.group_transforms
            }
        }),
{
    if name == encode_utf8("Group"@) {
        lemma_group_name();
    }
    if let Some(cf) = st.current {
        lemma_close_ground(st, cf);
    }
    assert(same_ground(st, after_transparency_end(st, true)));
    assert(same_ground(st, after_transparency_end(st, false)));
    if let Some(kind) = st.contents_target {
        assert forall|bytes: Seq<u8>|
            (#[trigger] with_image_bytes(st.out, kind, bytes)).pages == st.out.pages
                && with_image_bytes(st.out, kind, bytes).guides == st.out.guides by {}
    }
}

/// The pages whose tags stand among the first `n` events, in order.
pub open spec fn stated_pages(events: Seq<EventView>, n: nat) -> Seq<PageView>
    decreases n,
{
    if n == 0 {
        Seq::empty()
    } else {
        let before = stated_pages(events, (n - 1) as nat);
        match events[n - 1] {
            EventView::Open(tag) => match page_of(tag) {
                Some(page) if tag.is("Page"@) => before.push(page),
                _ => before,
            },
            _ => before,
        }
    }
}

/// The guides whose tags stand among the first `n` events, in order.
pub open spec fn stated_guides(events: Seq<EventView>, n: nat) -> Seq<RulerGuide>
    decreases n,
{
    if n == 0 {
        Seq::empty()
    } else {
        let before = stated_guides(events, (n - 1) as nat);
        match events[n - 1] {
            EventView::Open(tag) => match guide_of(tag) {
                Some(guide) if tag.is("Guide"@) => before.push(guide),
                _ => before,
            },
            _ => before,
        }
    }
}

/// The pages and guides that are read are all that are stated, in order; and the
/// transforms that an item stands in are those of the groups that are open round
/// it, and of no others.
pub proof fn law_ground_is_as_stated(events: Seq<EventView>, n: nat)
    ensures
        after_events(events, n).out.pages == stated_pages(events, n),
        after_events(events, n).out.guides == stated_guides(events, n),
        after_events(events, n).group_transforms == open_transforms(events, n),
    decreases n,
{
    if n > 0 {
        law_ground_is_as_stated(events, (n - 1) as nat);
        let st = after_events(events, (n - 1) as nat);
        match events[n - 1] {
            EventView::Open(tag) => {
                lemma_open_ground(st, tag);
            },
            EventView::End(name) => {
                lemma_end_ground(st, name);
            },
            _ => {},
        }
    }
}

/// A spread has all the pages and guides that are stated, in order.
pub proof fn law_spread_has_all_pages(events: Seq<EventView>)
    ensures
        spread_of(events).pages == stated_pages(events, events.len()),
        spread_of(events).guides == stated_guides(events, events.len()),
{
    law_ground_is_as_stated(events, events.len());
}

/// Whether a list has one thing more than another, behind all that it had.
pub open spec fn has_one_more<T>(before: Seq<T>, after: Seq<T>) -> bool {
    after.len() == before.len() + 1 && after.drop_last() == before
}

/// Whether an item is listed behind all others where it stands, in the innermost
/// group that is open or outside all, and all that was listed stays.
pub open spec fn is_listed_last(st: ProgressView, after: ProgressView, item: FrameRef) -> bool {
    if st.builders.len() > 0 {
        &&& after.out.frames_in_order == st.out.frames_in_order
        &&& after.builders.len() == st.builders.len()
        &&& after.builders.drop_last() == st.builders.drop_last()
        &&& has_one_more(st.builders.last().members, after.builders.last().members)
        &&& after.builders.last().members.last() == item
        &&& after.builders.last() == (GroupBuilderView {
            members: after.builders.last().members,
            ..st.builders.last()
        })
    } else {
        &&& after.builders == st.builders
        &&& has_one_more(st.out.frames_in_order, after.out.frames_in_order)
        &&& after.out.frames_in_order.last() == item
    }
}

/// What is listed is listed last.
proof fn lemma_listed_last(st: ProgressView, item: FrameRef)
    ensures
        is_listed_last(st, registered(st, item), item),
        registered(st, item).out == (SpreadView {
            frames_in_order: registered(st, item).out.frames_in_order,
            ..st.out
        }),
{
    let after = registered(st, item);
    if st.builders.len() > 0 {
        assert(after.builders.drop_last() =~= st.builders.drop_last());
        assert(after.builders.last().members.drop_last() =~= st.builders.last().members);
    } else {
        assert(after.out.frames_in_order.drop_last() =~= st.out.frames_in_order);
    }
}

/// The tag of a text frame adds a text frame behind those that were there, and lists it behind
/// all that is listed where it stands. All else of the spread stays.
pub proof fn law_text_frames_gather(st: ProgressView, tag: TagView)
    requires
        tag.is("TextFrame"@),
    ensures
        ({
            let after = after_event(st, EventView::Open(tag));
            &&& has_one_more(st.out.text_frames, after.out.text_frames)
            &&& after.out.text_frames.last() == text_frame_of(tag, st.group_transforms)
            &&& is_listed_last(
                st,
                after,
                FrameRef::TextFrame(st.out.text_frames.len() as usize),
            )
            &&& after.out == (SpreadView {
                text_frames: after.out.text_frames,
                frames_in_order: after.out.frames_in_order,
                ..st.out
            })
        }),
{
    lemma_text_frame_name();
    let item = text_frame_of(tag, st.group_transforms);
    let more = ProgressView {
        out: SpreadView { text_frames: st.out.text_frames.push(item), ..st.out },
        ..st
    };
    assert(more.out.text_frames.drop_last() =~= st.out.text_frames);
    lemma_listed_last(more, FrameRef::TextFrame(st.out.text_frames.len() as usize));
}

/// The tag of a rectangle adds a rectangle behind those that were there, and lists it behind
/// all that is listed where it stands. All else of the spread stays.
pub proof fn law_rectangles_gather(st: ProgressView, tag: TagView)
    requires
        tag.is("Rectangle"@),
    ensures
        ({
            let after = after_event(st, EventView::Open(tag));
            &&& has_one_more(st.out.rectangles, after.out.rectangles)
            &&& after.out.rectangles.last() == rectangle_of(tag, st.group_transforms)
            &&& is_listed_last(
                st,
                after,
                FrameRef::Rectangle(st.out.rectangles.len() as usize),
            )
            &&& after.out == (SpreadView {
                rectangles: after.out.rectangles,
                frames_in_order: after.out.frames_in_order,
                ..st.out
            })
        }),
{
    lemma_rectangle_name();
    let item = rectangle_of(tag, st.group_transforms);
    let more = ProgressView {
        out: SpreadView { rectangles: st.out.rectangles.push(item), ..st.out },
        ..st
    };
    assert(more.out.rectangles.drop_last() =~= st.out.rectangles);
    lemma_listed_last(more, FrameRef::Rectangle(st.out.rectangles.len() as usize));
}

/// The tag of an oval adds an oval behind those that were there, and lists it behind
/// all that is listed where it stands. All else of the spread stays.
pub proof fn law_ovals_gather(st: ProgressView, tag: TagView)
    requires
        tag.is("Oval"@),
    ensures
        ({
            let after = after_event(st, EventView::Open(tag));
            &&& has_one_more(st.out.ovals, after.out.ovals)
            &&& after.out.ovals.last() == oval_of(tag, st.group_transforms)
            &&& is_listed_last(
                st,
                after,
                FrameRef::Oval(st.out.ovals.len() as usize),
            )
            &&& after.out == (SpreadView {
                ovals: after.out.ovals,
                frames_in_order: after.out.frames_in_order,
                ..st.out
            })
        }),
{
    lemma_oval_name();
    let item = oval_of(tag, st.group_transforms);
    let more = ProgressView {
        out: SpreadView { ovals: st.out.ovals.push(item), ..st.out },
        ..st
    };
    assert(more.out.ovals.drop_last() =~= st.out.ovals);
    lemma_listed_last(more, FrameRef::Oval(st.out.ovals.len() as usize));
}

/// The tag of a line adds a line behind those that were there, and lists it behind
/// all that is listed where it stands. All else of the spread stays.
pub proof fn law_lines_gather(st: ProgressView, tag: TagView)
    requires
        tag.is("GraphicLine"@),
    ensures
        ({
            let after = after_event(st, EventView::Open(tag));
            &&& has_one_more(st.out.graphic_lines, after.out.graphic_lines)
            &&& after.out.graphic_lines.last() == graphic_line_of(tag, st.group_transforms)
            &&& is_listed_last(
                st,
                after,
                FrameRef::GraphicLine(st.out.graphic_lines.len() as usize),
            )
            &&& after.out == (SpreadView {
                graphic_lines: after.out.graphic_lines,
                frames_in_order: after.out.frames_in_order,
                ..st.out
            })
        }),
{
    lemma_line_name();
    let item = graphic_line_of(tag, st.group_transforms);
    let more = ProgressView {
        out: SpreadView { graphic_lines: st.out.graphic_lines.push(item), ..st.out },
        ..st
    };
    assert(more.out.graphic_lines.drop_last() =~= st.out.graphic_lines);
    lemma_listed_last(more, FrameRef::GraphicLine(st.out.graphic_lines.len() as usize));
}

/// The tag of a polygon adds a polygon behind those that were there, and lists it behind
/// all that is listed where it stands. All else of the spread stays.
pub proof fn law_polygons_gather(st: ProgressView, tag: TagView)
    requires
        tag.is("Polygon"@),
    ensures
        ({
            let after = after_event(st, EventView::Open(tag));
            &&& has_one_more(st.out.polygons, after.out.polygons)
            &&& after.out.polygons.last() == polygon_of(tag, st.group_transforms)
            &&& is_listed_last(
                st,
                after,
                FrameRef::Polygon(st.out.polygons.len() as usize),
            )
            &&& after.out == (SpreadView {
                polygons: after.out.polygons,
                frames_in_order: after.out.frames_in_order,
                ..st.out
            })
        }),
{
    lemma_polygon_name();
    let item = polygon_of(tag, st.group_transforms);
    let more = ProgressView {
        out: SpreadView { polygons: st.out.polygons.push(item), ..st.out },
        ..st
    };
    assert(more.out.polygons.drop_last() =~= st.out.polygons);
    lemma_listed_last(more, FrameRef::Polygon(st.out.polygons.len() as usize));
}

/// The tag that closes a group lists it behind the groups that were closed before
/// it, with the name, the transform, the members and the look that it was given,
/// and behind all that is listed where it stands.
pub proof fn law_groups_gather(st: ProgressView)
    requires
        st.group_transforms.len() > 0,
        st.builders.len() > 0,
    ensures
        ({
            let after = after_event(st, EventView::End(encode_utf8("Group"@)));
            let b = st.builders.last();
            let outside = ProgressView { builders: st.builders.drop_last(), ..st };
            &&& has_one_more(st.out.groups, after.out.groups)
            &&& after.out.groups.last() == (GroupView {
                self_id: b.self_id,
                item_transform: b.item_transform,
                members: b.members,
                transparency: b.transparency,
            })
            &&& after.group_transforms == st.group_transforms.drop_last()
            &&& is_listed_last(outside, after, FrameRef::Group(st.out.groups.len() as usize))
            &&& st.out == (SpreadView {
                groups: st.out.groups,
                frames_in_order: st.out.frames_in_order,
                ..after.out
            })
        }),
{
    let after = after_event(st, EventView::End(encode_utf8("Group"@)));
    let outside = st.builders.drop_last();
    assert(after == after_group_end(st));
    assert(after.out.groups.drop_last() =~= st.out.groups);
    if outside.len() > 0 {
        assert(after.builders.drop_last() =~= outside.drop_last());
        assert(after.builders.last().members.drop_last() =~= outside.last().members);
    } else {
        assert(after.out.frames_in_order.drop_last() =~= st.out.frames_in_order);
    }
}

/// A point of the path of an item stands behind the points that were there: in its
/// clipping path, where one is open, else in its own path, outside images and where
/// the path is kept.
pub proof fn law_points_gather(st: ProgressView, cf: CurrentFrameView, tag: TagView, p: PathAnchor)
    requires
        st.current == Some(cf),
        tag.is("PathPointType"@),
        path_anchor_of(tag) == Some(p),
    ensures
        after_event(st, EventView::Open(tag)).current matches Some(after) && {
            &&& if cf.in_clipping_path {
                &&& after.anchors == cf.anchors
                &&& cf.clip matches Some(a) ==> (after.clip matches Some(b) && has_one_more(
                    a.clip_anchors,
                    b.clip_anchors,
                ) && b.clip_anchors.last() == p && b.clip_subpath_starts == a.clip_subpath_starts
                    && b.clip_subpath_open == a.clip_subpath_open)
            } else if cf.in_image_depth == 0 && (cf.needs_bounds || cf.keep_anchors) {
                &&& has_one_more(cf.anchors, after.anchors)
                &&& after.anchors.last() == p
                &&& after.clip == cf.clip
            } else {
                after == cf
            }
            &&& after.subpath_starts == cf.subpath_starts
            &&& after.subpath_open == cf.subpath_open
            &&& after.kind == cf.kind
        },
        after_event(st, EventView::Open(tag)).out == st.out,
{
    lemma_point_name();
    let after = after_event(st, EventView::Open(tag)).current->0;
    assert(cf.anchors.push(p).drop_last() =~= cf.anchors);
    if let Some(a) = cf.clip {
        assert(a.clip_anchors.push(p).drop_last() =~= a.clip_anchors);
    }
}

/// A contour of the path of an item starts behind all points that were there, and
/// says whether it is open.
pub proof fn law_contours_gather(st: ProgressView, cf: CurrentFrameView, tag: TagView)
    requires
        st.current == Some(cf),
        tag.is("GeometryPathType"@),
    ensures
        after_event(st, EventView::Open(tag)).current matches Some(after) && {
            let open = tag.flag("PathOpen"@) == Some(true);
            &&& if cf.in_clipping_path {
                &&& after.subpath_starts == cf.subpath_starts
                &&& after.subpath_open == cf.subpath_open
                &&& cf.clip matches Some(a) ==> (after.clip matches Some(b) && {
                    &&& has_one_more(a.clip_subpath_starts, b.clip_subpath_starts)
                    &&& b.clip_subpath_starts.last() == a.clip_anchors.len() as usize
                    &&& has_one_more(a.clip_subpath_open, b.clip_subpath_open)
                    &&& b.clip_subpath_open.last() == open
                    &&& b.clip_anchors == a.clip_anchors
                })
            } else if cf.in_image_depth == 0 && cf.keep_anchors {
                &&& has_one_more(cf.subpath_starts, after.subpath_starts)
                &&& after.subpath_starts.last() == cf.anchors.len() as usize
                &&& has_one_more(cf.subpath_open, after.subpath_open)
                &&& after.subpath_open.last() == open
                &&& after.clip == cf.clip
            } else {
                after == cf
            }
            &&& after.anchors == cf.anchors
            &&& after.kind == cf.kind
        },
        after_event(st, EventView::Open(tag)).out == st.out,
{
    lemma_contour_name();
    let open = tag.flag("PathOpen"@).unwrap_or(false);
    let n = cf.anchors.len() as usize;
    assert(cf.subpath_starts.push(n).drop_last() =~= cf.subpath_starts);
    assert(cf.subpath_open.push(open).drop_last() =~= cf.subpath_open);
    if let Some(a) = cf.clip {
        let m = a.clip_anchors.len() as usize;
        assert(a.clip_subpath_starts.push(m).drop_last() =~= a.clip_subpath_starts);
        assert(a.clip_subpath_open.push(open).drop_last() =~= a.clip_subpath_open);
    }
}

/// The points of the path of an item, where its kind keeps them.
pub open spec fn points_at(out: SpreadView, kind: FrameKind) -> Option<Seq<PathAnchor>> {
    match kind {
        FrameKind::Text(i) => if i < out.text_frames.len() {
            Some(out.text_frames[i as int].anchors)
        } else {
            None
        },
        FrameKind::Rect(i) => if i < out.rectangles.len() {
            Some(out.rectangles[i as int].anchors)
        } else {
            None
        },
        FrameKind::Oval(_) => None,
        FrameKind::Line(i) => if i < out.graphic_lines.len() {
            Some(out.graphic_lines[i as int].anchors)
        } else {
            None
        },
        FrameKind::Polygon(i) => if i < out.polygons.len() {
            Some(out.polygons[i as int].anchors)
        } else {
            None
        },
    }
}

/// The tag that closes an item with a path puts all points of the path on it, in
/// order; a rectangle keeps a path only where it has more than four points.
pub proof fn law_path_is_put_on_its_item(st: ProgressView, cf: CurrentFrameView, name: Seq<u8>)
    requires
        is_shape(name),
        st.current == Some(cf),
        cf.keep_anchors,
        cf.anchors.len() > 0,
        cf.kind is Rect ==> cf.anchors.len() > 4,
        points_at(st.out, cf.kind) is Some,
    ensures
        ({
            let after = after_event(st, EventView::End(name));
            &&& points_at(after.out, cf.kind) == Some(cf.anchors)
            &&& after.current is None
        }),
{
    reveal_strlit("Group");
    lemma_group_name();
}

} // verus!
