//! Changes to one page item of a spread.
use crate::geometry::{Bounds, Matrix, PathAnchor};
use crate::number::Num;
use crate::page_items::{
    ClippingPathSettings, ClippingPathSettingsView, DropShadowSetting, DropShadowSettingView,
    FrameEffects, FrameEffectsView, GradientFeatherParams, GradientFeatherParamsView, GraphicLine,
    GraphicLineView, Oval, OvalView, Polygon, PolygonView, Rectangle, RectangleView, Spread,
    SpreadView, TextFrame, TextFrameView, TextPath, TextPathView, TextWrap,
};
use crate::shapes::{
    feather_stop_of, fitting_of, no_effects, put_effect, read_feather_stop, read_fitting,
    with_effect,
};
use crate::util::{either, first_of, push_item};
use crate::vocabulary::{
    AutoSizingReferencePoint, AutoSizingType, FirstBaselineOffset, VerticalJustification,
};
use crate::xml::{Tag, TagView};
use vstd::prelude::*;

verus! {

/// A page item, by its place in the list of its kind.
#[derive(Clone, Copy, Debug, PartialEq, Eq, Structural)]
pub enum FrameKind {
    Text(usize),
    Rect(usize),
    Oval(usize),
    Line(usize),
    Polygon(usize),
}

impl DeepView for FrameKind {
    type V = FrameKind;

    open spec fn deep_view(&self) -> FrameKind {
        *self
    }
}

/// `s` with `x` at place `i`, where it has such a place.
pub open spec fn changed<T>(s: Seq<T>, i: int, x: T) -> Seq<T> {
    if 0 <= i < s.len() {
        s.update(i, x)
    } else {
        s
    }
}

/// The element at place `i`, to be changed.
pub fn item_at<T: DeepView>(v: &mut Vec<T>, i: usize) -> (r: &mut T)
    requires
        i < old(v)@.len(),
    ensures
        r.deep_view() == old(v).deep_view()[i as int],
        final(v).deep_view() == old(v).deep_view().update(i as int, final(r).deep_view()),
{
    let ghost before = v@;
    let r = &mut v[i];
    assert(before.update(i as int, *final(r)).map_values(|x: T| x.deep_view())
        =~= before.map_values(|x: T| x.deep_view()).update(i as int, final(r).deep_view()));
    r
}

/// How text runs round an item.
pub open spec fn text_wrap_at(out: SpreadView, kind: FrameKind) -> Option<TextWrap> {
    match kind {
        FrameKind::Text(i) => if i < out.text_frames.len() {
            out.text_frames[i as int].text_wrap
        } else {
            None
        },
        FrameKind::Rect(i) => if i < out.rectangles.len() {
            out.rectangles[i as int].text_wrap
        } else {
            None
        },
        FrameKind::Oval(i) => if i < out.ovals.len() {
            out.ovals[i as int].text_wrap
        } else {
            None
        },
        FrameKind::Line(i) => if i < out.graphic_lines.len() {
            out.graphic_lines[i as int].text_wrap
        } else {
            None
        },
        FrameKind::Polygon(i) => if i < out.polygons.len() {
            out.polygons[i as int].text_wrap
        } else {
            None
        },
    }
}

pub fn get_text_wrap(out: &Spread, kind: FrameKind) -> (r: Option<TextWrap>)
    ensures
        r == text_wrap_at(out.deep_view(), kind),
{
    match kind {
        FrameKind::Text(i) => if i < out.text_frames.len() {
            assert(out.deep_view().text_frames[i as int] == out.text_frames@[i as int].deep_view());
            out.text_frames[i].text_wrap
        } else {
            None
        },
        FrameKind::Rect(i) => if i < out.rectangles.len() {
            assert(out.deep_view().rectangles[i as int] == out.rectangles@[i as int].deep_view());
            out.rectangles[i].text_wrap
        } else {
            None
        },
        FrameKind::Oval(i) => if i < out.ovals.len() {
            assert(out.deep_view().ovals[i as int] == out.ovals@[i as int].deep_view());
            out.ovals[i].text_wrap
        } else {
            None
        },
        FrameKind::Line(i) => if i < out.graphic_lines.len() {
            assert(
                out.deep_view().graphic_lines[i as int] == out.graphic_lines@[i as int].deep_view()
            );
            out.graphic_lines[i].text_wrap
        } else {
            None
        },
        FrameKind::Polygon(i) => if i < out.polygons.len() {
            assert(out.deep_view().polygons[i as int] == out.polygons@[i as int].deep_view());
            out.polygons[i].text_wrap
        } else {
            None
        },
    }
}

impl TextFrameView {
    pub open spec fn with_text_wrap(self, wrap: Option<TextWrap>) -> TextFrameView {
        TextFrameView { text_wrap: wrap, ..self }
    }
}

impl TextFrame {
    fn put_text_wrap(&mut self, wrap: Option<TextWrap>)
        ensures
            final(self).deep_view() == old(self).deep_view().with_text_wrap(wrap),
    {
        self.text_wrap = wrap;
    }
}

impl RectangleView {
    pub open spec fn with_text_wrap(self, wrap: Option<TextWrap>) -> RectangleView {
        RectangleView { text_wrap: wrap, ..self }
    }
}

impl Rectangle {
    fn put_text_wrap(&mut self, wrap: Option<TextWrap>)
        ensures
            final(self).deep_view() == old(self).deep_view().with_text_wrap(wrap),
    {
        self.text_wrap = wrap;
    }
}

impl OvalView {
    pub open spec fn with_text_wrap(self, wrap: Option<TextWrap>) -> OvalView {
        OvalView { text_wrap: wrap, ..self }
    }
}

impl Oval {
    fn put_text_wrap(&mut self, wrap: Option<TextWrap>)
        ensures
            final(self).deep_view() == old(self).deep_view().with_text_wrap(wrap),
    {
        self.text_wrap = wrap;
    }
}

impl GraphicLineView {
    pub open spec fn with_text_wrap(self, wrap: Option<TextWrap>) -> GraphicLineView {
        GraphicLineView { text_wrap: wrap, ..self }
    }
}

impl GraphicLine {
    fn put_text_wrap(&mut self, wrap: Option<TextWrap>)
        ensures
            final(self).deep_view() == old(self).deep_view().with_text_wrap(wrap),
    {
        self.text_wrap = wrap;
    }
}

impl PolygonView {
    pub open spec fn with_text_wrap(self, wrap: Option<TextWrap>) -> PolygonView {
        PolygonView { text_wrap: wrap, ..self }
    }
}

impl Polygon {
    fn put_text_wrap(&mut self, wrap: Option<TextWrap>)
        ensures
            final(self).deep_view() == old(self).deep_view().with_text_wrap(wrap),
    {
        self.text_wrap = wrap;
    }
}

/// `out` with the way text runs round an item replaced.
pub open spec fn with_text_wrap(
    out: SpreadView,
    kind: FrameKind,
    wrap: Option<TextWrap>,
) -> SpreadView {
    match kind {
        FrameKind::Text(i) => SpreadView {
            text_frames: changed(
                out.text_frames,
                i as int,
                out.text_frames[i as int].with_text_wrap(wrap),
            ),
            ..out
        },
        FrameKind::Rect(i) => SpreadView {
            rectangles: changed(
                out.rectangles,
                i as int,
                out.rectangles[i as int].with_text_wrap(wrap),
            ),
            ..out
        },
        FrameKind::Oval(i) => SpreadView {
            ovals: changed(out.ovals, i as int, out.ovals[i as int].with_text_wrap(wrap)),
            ..out
        },
        FrameKind::Line(i) => SpreadView {
            graphic_lines: changed(
                out.graphic_lines,
                i as int,
                out.graphic_lines[i as int].with_text_wrap(wrap),
            ),
            ..out
        },
        FrameKind::Polygon(i) => SpreadView {
            polygons: changed(out.polygons, i as int, out.polygons[i as int].with_text_wrap(wrap)),
            ..out
        },
    }
}

pub fn set_text_wrap(out: &mut Spread, kind: FrameKind, wrap: Option<TextWrap>)
    ensures
        final(out).deep_view() == with_text_wrap(old(out).deep_view(), kind, wrap),
{
    match kind {
        FrameKind::Text(i) => {
            if i < out.text_frames.len() {
                item_at(&mut out.text_frames, i).put_text_wrap(wrap);
            }
        },
        FrameKind::Rect(i) => {
            if i < out.rectangles.len() {
                item_at(&mut out.rectangles, i).put_text_wrap(wrap);
            }
        },
        FrameKind::Oval(i) => {
            if i < out.ovals.len() {
                item_at(&mut out.ovals, i).put_text_wrap(wrap);
            }
        },
        FrameKind::Line(i) => {
            if i < out.graphic_lines.len() {
                item_at(&mut out.graphic_lines, i).put_text_wrap(wrap);
            }
        },
        FrameKind::Polygon(i) => {
            if i < out.polygons.len() {
                item_at(&mut out.polygons, i).put_text_wrap(wrap);
            }
        },
    }
}

/// The identifier of an item.
pub open spec fn identifier_at(out: SpreadView, kind: FrameKind) -> Option<Seq<char>> {
    match kind {
        FrameKind::Text(i) => if i < out.text_frames.len() {
            out.text_frames[i as int].self_id
        } else {
            None
        },
        FrameKind::Rect(i) => if i < out.rectangles.len() {
            out.rectangles[i as int].self_id
        } else {
            None
        },
        FrameKind::Oval(i) => if i < out.ovals.len() {
            out.ovals[i as int].self_id
        } else {
            None
        },
        FrameKind::Line(i) => if i < out.graphic_lines.len() {
            out.graphic_lines[i as int].self_id
        } else {
            None
        },
        FrameKind::Polygon(i) => if i < out.polygons.len() {
            out.polygons[i as int].self_id
        } else {
            None
        },
    }
}

pub fn get_identifier(out: &Spread, kind: FrameKind) -> (r: Option<String>)
    ensures
        r.deep_view() == identifier_at(out.deep_view(), kind),
{
    match kind {
        FrameKind::Text(i) => if i < out.text_frames.len() {
            assert(out.deep_view().text_frames[i as int] == out.text_frames@[i as int].deep_view());
            crate::util::copy_text(&out.text_frames[i].self_id)
        } else {
            None
        },
        FrameKind::Rect(i) => if i < out.rectangles.len() {
            assert(out.deep_view().rectangles[i as int] == out.rectangles@[i as int].deep_view());
            crate::util::copy_text(&out.rectangles[i].self_id)
        } else {
            None
        },
        FrameKind::Oval(i) => if i < out.ovals.len() {
            assert(out.deep_view().ovals[i as int] == out.ovals@[i as int].deep_view());
            crate::util::copy_text(&out.ovals[i].self_id)
        } else {
            None
        },
        FrameKind::Line(i) => if i < out.graphic_lines.len() {
            assert(
                out.deep_view().graphic_lines[i as int] == out.graphic_lines@[i as int].deep_view()
            );
            crate::util::copy_text(&out.graphic_lines[i].self_id)
        } else {
            None
        },
        FrameKind::Polygon(i) => if i < out.polygons.len() {
            assert(out.deep_view().polygons[i as int] == out.polygons@[i as int].deep_view());
            crate::util::copy_text(&out.polygons[i].self_id)
        } else {
            None
        },
    }
}

impl TextFrameView {
    pub open spec fn with_bounds(self, bounds: Bounds) -> TextFrameView {
        TextFrameView { bounds, ..self }
    }
}

impl TextFrame {
    fn put_bounds(&mut self, bounds: Bounds)
        ensures
            final(self).deep_view() == old(self).deep_view().with_bounds(bounds),
    {
        self.bounds = bounds;
    }
}

impl RectangleView {
    pub open spec fn with_bounds(self, bounds: Bounds) -> RectangleView {
        RectangleView { bounds, ..self }
    }
}

impl Rectangle {
    fn put_bounds(&mut self, bounds: Bounds)
        ensures
            final(self).deep_view() == old(self).deep_view().with_bounds(bounds),
    {
        self.bounds = bounds;
    }
}

impl OvalView {
    pub open spec fn with_bounds(self, bounds: Bounds) -> OvalView {
        OvalView { bounds, ..self }
    }
}

impl Oval {
    fn put_bounds(&mut self, bounds: Bounds)
        ensures
            final(self).deep_view() == old(self).deep_view().with_bounds(bounds),
    {
        self.bounds = bounds;
    }
}

impl GraphicLineView {
    pub open spec fn with_bounds(self, bounds: Bounds) -> GraphicLineView {
        GraphicLineView { bounds, ..self }
    }
}

impl GraphicLine {
    fn put_bounds(&mut self, bounds: Bounds)
        ensures
            final(self).deep_view() == old(self).deep_view().with_bounds(bounds),
    {
        self.bounds = bounds;
    }
}

impl PolygonView {
    pub open spec fn with_bounds(self, bounds: Bounds) -> PolygonView {
        PolygonView { bounds, ..self }
    }
}

impl Polygon {
    fn put_bounds(&mut self, bounds: Bounds)
        ensures
            final(self).deep_view() == old(self).deep_view().with_bounds(bounds),
    {
        self.bounds = bounds;
    }
}

/// `out` with the box of an item replaced.
pub open spec fn with_bounds(out: SpreadView, kind: FrameKind, bounds: Bounds) -> SpreadView {
    match kind {
        FrameKind::Text(i) => SpreadView {
            text_frames: changed(
                out.text_frames,
                i as int,
                out.text_frames[i as int].with_bounds(bounds),
            ),
            ..out
        },
        FrameKind::Rect(i) => SpreadView {
            rectangles: changed(
                out.rectangles,
                i as int,
                out.rectangles[i as int].with_bounds(bounds),
            ),
            ..out
        },
        FrameKind::Oval(i) => SpreadView {
            ovals: changed(out.ovals, i as int, out.ovals[i as int].with_bounds(bounds)),
            ..out
        },
        FrameKind::Line(i) => SpreadView {
            graphic_lines: changed(
                out.graphic_lines,
                i as int,
                out.graphic_lines[i as int].with_bounds(bounds),
            ),
            ..out
        },
        FrameKind::Polygon(i) => SpreadView {
            polygons: changed(out.polygons, i as int, out.polygons[i as int].with_bounds(bounds)),
            ..out
        },
    }
}

pub fn set_bounds(out: &mut Spread, kind: FrameKind, bounds: Bounds)
    ensures
        final(out).deep_view() == with_bounds(old(out).deep_view(), kind, bounds),
{
    match kind {
        FrameKind::Text(i) => {
            if i < out.text_frames.len() {
                item_at(&mut out.text_frames, i).put_bounds(bounds);
            }
        },
        FrameKind::Rect(i) => {
            if i < out.rectangles.len() {
                item_at(&mut out.rectangles, i).put_bounds(bounds);
            }
        },
        FrameKind::Oval(i) => {
            if i < out.ovals.len() {
                item_at(&mut out.ovals, i).put_bounds(bounds);
            }
        },
        FrameKind::Line(i) => {
            if i < out.graphic_lines.len() {
                item_at(&mut out.graphic_lines, i).put_bounds(bounds);
            }
        },
        FrameKind::Polygon(i) => {
            if i < out.polygons.len() {
                item_at(&mut out.polygons, i).put_bounds(bounds);
            }
        },
    }
}

impl TextFrameView {
    pub open spec fn with_drop_shadow(self, shadow: DropShadowSettingView) -> TextFrameView {
        TextFrameView { drop_shadow: Some(shadow), ..self }
    }
}

impl TextFrame {
    fn put_drop_shadow(&mut self, shadow: DropShadowSetting)
        ensures
            final(self).deep_view() == old(self).deep_view().with_drop_shadow(shadow.deep_view()),
    {
        self.drop_shadow = Some(shadow);
    }
}

impl RectangleView {
    pub open spec fn with_drop_shadow(self, shadow: DropShadowSettingView) -> RectangleView {
        RectangleView { drop_shadow: Some(shadow), ..self }
    }
}

impl Rectangle {
    fn put_drop_shadow(&mut self, shadow: DropShadowSetting)
        ensures
            final(self).deep_view() == old(self).deep_view().with_drop_shadow(shadow.deep_view()),
    {
        self.drop_shadow = Some(shadow);
    }
}

impl OvalView {
    pub open spec fn with_drop_shadow(self, shadow: DropShadowSettingView) -> OvalView {
        OvalView { drop_shadow: Some(shadow), ..self }
    }
}

impl Oval {
    fn put_drop_shadow(&mut self, shadow: DropShadowSetting)
        ensures
            final(self).deep_view() == old(self).deep_view().with_drop_shadow(shadow.deep_view()),
    {
        self.drop_shadow = Some(shadow);
    }
}

/// `out` with the shadow of an item replaced; a line or a polygon has none.
pub open spec fn with_drop_shadow(
    out: SpreadView,
    kind: FrameKind,
    shadow: DropShadowSettingView,
) -> SpreadView {
    match kind {
        FrameKind::Text(i) => SpreadView {
            text_frames: changed(
                out.text_frames,
                i as int,
                out.text_frames[i as int].with_drop_shadow(shadow),
            ),
            ..out
        },
        FrameKind::Rect(i) => SpreadView {
            rectangles: changed(
                out.rectangles,
                i as int,
                out.rectangles[i as int].with_drop_shadow(shadow),
            ),
            ..out
        },
        FrameKind::Oval(i) => SpreadView {
            ovals: changed(out.ovals, i as int, out.ovals[i as int].with_drop_shadow(shadow)),
            ..out
        },
        _ => out,
    }
}

pub fn set_drop_shadow(out: &mut Spread, kind: FrameKind, shadow: DropShadowSetting)
    ensures
        final(out).deep_view() == with_drop_shadow(old(out).deep_view(), kind, shadow.deep_view()),
{
    match kind {
        FrameKind::Text(i) => {
            if i < out.text_frames.len() {
                item_at(&mut out.text_frames, i).put_drop_shadow(shadow);
            }
        },
        FrameKind::Rect(i) => {
            if i < out.rectangles.len() {
                item_at(&mut out.rectangles, i).put_drop_shadow(shadow);
            }
        },
        FrameKind::Oval(i) => {
            if i < out.ovals.len() {
                item_at(&mut out.ovals, i).put_drop_shadow(shadow);
            }
        },
        _ => {},
    }
}

impl TextFrameView {
    pub open spec fn with_stroke_drop_shadow(self, shadow: DropShadowSettingView) -> TextFrameView {
        TextFrameView { stroke_drop_shadow: Some(shadow), ..self }
    }
}

impl TextFrame {
    fn put_stroke_drop_shadow(&mut self, shadow: DropShadowSetting)
        ensures
            final(self).deep_view() == old(self).deep_view().with_stroke_drop_shadow(
                shadow.deep_view(),
            ),
    {
        self.stroke_drop_shadow = Some(shadow);
    }
}

impl RectangleView {
    pub open spec fn with_stroke_drop_shadow(self, shadow: DropShadowSettingView) -> RectangleView {
        RectangleView { stroke_drop_shadow: Some(shadow), ..self }
    }
}

impl Rectangle {
    fn put_stroke_drop_shadow(&mut self, shadow: DropShadowSetting)
        ensures
            final(self).deep_view() == old(self).deep_view().with_stroke_drop_shadow(
                shadow.deep_view(),
            ),
    {
        self.stroke_drop_shadow = Some(shadow);
    }
}

impl OvalView {
    pub open spec fn with_stroke_drop_shadow(self, shadow: DropShadowSettingView) -> OvalView {
        OvalView { stroke_drop_shadow: Some(shadow), ..self }
    }
}

impl Oval {
    fn put_stroke_drop_shadow(&mut self, shadow: DropShadowSetting)
        ensures
            final(self).deep_view() == old(self).deep_view().with_stroke_drop_shadow(
                shadow.deep_view(),
            ),
    {
        self.stroke_drop_shadow = Some(shadow);
    }
}

/// `out` with the shadow of an item's stroke replaced; a line or a polygon has
/// none.
pub open spec fn with_stroke_drop_shadow(
    out: SpreadView,
    kind: FrameKind,
    shadow: DropShadowSettingView,
) -> SpreadView {
    match kind {
        FrameKind::Text(i) => SpreadView {
            text_frames: changed(
                out.text_frames,
                i as int,
                out.text_frames[i as int].with_stroke_drop_shadow(shadow),
            ),
            ..out
        },
        FrameKind::Rect(i) => SpreadView {
            rectangles: changed(
                out.rectangles,
                i as int,
                out.rectangles[i as int].with_stroke_drop_shadow(shadow),
            ),
            ..out
        },
        FrameKind::Oval(i) => SpreadView {
            ovals: changed(
                out.ovals,
                i as int,
                out.ovals[i as int].with_stroke_drop_shadow(shadow),
            ),
            ..out
        },
        _ => out,
    }
}

pub fn set_stroke_drop_shadow(out: &mut Spread, kind: FrameKind, shadow: DropShadowSetting)
    ensures
        final(out).deep_view() == with_stroke_drop_shadow(
            old(out).deep_view(),
            kind,
            shadow.deep_view(),
        ),
{
    match kind {
        FrameKind::Text(i) => {
            if i < out.text_frames.len() {
                item_at(&mut out.text_frames, i).put_stroke_drop_shadow(shadow);
            }
        },
        FrameKind::Rect(i) => {
            if i < out.rectangles.len() {
                item_at(&mut out.rectangles, i).put_stroke_drop_shadow(shadow);
            }
        },
        FrameKind::Oval(i) => {
            if i < out.ovals.len() {
                item_at(&mut out.ovals, i).put_stroke_drop_shadow(shadow);
            }
        },
        _ => {},
    }
}

impl TextFrameView {
    pub open spec fn with_anchored_flag(self) -> TextFrameView {
        TextFrameView { is_anchored: true, ..self }
    }
}

impl TextFrame {
    fn put_anchored_flag(&mut self)
        ensures
            final(self).deep_view() == old(self).deep_view().with_anchored_flag(),
    {
        self.is_anchored = true;
    }
}

impl RectangleView {
    pub open spec fn with_anchored_flag(self) -> RectangleView {
        RectangleView { is_anchored: true, ..self }
    }
}

impl Rectangle {
    fn put_anchored_flag(&mut self)
        ensures
            final(self).deep_view() == old(self).deep_view().with_anchored_flag(),
    {
        self.is_anchored = true;
    }
}

/// `out` with an item marked as anchored in text.
pub open spec fn with_anchored_flag(out: SpreadView, kind: FrameKind) -> SpreadView {
    match kind {
        FrameKind::Text(i) => SpreadView {
            text_frames: changed(
                out.text_frames,
                i as int,
                out.text_frames[i as int].with_anchored_flag(),
            ),
            ..out
        },
        FrameKind::Rect(i) => SpreadView {
            rectangles: changed(
                out.rectangles,
                i as int,
                out.rectangles[i as int].with_anchored_flag(),
            ),
            ..out
        },
        _ => out,
    }
}

pub fn set_anchored_flag(out: &mut Spread, kind: FrameKind)
    ensures
        final(out).deep_view() == with_anchored_flag(old(out).deep_view(), kind),
{
    match kind {
        FrameKind::Text(i) => {
            if i < out.text_frames.len() {
                item_at(&mut out.text_frames, i).put_anchored_flag();
            }
        },
        FrameKind::Rect(i) => {
            if i < out.rectangles.len() {
                item_at(&mut out.rectangles, i).put_anchored_flag();
            }
        },
        _ => {},
    }
}

impl TextFrameView {
    pub open spec fn with_blending(
        self,
        opacity: Option<Num>,
        mode: Option<Seq<char>>,
    ) -> TextFrameView {
        TextFrameView {
            opacity: either(opacity, self.opacity),
            blend_mode: either(mode, self.blend_mode),
            ..self
        }
    }
}

impl TextFrame {
    fn put_blending(&mut self, opacity: Option<Num>, mode: Option<String>)
        ensures
            final(self).deep_view() == old(self).deep_view().with_blending(
                opacity,
                mode.deep_view(),
            ),
    {
        if opacity.is_some() {
            self.opacity = opacity;
        }
        if mode.is_some() {
            self.blend_mode = mode;
        }
    }
}

impl RectangleView {
    pub open spec fn with_blending(
        self,
        opacity: Option<Num>,
        mode: Option<Seq<char>>,
    ) -> RectangleView {
        RectangleView {
            opacity: either(opacity, self.opacity),
            blend_mode: either(mode, self.blend_mode),
            ..self
        }
    }
}

impl Rectangle {
    fn put_blending(&mut self, opacity: Option<Num>, mode: Option<String>)
        ensures
            final(self).deep_view() == old(self).deep_view().with_blending(
                opacity,
                mode.deep_view(),
            ),
    {
        if opacity.is_some() {
            self.opacity = opacity;
        }
        if mode.is_some() {
            self.blend_mode = mode;
        }
    }
}

impl OvalView {
    pub open spec fn with_blending(
        self,
        opacity: Option<Num>,
        mode: Option<Seq<char>>,
    ) -> OvalView {
        OvalView {
            opacity: either(opacity, self.opacity),
            blend_mode: either(mode, self.blend_mode),
            ..self
        }
    }
}

impl Oval {
    fn put_blending(&mut self, opacity: Option<Num>, mode: Option<String>)
        ensures
            final(self).deep_view() == old(self).deep_view().with_blending(
                opacity,
                mode.deep_view(),
            ),
    {
        if opacity.is_some() {
            self.opacity = opacity;
        }
        if mode.is_some() {
            self.blend_mode = mode;
        }
    }
}

impl PolygonView {
    pub open spec fn with_blending(
        self,
        opacity: Option<Num>,
        mode: Option<Seq<char>>,
    ) -> PolygonView {
        PolygonView {
            opacity: either(opacity, self.opacity),
            blend_mode: either(mode, self.blend_mode),
            ..self
        }
    }
}

impl Polygon {
    fn put_blending(&mut self, opacity: Option<Num>, mode: Option<String>)
        ensures
            final(self).deep_view() == old(self).deep_view().with_blending(
                opacity,
                mode.deep_view(),
            ),
    {
        if opacity.is_some() {
            self.opacity = opacity;
        }
        if mode.is_some() {
            self.blend_mode = mode;
        }
    }
}

/// `out` with the blending of an item replaced, as far as it is stated; a line
/// has none.
pub open spec fn with_blending(
    out: SpreadView,
    kind: FrameKind,
    opacity: Option<Num>,
    mode: Option<Seq<char>>,
) -> SpreadView {
    match kind {
        FrameKind::Rect(i) => SpreadView {
            rectangles: changed(
                out.rectangles,
                i as int,
                out.rectangles[i as int].with_blending(opacity, mode),
            ),
            ..out
        },
        FrameKind::Text(i) => SpreadView {
            text_frames: changed(
                out.text_frames,
                i as int,
                out.text_frames[i as int].with_blending(opacity, mode),
            ),
            ..out
        },
        FrameKind::Oval(i) => SpreadView {
            ovals: changed(out.ovals, i as int, out.ovals[i as int].with_blending(opacity, mode)),
            ..out
        },
        FrameKind::Polygon(i) => SpreadView {
            polygons: changed(
                out.polygons,
                i as int,
                out.polygons[i as int].with_blending(opacity, mode),
            ),
            ..out
        },
        _ => out,
    }
}

pub fn set_blending(out: &mut Spread, kind: FrameKind, opacity: Option<Num>, mode: Option<String>)
    ensures
        final(out).deep_view() == with_blending(
            old(out).deep_view(),
            kind,
            opacity,
            mode.deep_view(),
        ),
{
    match kind {
        FrameKind::Rect(i) => {
            if i < out.rectangles.len() {
                item_at(&mut out.rectangles, i).put_blending(opacity, mode);
            }
        },
        FrameKind::Text(i) => {
            if i < out.text_frames.len() {
                item_at(&mut out.text_frames, i).put_blending(opacity, mode);
            }
        },
        FrameKind::Oval(i) => {
            if i < out.ovals.len() {
                item_at(&mut out.ovals, i).put_blending(opacity, mode);
            }
        },
        FrameKind::Polygon(i) => {
            if i < out.polygons.len() {
                item_at(&mut out.polygons, i).put_blending(opacity, mode);
            }
        },
        _ => {},
    }
}

impl TextFrameView {
    pub open spec fn with_item_effect(self, tag: TagView) -> TextFrameView {
        TextFrameView {
            effects: Some(with_effect(self.effects.unwrap_or(no_effects()), tag)),
            ..self
        }
    }
}

impl TextFrame {
    fn put_item_effect(&mut self, tag: &Tag)
        ensures
            final(self).deep_view() == old(self).deep_view().with_item_effect(tag@),
    {
        let mut bag: FrameEffects = match self.effects.take() {
            None => FrameEffects::default(),
            Some(bag) => bag,
        };
        put_effect(&mut bag, tag);
        self.effects = Some(bag);
    }
}

impl RectangleView {
    pub open spec fn with_item_effect(self, tag: TagView) -> RectangleView {
        RectangleView {
            effects: Some(with_effect(self.effects.unwrap_or(no_effects()), tag)),
            ..self
        }
    }
}

impl Rectangle {
    fn put_item_effect(&mut self, tag: &Tag)
        ensures
            final(self).deep_view() == old(self).deep_view().with_item_effect(tag@),
    {
        let mut bag: FrameEffects = match self.effects.take() {
            None => FrameEffects::default(),
            Some(bag) => bag,
        };
        put_effect(&mut bag, tag);
        self.effects = Some(bag);
    }
}

impl OvalView {
    pub open spec fn with_item_effect(self, tag: TagView) -> OvalView {
        OvalView { effects: Some(with_effect(self.effects.unwrap_or(no_effects()), tag)), ..self }
    }
}

impl Oval {
    fn put_item_effect(&mut self, tag: &Tag)
        ensures
            final(self).deep_view() == old(self).deep_view().with_item_effect(tag@),
    {
        let mut bag: FrameEffects = match self.effects.take() {
            None => FrameEffects::default(),
            Some(bag) => bag,
        };
        put_effect(&mut bag, tag);
        self.effects = Some(bag);
    }
}

impl GraphicLineView {
    pub open spec fn with_item_effect(self, tag: TagView) -> GraphicLineView {
        GraphicLineView {
            effects: Some(with_effect(self.effects.unwrap_or(no_effects()), tag)),
            ..self
        }
    }
}

impl GraphicLine {
    fn put_item_effect(&mut self, tag: &Tag)
        ensures
            final(self).deep_view() == old(self).deep_view().with_item_effect(tag@),
    {
        let mut bag: FrameEffects = match self.effects.take() {
            None => FrameEffects::default(),
            Some(bag) => bag,
        };
        put_effect(&mut bag, tag);
        self.effects = Some(bag);
    }
}

impl PolygonView {
    pub open spec fn with_item_effect(self, tag: TagView) -> PolygonView {
        PolygonView {
            effects: Some(with_effect(self.effects.unwrap_or(no_effects()), tag)),
            ..self
        }
    }
}

impl Polygon {
    fn put_item_effect(&mut self, tag: &Tag)
        ensures
            final(self).deep_view() == old(self).deep_view().with_item_effect(tag@),
    {
        let mut bag: FrameEffects = match self.effects.take() {
            None => FrameEffects::default(),
            Some(bag) => bag,
        };
        put_effect(&mut bag, tag);
        self.effects = Some(bag);
    }
}

/// `out` with the effect that a tag states put on an item.
pub open spec fn with_item_effect(out: SpreadView, kind: FrameKind, tag: TagView) -> SpreadView {
    match kind {
        FrameKind::Text(i) => SpreadView {
            text_frames: changed(
                out.text_frames,
                i as int,
                out.text_frames[i as int].with_item_effect(tag),
            ),
            ..out
        },
        FrameKind::Rect(i) => SpreadView {
            rectangles: changed(
                out.rectangles,
                i as int,
                out.rectangles[i as int].with_item_effect(tag),
            ),
            ..out
        },
        FrameKind::Oval(i) => SpreadView {
            ovals: changed(out.ovals, i as int, out.ovals[i as int].with_item_effect(tag)),
            ..out
        },
        FrameKind::Line(i) => SpreadView {
            graphic_lines: changed(
                out.graphic_lines,
                i as int,
                out.graphic_lines[i as int].with_item_effect(tag),
            ),
            ..out
        },
        FrameKind::Polygon(i) => SpreadView {
            polygons: changed(out.polygons, i as int, out.polygons[i as int].with_item_effect(tag)),
            ..out
        },
    }
}

pub fn set_item_effect(out: &mut Spread, kind: FrameKind, tag: &Tag)
    ensures
        final(out).deep_view() == with_item_effect(old(out).deep_view(), kind, tag@),
{
    match kind {
        FrameKind::Text(i) => {
            if i < out.text_frames.len() {
                item_at(&mut out.text_frames, i).put_item_effect(tag);
            }
        },
        FrameKind::Rect(i) => {
            if i < out.rectangles.len() {
                item_at(&mut out.rectangles, i).put_item_effect(tag);
            }
        },
        FrameKind::Oval(i) => {
            if i < out.ovals.len() {
                item_at(&mut out.ovals, i).put_item_effect(tag);
            }
        },
        FrameKind::Line(i) => {
            if i < out.graphic_lines.len() {
                item_at(&mut out.graphic_lines, i).put_item_effect(tag);
            }
        },
        FrameKind::Polygon(i) => {
            if i < out.polygons.len() {
                item_at(&mut out.polygons, i).put_item_effect(tag);
            }
        },
    }
}

/// `effects` with the stop that a tag states added to their gradient feather.
pub open spec fn with_stop(effects: Option<FrameEffectsView>, tag: TagView) -> Option<
    FrameEffectsView,
> {
    match effects {
        None => None,
        Some(bag) => match bag.gradient_feather {
            None => effects,
            Some(feather) => Some(
                FrameEffectsView {
                    gradient_feather: Some(
                        GradientFeatherParamsView {
                            stops: feather.stops.push(feather_stop_of(tag)),
                            ..feather
                        },
                    ),
                    ..bag
                },
            ),
        },
    }
}

fn add_stop(effects: Option<FrameEffects>, tag: &Tag) -> (r: Option<FrameEffects>)
    ensures
        r.deep_view() == with_stop(effects.deep_view(), tag@),
{
    match effects {
        None => None,
        Some(bag) => {
            let mut bag: FrameEffects = bag;
            if let Some(feather) = bag.gradient_feather.take() {
                let mut feather: GradientFeatherParams = feather;
                push_item(&mut feather.stops, read_feather_stop(tag));
                bag.gradient_feather = Some(feather);
            }
            Some(bag)
        },
    }
}

impl TextFrameView {
    pub open spec fn with_feather_stop(self, tag: TagView) -> TextFrameView {
        TextFrameView { effects: with_stop(self.effects, tag), ..self }
    }
}

impl TextFrame {
    fn put_feather_stop(&mut self, tag: &Tag)
        ensures
            final(self).deep_view() == old(self).deep_view().with_feather_stop(tag@),
    {
        self.effects = add_stop(self.effects.take(), tag);
    }
}

impl RectangleView {
    pub open spec fn with_feather_stop(self, tag: TagView) -> RectangleView {
        RectangleView { effects: with_stop(self.effects, tag), ..self }
    }
}

impl Rectangle {
    fn put_feather_stop(&mut self, tag: &Tag)
        ensures
            final(self).deep_view() == old(self).deep_view().with_feather_stop(tag@),
    {
        self.effects = add_stop(self.effects.take(), tag);
    }
}

impl OvalView {
    pub open spec fn with_feather_stop(self, tag: TagView) -> OvalView {
        OvalView { effects: with_stop(self.effects, tag), ..self }
    }
}

impl Oval {
    fn put_feather_stop(&mut self, tag: &Tag)
        ensures
            final(self).deep_view() == old(self).deep_view().with_feather_stop(tag@),
    {
        self.effects = add_stop(self.effects.take(), tag);
    }
}

impl GraphicLineView {
    pub open spec fn with_feather_stop(self, tag: TagView) -> GraphicLineView {
        GraphicLineView { effects: with_stop(self.effects, tag), ..self }
    }
}

impl GraphicLine {
    fn put_feather_stop(&mut self, tag: &Tag)
        ensures
            final(self).deep_view() == old(self).deep_view().with_feather_stop(tag@),
    {
        self.effects = add_stop(self.effects.take(), tag);
    }
}

impl PolygonView {
    pub open spec fn with_feather_stop(self, tag: TagView) -> PolygonView {
        PolygonView { effects: with_stop(self.effects, tag), ..self }
    }
}

impl Polygon {
    fn put_feather_stop(&mut self, tag: &Tag)
        ensures
            final(self).deep_view() == old(self).deep_view().with_feather_stop(tag@),
    {
        self.effects = add_stop(self.effects.take(), tag);
    }
}

/// `out` with the stop that a tag states added to the gradient feather of an
/// item.
pub open spec fn with_feather_stop(out: SpreadView, kind: FrameKind, tag: TagView) -> SpreadView {
    match kind {
        FrameKind::Text(i) => SpreadView {
            text_frames: changed(
                out.text_frames,
                i as int,
                out.text_frames[i as int].with_feather_stop(tag),
            ),
            ..out
        },
        FrameKind::Rect(i) => SpreadView {
            rectangles: changed(
                out.rectangles,
                i as int,
                out.rectangles[i as int].with_feather_stop(tag),
            ),
            ..out
        },
        FrameKind::Oval(i) => SpreadView {
            ovals: changed(out.ovals, i as int, out.ovals[i as int].with_feather_stop(tag)),
            ..out
        },
        FrameKind::Line(i) => SpreadView {
            graphic_lines: changed(
                out.graphic_lines,
                i as int,
                out.graphic_lines[i as int].with_feather_stop(tag),
            ),
            ..out
        },
        FrameKind::Polygon(i) => SpreadView {
            polygons: changed(
                out.polygons,
                i as int,
                out.polygons[i as int].with_feather_stop(tag),
            ),
            ..out
        },
    }
}

pub fn set_feather_stop(out: &mut Spread, kind: FrameKind, tag: &Tag)
    ensures
        final(out).deep_view() == with_feather_stop(old(out).deep_view(), kind, tag@),
{
    match kind {
        FrameKind::Text(i) => {
            if i < out.text_frames.len() {
                item_at(&mut out.text_frames, i).put_feather_stop(tag);
            }
        },
        FrameKind::Rect(i) => {
            if i < out.rectangles.len() {
                item_at(&mut out.rectangles, i).put_feather_stop(tag);
            }
        },
        FrameKind::Oval(i) => {
            if i < out.ovals.len() {
                item_at(&mut out.ovals, i).put_feather_stop(tag);
            }
        },
        FrameKind::Line(i) => {
            if i < out.graphic_lines.len() {
                item_at(&mut out.graphic_lines, i).put_feather_stop(tag);
            }
        },
        FrameKind::Polygon(i) => {
            if i < out.polygons.len() {
                item_at(&mut out.polygons, i).put_feather_stop(tag);
            }
        },
    }
}

impl RectangleView {
    pub open spec fn with_image(
        self,
        is_image: bool,
        inline_pdf: bool,
        link: Option<Seq<char>>,
        placed: Option<Matrix>,
    ) -> RectangleView {
        RectangleView {
            has_image_element: is_image || self.has_image_element,
            has_inline_pdf: inline_pdf || self.has_inline_pdf,
            image_link: either(self.image_link, link),
            image_item_transform: either(self.image_item_transform, placed),
            ..self
        }
    }
}

impl Rectangle {
    fn put_image(
        &mut self,
        is_image: bool,
        inline_pdf: bool,
        link: Option<String>,
        placed: Option<Matrix>,
    )
        ensures
            final(self).deep_view() == old(self).deep_view().with_image(
                is_image,
                inline_pdf,
                link.deep_view(),
                placed,
            ),
    {
        if is_image {
            self.has_image_element = true;
        }
        if inline_pdf {
            self.has_inline_pdf = true;
        }
        if self.image_link.is_none() {
            self.image_link = link;
        }
        if self.image_item_transform.is_none() {
            self.image_item_transform = placed;
        }
    }
}

impl OvalView {
    pub open spec fn with_image(
        self,
        is_image: bool,
        inline_pdf: bool,
        link: Option<Seq<char>>,
        placed: Option<Matrix>,
    ) -> OvalView {
        OvalView {
            has_image_element: is_image || self.has_image_element,
            has_inline_pdf: inline_pdf || self.has_inline_pdf,
            image_link: either(self.image_link, link),
            image_item_transform: either(self.image_item_transform, placed),
            ..self
        }
    }
}

impl Oval {
    fn put_image(
        &mut self,
        is_image: bool,
        inline_pdf: bool,
        link: Option<String>,
        placed: Option<Matrix>,
    )
        ensures
            final(self).deep_view() == old(self).deep_view().with_image(
                is_image,
                inline_pdf,
                link.deep_view(),
                placed,
            ),
    {
        if is_image {
            self.has_image_element = true;
        }
        if inline_pdf {
            self.has_inline_pdf = true;
        }
        if self.image_link.is_none() {
            self.image_link = link;
        }
        if self.image_item_transform.is_none() {
            self.image_item_transform = placed;
        }
    }
}

impl PolygonView {
    pub open spec fn with_image(
        self,
        is_image: bool,
        inline_pdf: bool,
        link: Option<Seq<char>>,
        placed: Option<Matrix>,
    ) -> PolygonView {
        PolygonView {
            has_image_element: is_image || self.has_image_element,
            has_inline_pdf: inline_pdf || self.has_inline_pdf,
            image_link: either(self.image_link, link),
            image_item_transform: either(self.image_item_transform, placed),
            ..self
        }
    }
}

impl Polygon {
    fn put_image(
        &mut self,
        is_image: bool,
        inline_pdf: bool,
        link: Option<String>,
        placed: Option<Matrix>,
    )
        ensures
            final(self).deep_view() == old(self).deep_view().with_image(
                is_image,
                inline_pdf,
                link.deep_view(),
                placed,
            ),
    {
        if is_image {
            self.has_image_element = true;
        }
        if inline_pdf {
            self.has_inline_pdf = true;
        }
        if self.image_link.is_none() {
            self.image_link = link;
        }
        if self.image_item_transform.is_none() {
            self.image_item_transform = placed;
        }
    }
}

/// `out` with what the tag of an image or of its link states put on an item.
/// What was stated first stays.
pub open spec fn with_image(
    out: SpreadView,
    kind: FrameKind,
    is_image: bool,
    inline_pdf: bool,
    link: Option<Seq<char>>,
    placed: Option<Matrix>,
) -> SpreadView {
    match kind {
        FrameKind::Rect(i) => SpreadView {
            rectangles: changed(
                out.rectangles,
                i as int,
                out.rectangles[i as int].with_image(is_image, inline_pdf, link, placed),
            ),
            ..out
        },
        FrameKind::Oval(i) => SpreadView {
            ovals: changed(
                out.ovals,
                i as int,
                out.ovals[i as int].with_image(is_image, inline_pdf, link, placed),
            ),
            ..out
        },
        FrameKind::Polygon(i) => SpreadView {
            polygons: changed(
                out.polygons,
                i as int,
                out.polygons[i as int].with_image(is_image, inline_pdf, link, placed),
            ),
            ..out
        },
        _ => out,
    }
}

pub fn set_image(
    out: &mut Spread,
    kind: FrameKind,
    is_image: bool,
    inline_pdf: bool,
    link: Option<String>,
    placed: Option<Matrix>,
)
    ensures
        final(out).deep_view() == with_image(
            old(out).deep_view(),
            kind,
            is_image,
            inline_pdf,
            link.deep_view(),
            placed,
        ),
{
    match kind {
        FrameKind::Rect(i) => {
            if i < out.rectangles.len() {
                item_at(&mut out.rectangles, i).put_image(is_image, inline_pdf, link, placed);
            }
        },
        FrameKind::Oval(i) => {
            if i < out.ovals.len() {
                item_at(&mut out.ovals, i).put_image(is_image, inline_pdf, link, placed);
            }
        },
        FrameKind::Polygon(i) => {
            if i < out.polygons.len() {
                item_at(&mut out.polygons, i).put_image(is_image, inline_pdf, link, placed);
            }
        },
        _ => {},
    }
}

impl RectangleView {
    pub open spec fn with_image_clip(self, clip: ClippingPathSettingsView) -> RectangleView {
        RectangleView { image_clip: Some(clip), ..self }
    }
}

impl Rectangle {
    fn put_image_clip(&mut self, clip: ClippingPathSettings)
        ensures
            final(self).deep_view() == old(self).deep_view().with_image_clip(clip.deep_view()),
    {
        self.image_clip = Some(clip);
    }
}

impl OvalView {
    pub open spec fn with_image_clip(self, clip: ClippingPathSettingsView) -> OvalView {
        OvalView { image_clip: Some(clip), ..self }
    }
}

impl Oval {
    fn put_image_clip(&mut self, clip: ClippingPathSettings)
        ensures
            final(self).deep_view() == old(self).deep_view().with_image_clip(clip.deep_view()),
    {
        self.image_clip = Some(clip);
    }
}

impl PolygonView {
    pub open spec fn with_image_clip(self, clip: ClippingPathSettingsView) -> PolygonView {
        PolygonView { image_clip: Some(clip), ..self }
    }
}

impl Polygon {
    fn put_image_clip(&mut self, clip: ClippingPathSettings)
        ensures
            final(self).deep_view() == old(self).deep_view().with_image_clip(clip.deep_view()),
    {
        self.image_clip = Some(clip);
    }
}

/// `out` with the clipping path of an item's image replaced.
pub open spec fn with_image_clip(
    out: SpreadView,
    kind: FrameKind,
    clip: ClippingPathSettingsView,
) -> SpreadView {
    match kind {
        FrameKind::Rect(i) => SpreadView {
            rectangles: changed(
                out.rectangles,
                i as int,
                out.rectangles[i as int].with_image_clip(clip),
            ),
            ..out
        },
        FrameKind::Oval(i) => SpreadView {
            ovals: changed(out.ovals, i as int, out.ovals[i as int].with_image_clip(clip)),
            ..out
        },
        FrameKind::Polygon(i) => SpreadView {
            polygons: changed(out.polygons, i as int, out.polygons[i as int].with_image_clip(clip)),
            ..out
        },
        _ => out,
    }
}

pub fn set_image_clip(out: &mut Spread, kind: FrameKind, clip: ClippingPathSettings)
    ensures
        final(out).deep_view() == with_image_clip(old(out).deep_view(), kind, clip.deep_view()),
{
    match kind {
        FrameKind::Rect(i) => {
            if i < out.rectangles.len() {
                item_at(&mut out.rectangles, i).put_image_clip(clip);
            }
        },
        FrameKind::Oval(i) => {
            if i < out.ovals.len() {
                item_at(&mut out.ovals, i).put_image_clip(clip);
            }
        },
        FrameKind::Polygon(i) => {
            if i < out.polygons.len() {
                item_at(&mut out.polygons, i).put_image_clip(clip);
            }
        },
        _ => {},
    }
}

impl RectangleView {
    pub open spec fn with_image_bytes(self, bytes: Seq<u8>) -> RectangleView {
        RectangleView { image_bytes: Some(bytes), ..self }
    }
}

impl Rectangle {
    fn put_image_bytes(&mut self, bytes: Vec<u8>)
        ensures
            final(self).deep_view() == old(self).deep_view().with_image_bytes(bytes@),
    {
        assert(bytes.deep_view() =~= bytes@);
        self.image_bytes = Some(bytes);
    }
}

impl OvalView {
    pub open spec fn with_image_bytes(self, bytes: Seq<u8>) -> OvalView {
        OvalView { image_bytes: Some(bytes), ..self }
    }
}

impl Oval {
    fn put_image_bytes(&mut self, bytes: Vec<u8>)
        ensures
            final(self).deep_view() == old(self).deep_view().with_image_bytes(bytes@),
    {
        assert(bytes.deep_view() =~= bytes@);
        self.image_bytes = Some(bytes);
    }
}

impl PolygonView {
    pub open spec fn with_image_bytes(self, bytes: Seq<u8>) -> PolygonView {
        PolygonView { image_bytes: Some(bytes), ..self }
    }
}

impl Polygon {
    fn put_image_bytes(&mut self, bytes: Vec<u8>)
        ensures
            final(self).deep_view() == old(self).deep_view().with_image_bytes(bytes@),
    {
        assert(bytes.deep_view() =~= bytes@);
        self.image_bytes = Some(bytes);
    }
}

/// `out` with the content of an item's image replaced.
pub open spec fn with_image_bytes(out: SpreadView, kind: FrameKind, bytes: Seq<u8>) -> SpreadView {
    match kind {
        FrameKind::Rect(i) => SpreadView {
            rectangles: changed(
                out.rectangles,
                i as int,
                out.rectangles[i as int].with_image_bytes(bytes),
            ),
            ..out
        },
        FrameKind::Oval(i) => SpreadView {
            ovals: changed(out.ovals, i as int, out.ovals[i as int].with_image_bytes(bytes)),
            ..out
        },
        FrameKind::Polygon(i) => SpreadView {
            polygons: changed(
                out.polygons,
                i as int,
                out.polygons[i as int].with_image_bytes(bytes),
            ),
            ..out
        },
        _ => out,
    }
}

pub fn set_image_bytes(out: &mut Spread, kind: FrameKind, bytes: Vec<u8>)
    ensures
        final(out).deep_view() == with_image_bytes(old(out).deep_view(), kind, bytes@),
{
    match kind {
        FrameKind::Rect(i) => {
            if i < out.rectangles.len() {
                item_at(&mut out.rectangles, i).put_image_bytes(bytes);
            }
        },
        FrameKind::Oval(i) => {
            if i < out.ovals.len() {
                item_at(&mut out.ovals, i).put_image_bytes(bytes);
            }
        },
        FrameKind::Polygon(i) => {
            if i < out.polygons.len() {
                item_at(&mut out.polygons, i).put_image_bytes(bytes);
            }
        },
        _ => {},
    }
}

impl RectangleView {
    pub open spec fn with_fitting(self, tag: TagView) -> RectangleView {
        RectangleView { frame_fitting: Some(fitting_of(tag)), ..self }
    }
}

impl Rectangle {
    fn put_fitting(&mut self, tag: &Tag)
        ensures
            final(self).deep_view() == old(self).deep_view().with_fitting(tag@),
    {
        self.frame_fitting = Some(read_fitting(tag));
    }
}

/// `out` with the fitting of a rectangle's image replaced by what a tag states.
pub open spec fn with_fitting(out: SpreadView, kind: FrameKind, tag: TagView) -> SpreadView {
    match kind {
        FrameKind::Rect(i) => SpreadView {
            rectangles: changed(
                out.rectangles,
                i as int,
                out.rectangles[i as int].with_fitting(tag),
            ),
            ..out
        },
        _ => out,
    }
}

pub fn set_fitting(out: &mut Spread, kind: FrameKind, tag: &Tag)
    ensures
        final(out).deep_view() == with_fitting(old(out).deep_view(), kind, tag@),
{
    match kind {
        FrameKind::Rect(i) => {
            if i < out.rectangles.len() {
                item_at(&mut out.rectangles, i).put_fitting(tag);
            }
        },
        _ => {},
    }
}

impl RectangleView {
    pub open spec fn with_text_path(self, path: TextPathView) -> RectangleView {
        RectangleView { text_paths: self.text_paths.push(path), ..self }
    }
}

impl Rectangle {
    fn put_text_path(&mut self, path: TextPath)
        ensures
            final(self).deep_view() == old(self).deep_view().with_text_path(path.deep_view()),
    {
        push_item(&mut self.text_paths, path);
    }
}

impl GraphicLineView {
    pub open spec fn with_text_path(self, path: TextPathView) -> GraphicLineView {
        GraphicLineView { text_paths: self.text_paths.push(path), ..self }
    }
}

impl GraphicLine {
    fn put_text_path(&mut self, path: TextPath)
        ensures
            final(self).deep_view() == old(self).deep_view().with_text_path(path.deep_view()),
    {
        push_item(&mut self.text_paths, path);
    }
}

impl PolygonView {
    pub open spec fn with_text_path(self, path: TextPathView) -> PolygonView {
        PolygonView { text_paths: self.text_paths.push(path), ..self }
    }
}

impl Polygon {
    fn put_text_path(&mut self, path: TextPath)
        ensures
            final(self).deep_view() == old(self).deep_view().with_text_path(path.deep_view()),
    {
        push_item(&mut self.text_paths, path);
    }
}

/// `out` with a text path added to an item; a text frame or an oval has none.
pub open spec fn with_text_path(
    out: SpreadView,
    kind: FrameKind,
    path: TextPathView,
) -> SpreadView {
    match kind {
        FrameKind::Polygon(i) => SpreadView {
            polygons: changed(out.polygons, i as int, out.polygons[i as int].with_text_path(path)),
            ..out
        },
        FrameKind::Rect(i) => SpreadView {
            rectangles: changed(
                out.rectangles,
                i as int,
                out.rectangles[i as int].with_text_path(path),
            ),
            ..out
        },
        FrameKind::Line(i) => SpreadView {
            graphic_lines: changed(
                out.graphic_lines,
                i as int,
                out.graphic_lines[i as int].with_text_path(path),
            ),
            ..out
        },
        _ => out,
    }
}

pub fn set_text_path(out: &mut Spread, kind: FrameKind, path: TextPath)
    ensures
        final(out).deep_view() == with_text_path(old(out).deep_view(), kind, path.deep_view()),
{
    match kind {
        FrameKind::Polygon(i) => {
            if i < out.polygons.len() {
                item_at(&mut out.polygons, i).put_text_path(path);
            }
        },
        FrameKind::Rect(i) => {
            if i < out.rectangles.len() {
                item_at(&mut out.rectangles, i).put_text_path(path);
            }
        },
        FrameKind::Line(i) => {
            if i < out.graphic_lines.len() {
                item_at(&mut out.graphic_lines, i).put_text_path(path);
            }
        },
        _ => {},
    }
}

impl TextFrameView {
    pub open spec fn with_outline(
        self,
        anchors: Seq<PathAnchor>,
        starts: Seq<usize>,
        opens: Seq<bool>,
    ) -> TextFrameView {
        TextFrameView { anchors: anchors, subpath_starts: starts, subpath_open: opens, ..self }
    }
}

impl TextFrame {
    fn put_outline(&mut self, anchors: Vec<PathAnchor>, starts: Vec<usize>, opens: Vec<bool>)
        ensures
            final(self).deep_view() == old(self).deep_view().with_outline(
                anchors@,
                starts@,
                opens@,
            ),
    {
        self.anchors = anchors;
        self.subpath_starts = starts;
        self.subpath_open = opens;
    }
}

impl RectangleView {
    pub open spec fn with_outline(
        self,
        anchors: Seq<PathAnchor>,
        starts: Seq<usize>,
        opens: Seq<bool>,
    ) -> RectangleView {
        RectangleView { anchors: anchors, subpath_starts: starts, subpath_open: opens, ..self }
    }
}

impl Rectangle {
    fn put_outline(&mut self, anchors: Vec<PathAnchor>, starts: Vec<usize>, opens: Vec<bool>)
        ensures
            final(self).deep_view() == old(self).deep_view().with_outline(
                anchors@,
                starts@,
                opens@,
            ),
    {
        self.anchors = anchors;
        self.subpath_starts = starts;
        self.subpath_open = opens;
    }
}

impl GraphicLineView {
    pub open spec fn with_outline(
        self,
        anchors: Seq<PathAnchor>,
        starts: Seq<usize>,
        opens: Seq<bool>,
    ) -> GraphicLineView {
        GraphicLineView { anchors: anchors, subpath_starts: starts, subpath_open: opens, ..self }
    }
}

impl GraphicLine {
    fn put_outline(&mut self, anchors: Vec<PathAnchor>, starts: Vec<usize>, opens: Vec<bool>)
        ensures
            final(self).deep_view() == old(self).deep_view().with_outline(
                anchors@,
                starts@,
                opens@,
            ),
    {
        self.anchors = anchors;
        self.subpath_starts = starts;
        self.subpath_open = opens;
    }
}

impl PolygonView {
    pub open spec fn with_outline(
        self,
        anchors: Seq<PathAnchor>,
        starts: Seq<usize>,
        opens: Seq<bool>,
    ) -> PolygonView {
        PolygonView { anchors: anchors, subpath_starts: starts, subpath_open: opens, ..self }
    }
}

impl Polygon {
    fn put_outline(&mut self, anchors: Vec<PathAnchor>, starts: Vec<usize>, opens: Vec<bool>)
        ensures
            final(self).deep_view() == old(self).deep_view().with_outline(
                anchors@,
                starts@,
                opens@,
            ),
    {
        self.anchors = anchors;
        self.subpath_starts = starts;
        self.subpath_open = opens;
    }
}

/// `out` with the path of an item replaced; a rectangle keeps only a path of
/// more than four points, and an oval none.
pub open spec fn with_outline(
    out: SpreadView,
    kind: FrameKind,
    anchors: Seq<PathAnchor>,
    starts: Seq<usize>,
    opens: Seq<bool>,
) -> SpreadView {
    match kind {
        FrameKind::Polygon(i) => SpreadView {
            polygons: changed(
                out.polygons,
                i as int,
                out.polygons[i as int].with_outline(anchors, starts, opens),
            ),
            ..out
        },
        FrameKind::Line(i) => SpreadView {
            graphic_lines: changed(
                out.graphic_lines,
                i as int,
                out.graphic_lines[i as int].with_outline(anchors, starts, opens),
            ),
            ..out
        },
        FrameKind::Text(i) => SpreadView {
            text_frames: changed(
                out.text_frames,
                i as int,
                out.text_frames[i as int].with_outline(anchors, starts, opens),
            ),
            ..out
        },
        FrameKind::Rect(i) => SpreadView {
            rectangles: changed(
                out.rectangles,
                i as int,
                out.rectangles[i as int].with_outline(anchors, starts, opens),
            ),
            ..out
        },
        _ => out,
    }
}

pub fn set_outline(
    out: &mut Spread,
    kind: FrameKind,
    anchors: Vec<PathAnchor>,
    starts: Vec<usize>,
    opens: Vec<bool>,
)
    ensures
        final(out).deep_view() == with_outline(
            old(out).deep_view(),
            kind,
            anchors@,
            starts@,
            opens@,
        ),
{
    match kind {
        FrameKind::Polygon(i) => {
            if i < out.polygons.len() {
                item_at(&mut out.polygons, i).put_outline(anchors, starts, opens);
            }
        },
        FrameKind::Line(i) => {
            if i < out.graphic_lines.len() {
                item_at(&mut out.graphic_lines, i).put_outline(anchors, starts, opens);
            }
        },
        FrameKind::Text(i) => {
            if i < out.text_frames.len() {
                item_at(&mut out.text_frames, i).put_outline(anchors, starts, opens);
            }
        },
        FrameKind::Rect(i) => {
            if i < out.rectangles.len() {
                item_at(&mut out.rectangles, i).put_outline(anchors, starts, opens);
            }
        },
        _ => {},
    }
}

/// The `VerticalJustification` that a tag states.
pub open spec fn vertical_justification_of(tag: TagView) -> Option<VerticalJustification> {
    match tag.text("VerticalJustification"@) {
        None => None,
        Some(s) => VerticalJustification::named(s),
    }
}

fn read_vertical_justification(tag: &Tag) -> (r: Option<VerticalJustification>)
    ensures
        r == vertical_justification_of(tag@),
{
    match tag.text("VerticalJustification") {
        None => None,
        Some(s) => VerticalJustification::from_idml(s.as_str()),
    }
}

/// The `FirstBaselineOffset` that a tag states.
pub open spec fn first_baseline_offset_of(tag: TagView) -> Option<FirstBaselineOffset> {
    match tag.text("FirstBaselineOffset"@) {
        None => None,
        Some(s) => FirstBaselineOffset::named(s),
    }
}

fn read_first_baseline_offset(tag: &Tag) -> (r: Option<FirstBaselineOffset>)
    ensures
        r == first_baseline_offset_of(tag@),
{
    match tag.text("FirstBaselineOffset") {
        None => None,
        Some(s) => FirstBaselineOffset::from_idml(s.as_str()),
    }
}

/// The `AutoSizingType` that a tag states.
pub open spec fn auto_sizing_of(tag: TagView) -> Option<AutoSizingType> {
    match tag.text("AutoSizingType"@) {
        None => None,
        Some(s) => AutoSizingType::named(s),
    }
}

fn read_auto_sizing(tag: &Tag) -> (r: Option<AutoSizingType>)
    ensures
        r == auto_sizing_of(tag@),
{
    match tag.text("AutoSizingType") {
        None => None,
        Some(s) => AutoSizingType::from_idml(s.as_str()),
    }
}

/// The `AutoSizingReferencePoint` that a tag states.
pub open spec fn auto_sizing_reference_point_of(tag: TagView) -> Option<AutoSizingReferencePoint> {
    match tag.text("AutoSizingReferencePoint"@) {
        None => None,
        Some(s) => AutoSizingReferencePoint::named(s),
    }
}

fn read_auto_sizing_reference_point(tag: &Tag) -> (r: Option<AutoSizingReferencePoint>)
    ensures
        r == auto_sizing_reference_point_of(tag@),
{
    match tag.text("AutoSizingReferencePoint") {
        None => None,
        Some(s) => AutoSizingReferencePoint::from_idml(s.as_str()),
    }
}

impl TextFrameView {
    pub open spec fn with_preference(self, tag: TagView) -> TextFrameView {
        TextFrameView {
            vertical_justification: either(
                vertical_justification_of(tag),
                self.vertical_justification,
            ),
            first_baseline_offset: either(
                first_baseline_offset_of(tag),
                self.first_baseline_offset,
            ),
            minimum_first_baseline_offset: either(
                tag.num("MinimumFirstBaselineOffset"@),
                self.minimum_first_baseline_offset,
            ),
            inset_spacing: either(tag.insets("InsetSpacing"@), self.inset_spacing),
            auto_sizing: either(auto_sizing_of(tag), self.auto_sizing),
            auto_sizing_reference_point: either(
                auto_sizing_reference_point_of(tag),
                self.auto_sizing_reference_point,
            ),
            minimum_width_for_auto_sizing: either(
                tag.num("MinimumWidthForAutoSizing"@),
                self.minimum_width_for_auto_sizing,
            ),
            minimum_height_for_auto_sizing: either(
                tag.num("MinimumHeightForAutoSizing"@),
                self.minimum_height_for_auto_sizing,
            ),
            use_minimum_height_for_auto_sizing: either(
                tag.flag("UseMinimumHeightForAutoSizing"@),
                self.use_minimum_height_for_auto_sizing,
            ),
            column_count: either(tag.count("TextColumnCount"@), self.column_count),
            column_gutter: either(tag.num("TextColumnGutter"@), self.column_gutter),
            column_balance: either(tag.flag("VerticalBalanceColumns"@), self.column_balance),
            ..self
        }
    }
}

impl TextFrame {
    fn put_preference(&mut self, tag: &Tag)
        ensures
            final(self).deep_view() == old(self).deep_view().with_preference(tag@),
    {
        self.vertical_justification = first_of(
            read_vertical_justification(tag),
            self.vertical_justification,
        );
        self.first_baseline_offset = first_of(
            read_first_baseline_offset(tag),
            self.first_baseline_offset,
        );
        self.minimum_first_baseline_offset = first_of(
            tag.num("MinimumFirstBaselineOffset"),
            self.minimum_first_baseline_offset,
        );
        self.inset_spacing = first_of(tag.insets("InsetSpacing"), self.inset_spacing);
        self.auto_sizing = first_of(read_auto_sizing(tag), self.auto_sizing);
        self.auto_sizing_reference_point = first_of(
            read_auto_sizing_reference_point(tag),
            self.auto_sizing_reference_point,
        );
        self.minimum_width_for_auto_sizing = first_of(
            tag.num("MinimumWidthForAutoSizing"),
            self.minimum_width_for_auto_sizing,
        );
        self.minimum_height_for_auto_sizing = first_of(
            tag.num("MinimumHeightForAutoSizing"),
            self.minimum_height_for_auto_sizing,
        );
        self.use_minimum_height_for_auto_sizing = first_of(
            tag.flag("UseMinimumHeightForAutoSizing"),
            self.use_minimum_height_for_auto_sizing,
        );
        self.column_count = first_of(tag.count("TextColumnCount"), self.column_count);
        self.column_gutter = first_of(tag.num("TextColumnGutter"), self.column_gutter);
        self.column_balance = first_of(tag.flag("VerticalBalanceColumns"), self.column_balance);
    }
}

/// `out` with the settings of a text frame replaced by those that a
/// `TextFramePreference` tag states; what it leaves out stays.
pub open spec fn with_preference(out: SpreadView, kind: FrameKind, tag: TagView) -> SpreadView {
    match kind {
        FrameKind::Text(i) => SpreadView {
            text_frames: changed(
                out.text_frames,
                i as int,
                out.text_frames[i as int].with_preference(tag),
            ),
            ..out
        },
        _ => out,
    }
}

pub fn set_preference(out: &mut Spread, kind: FrameKind, tag: &Tag)
    ensures
        final(out).deep_view() == with_preference(old(out).deep_view(), kind, tag@),
{
    match kind {
        FrameKind::Text(i) => {
            if i < out.text_frames.len() {
                item_at(&mut out.text_frames, i).put_preference(tag);
            }
        },
        _ => {},
    }
}

} // verus!
