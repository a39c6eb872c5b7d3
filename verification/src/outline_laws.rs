//! The paths of a spread: each item has its own in the one form that there is for
//! it.
use crate::edits::{
    with_anchored_flag, with_bounds, with_feather_stop, with_fitting, with_image_clip,
    with_outline, with_preference, with_text_path, FrameKind,
};
use crate::geometry::{extent, PathAnchor};
use crate::page_items::{
    GraphicLineView, PolygonView, RectangleView, SpreadView, TextFrameView, TextPathView,
};
use crate::shapes::text_path_of;
use crate::spread::{
    after_blending, after_close, after_detail, after_effect, after_end, after_event, after_events,
    after_group_end, after_image, after_layout, after_look, after_open, after_shadow, after_shape,
    after_transparency, after_transparency_end, after_wrap, canonical_contours, is_detail, is_image,
    is_shape, real_contours, spread_of, with_contour, with_key_value, with_path,
    with_point, without_pending, CurrentFrameView, ProgressView,
};
use crate::xml::{EventView, TagView};
use vstd::prelude::*;

verus! {

/// Whether numbers never go down.
pub open spec fn never_falls(starts: Seq<usize>) -> bool {
    forall|i: int, j: int| 0 <= i <= j < starts.len() ==> starts[i] <= starts[j]
}

/// Whether the contours of a path of so many points come in the form of which
/// there is one for each path: a single contour does not say where it starts, and
/// says whether it is open only where it is; of more, each says both, they come in
/// the order of the path, and each starts at a point of it.
pub open spec fn is_canonical(points: nat, starts: Seq<usize>, opens: Seq<bool>) -> bool {
    &&& starts.len() != 1
    &&& starts.len() == 0 ==> opens.len() == 0 || opens == seq![true]
    &&& starts.len() > 0 ==> opens.len() == starts.len()
    &&& never_falls(starts)
    &&& forall|i: int| 0 <= i < starts.len() ==> #[trigger] starts[i] < points
}

pub open spec fn text_frame_is_canonical(item: TextFrameView) -> bool {
    is_canonical(item.anchors.len(), item.subpath_starts, item.subpath_open)
}

/// A rectangle, besides, has no path that four corners can make.
pub open spec fn rectangle_is_canonical(item: RectangleView) -> bool {
    &&& is_canonical(item.anchors.len(), item.subpath_starts, item.subpath_open)
    &&& item.anchors.len() == 0 || item.anchors.len() > 4
}

pub open spec fn line_is_canonical(item: GraphicLineView) -> bool {
    is_canonical(item.anchors.len(), item.subpath_starts, item.subpath_open)
}

pub open spec fn polygon_is_canonical(item: PolygonView) -> bool {
    is_canonical(item.anchors.len(), item.subpath_starts, item.subpath_open)
}

/// Whether every item that can have a path has it in its one form.
pub open spec fn outlines_are_canonical(out: SpreadView) -> bool {
    &&& forall|i: int|
        0 <= i < out.text_frames.len() ==> text_frame_is_canonical(#[trigger] out.text_frames[i])
    &&& forall|i: int|
        0 <= i < out.rectangles.len() ==> rectangle_is_canonical(#[trigger] out.rectangles[i])
    &&& forall|i: int|
        0 <= i < out.graphic_lines.len() ==> line_is_canonical(#[trigger] out.graphic_lines[i])
    &&& forall|i: int|
        0 <= i < out.polygons.len() ==> polygon_is_canonical(#[trigger] out.polygons[i])
}

/// Whether the contours that an open item has so far follow its path.
spec fn follows(cf: CurrentFrameView, n: nat) -> bool {
    &&& cf.anchors.len() <= n
    &&& never_falls(cf.subpath_starts)
    &&& forall|i: int|
        0 <= i < cf.subpath_starts.len() ==> #[trigger] cf.subpath_starts[i] <= cf.anchors.len()
}

/// What holds of every spread in the making, with at most `n` points on a path.
#[verifier::opaque]
spec fn is_neat(st: ProgressView, n: nat) -> bool {
    &&& outlines_are_canonical(st.out)
    &&& st.current matches Some(cf) ==> follows(cf, n)
}

/// The same items with the same paths.
spec fn same_outlines(a: SpreadView, b: SpreadView) -> bool {
    &&& a.text_frames.len() == b.text_frames.len()
    &&& a.rectangles.len() == b.rectangles.len()
    &&& a.graphic_lines.len() == b.graphic_lines.len()
    &&& a.polygons.len() == b.polygons.len()
    &&& forall|i: int|
        0 <= i < b.text_frames.len() ==> (#[trigger] b.text_frames[i]).anchors
            == a.text_frames[i].anchors && b.text_frames[i].subpath_starts
            == a.text_frames[i].subpath_starts && b.text_frames[i].subpath_open
            == a.text_frames[i].subpath_open
    &&& forall|i: int|
        0 <= i < b.rectangles.len() ==> (#[trigger] b.rectangles[i]).anchors
            == a.rectangles[i].anchors && b.rectangles[i].subpath_starts
            == a.rectangles[i].subpath_starts && b.rectangles[i].subpath_open
            == a.rectangles[i].subpath_open
    &&& forall|i: int|
        0 <= i < b.graphic_lines.len() ==> (#[trigger] b.graphic_lines[i]).anchors
            == a.graphic_lines[i].anchors && b.graphic_lines[i].subpath_starts
            == a.graphic_lines[i].subpath_starts && b.graphic_lines[i].subpath_open
            == a.graphic_lines[i].subpath_open
    &&& forall|i: int|
        0 <= i < b.polygons.len() ==> (#[trigger] b.polygons[i]).anchors == a.polygons[i].anchors
            && b.polygons[i].subpath_starts == a.polygons[i].subpath_starts
            && b.polygons[i].subpath_open == a.polygons[i].subpath_open
}

/// The same item open, with the same path so far.
spec fn same_path(a: Option<CurrentFrameView>, b: Option<CurrentFrameView>) -> bool {
    match (a, b) {
        (None, None) => true,
        (Some(x), Some(y)) => x.anchors == y.anchors && x.subpath_starts == y.subpath_starts,
        _ => false,
    }
}

/// The same paths everywhere.
spec fn leaves(st: ProgressView, after: ProgressView) -> bool {
    same_outlines(st.out, after.out) && same_path(st.current, after.current)
}

proof fn lemma_same_stays(a: SpreadView, b: SpreadView)
    requires
        outlines_are_canonical(a),
        same_outlines(a, b),
    ensures
        outlines_are_canonical(b),
{
    assert forall|i: int| 0 <= i < b.text_frames.len() implies text_frame_is_canonical(
        #[trigger] b.text_frames[i],
    ) by {
        assert(text_frame_is_canonical(a.text_frames[i]));
    }
    assert forall|i: int| 0 <= i < b.rectangles.len() implies rectangle_is_canonical(
        #[trigger] b.rectangles[i],
    ) by {
        assert(rectangle_is_canonical(a.rectangles[i]));
    }
    assert forall|i: int| 0 <= i < b.graphic_lines.len() implies line_is_canonical(
        #[trigger] b.graphic_lines[i],
    ) by {
        assert(line_is_canonical(a.graphic_lines[i]));
    }
    assert forall|i: int| 0 <= i < b.polygons.len() implies polygon_is_canonical(
        #[trigger] b.polygons[i],
    ) by {
        assert(polygon_is_canonical(a.polygons[i]));
    }
}

proof fn lemma_stays_neat(st: ProgressView, after: ProgressView, n: nat)
    requires
        is_neat(st, n),
        leaves(st, after),
    ensures
        is_neat(after, (n + 1) as nat),
{
    reveal(is_neat);
    lemma_same_stays(st.out, after.out);
}

proof fn lemma_wrap_leaves(st: ProgressView, cf: CurrentFrameView, tag: TagView)
    requires
        st.current == Some(cf),
    ensures
        leaves(st, after_wrap(st, cf, tag)),
{
}

proof fn lemma_image_leaves(st: ProgressView, cf: CurrentFrameView, tag: TagView)
    requires
        st.current == Some(cf),
    ensures
        leaves(st, after_image(st, cf, tag)),
{
}

proof fn lemma_edits_leave(out: SpreadView, kind: FrameKind, tag: TagView, path: TextPathView)
    ensures
        same_outlines(out, with_anchored_flag(out, kind)),
        same_outlines(out, with_key_value(out, kind, tag)),
        same_outlines(out, with_preference(out, kind, tag)),
        same_outlines(out, with_fitting(out, kind, tag)),
        same_outlines(out, with_text_path(out, kind, path)),
{
}

/// A tag inside an item that neither starts a contour nor adds a point.
proof fn lemma_detail_leaves(st: ProgressView, cf: CurrentFrameView, tag: TagView)
    requires
        st.current == Some(cf),
        !tag.is("GeometryPathType"@),
        !tag.is("PathPointType"@),
    ensures
        leaves(st, after_detail(st, cf, tag)),
{
    if tag.is("TextWrapPreference"@) || tag.is("TextWrapOffset"@) || tag.is("ContourOption"@) {
        lemma_wrap_leaves(st, cf, tag);
    }
    if is_image(tag) || tag.is("Link"@) {
        lemma_image_leaves(st, cf, tag);
    }
    let path = text_path_of(tag).unwrap_or(arbitrary());
    lemma_edits_leave(st.out, cf.kind, tag, path);
    assert(leaves(st, ProgressView { out: with_anchored_flag(st.out, cf.kind), ..st }));
    assert(leaves(st, ProgressView { out: with_key_value(st.out, cf.kind, tag), ..st }));
    assert(leaves(st, ProgressView { out: with_preference(st.out, cf.kind, tag), ..st }));
    assert(leaves(st, ProgressView { out: with_fitting(st.out, cf.kind, tag), ..st }));
    assert(leaves(st, ProgressView { out: with_text_path(st.out, cf.kind, path), ..st }));
}

proof fn lemma_contour(cf: CurrentFrameView, tag: TagView, n: nat)
    requires
        follows(cf, n),
        n <= usize::MAX,
    ensures
        follows(with_contour(cf, tag), n),
{
}

proof fn lemma_point(cf: CurrentFrameView, tag: TagView, n: nat)
    requires
        follows(cf, n),
    ensures
        follows(with_point(cf, tag), (n + 1) as nat),
{
    let after = with_point(cf, tag);
    assert forall|i: int| 0 <= i < after.subpath_starts.len() implies (#[trigger]
    after.subpath_starts[i]) <= after.anchors.len() by {
        assert(cf.subpath_starts[i] <= cf.anchors.len());
    }
}

proof fn lemma_detail(st: ProgressView, cf: CurrentFrameView, tag: TagView, n: nat)
    requires
        is_neat(st, n),
        st.current == Some(cf),
        n < usize::MAX,
    ensures
        is_neat(after_detail(st, cf, tag), (n + 1) as nat),
{
    if tag.is("GeometryPathType"@) {
        reveal(is_neat);
        lemma_contour(cf, tag, n);
        if tag.is("AnchoredObjectSetting"@) {
            lemma_edits_leave(st.out, cf.kind, tag, arbitrary());
            lemma_same_stays(st.out, with_anchored_flag(st.out, cf.kind));
        }
    } else if tag.is("PathPointType"@) {
        reveal(is_neat);
        lemma_point(cf, tag, n);
        if tag.is("AnchoredObjectSetting"@) || tag.is("KeyValuePair"@) {
            lemma_edits_leave(st.out, cf.kind, tag, arbitrary());
            lemma_same_stays(st.out, with_anchored_flag(st.out, cf.kind));
            lemma_same_stays(st.out, with_key_value(st.out, cf.kind, tag));
        }
    } else {
        lemma_detail_leaves(st, cf, tag);
        lemma_stays_neat(st, after_detail(st, cf, tag), n);
    }
}

proof fn lemma_shape(st: ProgressView, tag: TagView, n: nat)
    requires
        is_neat(st, n),
        is_shape(tag.name),
    ensures
        is_neat(after_shape(st, tag), (n + 1) as nat),
{
    reveal(is_neat);
    let after = after_shape(st, tag);
    assert forall|i: int| 0 <= i < after.out.text_frames.len() implies text_frame_is_canonical(
        #[trigger] after.out.text_frames[i],
    ) by {
        if i < st.out.text_frames.len() {
            assert(after.out.text_frames[i] == st.out.text_frames[i]);
        }
    }
    assert forall|i: int| 0 <= i < after.out.rectangles.len() implies rectangle_is_canonical(
        #[trigger] after.out.rectangles[i],
    ) by {
        if i < st.out.rectangles.len() {
            assert(after.out.rectangles[i] == st.out.rectangles[i]);
        }
    }
    assert forall|i: int| 0 <= i < after.out.graphic_lines.len() implies line_is_canonical(
        #[trigger] after.out.graphic_lines[i],
    ) by {
        if i < st.out.graphic_lines.len() {
            assert(after.out.graphic_lines[i] == st.out.graphic_lines[i]);
        }
    }
    assert forall|i: int| 0 <= i < after.out.polygons.len() implies polygon_is_canonical(
        #[trigger] after.out.polygons[i],
    ) by {
        if i < st.out.polygons.len() {
            assert(after.out.polygons[i] == st.out.polygons[i]);
        }
    }
}

proof fn lemma_look_leaves(st: ProgressView, tag: TagView)
    ensures
        leaves(st, after_look(st, tag)),
{
    assert(leaves(st, after_transparency(st, true)));
    assert(leaves(st, after_transparency(st, false)));
    lemma_shadow_leaves(st, tag);
    lemma_effect_leaves(st, tag);
    lemma_blending_leaves(st, tag);
    lemma_layout_leaves(st, tag);
}

proof fn lemma_shadow_leaves(st: ProgressView, tag: TagView)
    ensures
        leaves(st, after_shadow(st, tag)),
{
}

proof fn lemma_effect_leaves(st: ProgressView, tag: TagView)
    ensures
        leaves(st, after_effect(st, tag)),
        forall|kind: FrameKind|
            same_outlines(st.out, #[trigger] with_feather_stop(st.out, kind, tag)),
{
}

proof fn lemma_blending_leaves(st: ProgressView, tag: TagView)
    ensures
        leaves(st, after_blending(st, tag)),
{
}

proof fn lemma_layout_leaves(st: ProgressView, tag: TagView)
    ensures
        leaves(st, after_layout(st, tag)),
{
}

proof fn lemma_open(st: ProgressView, tag: TagView, n: nat)
    requires
        is_neat(st, n),
        n < usize::MAX,
    ensures
        is_neat(after_open(st, tag), (n + 1) as nat),
{
    if is_shape(tag.name) {
        lemma_shape(st, tag, n);
    } else if is_detail(tag) {
        match st.current {
            None => lemma_stays_neat(st, st, n),
            Some(cf) => lemma_detail(st, cf, tag, n),
        }
    } else {
        lemma_look_leaves(st, tag);
        lemma_stays_neat(st, after_look(st, tag), n);
    }
}

proof fn lemma_real_contours(starts: Seq<usize>, opens: Seq<bool>, points: nat, n: nat)
    requires
        n <= starts.len(),
        never_falls(starts),
    ensures
        ({
            let (s, o) = real_contours(starts, opens, points, n);
            &&& s.len() == o.len() <= n
            &&& never_falls(s)
            &&& forall|i: int| 0 <= i < s.len() ==> #[trigger] s[i] < points
            &&& n < starts.len() ==> forall|i: int|
                0 <= i < s.len() ==> #[trigger] s[i] <= starts[n as int]
        }),
    decreases n,
{
    if n > 0 {
        lemma_real_contours(starts, opens, points, (n - 1) as nat);
    }
}

/// The contours of a path come in their one form.
pub proof fn law_contours_are_canonical(starts: Seq<usize>, opens: Seq<bool>, points: nat)
    requires
        never_falls(starts),
    ensures
        ({
            let (s, o) = canonical_contours(starts, opens, points);
            is_canonical(points, s, o)
        }),
{
    lemma_real_contours(starts, opens, points, starts.len());
}

proof fn lemma_outline(
    out: SpreadView,
    kind: FrameKind,
    anchors: Seq<PathAnchor>,
    starts: Seq<usize>,
    opens: Seq<bool>,
)
    requires
        outlines_are_canonical(out),
        is_canonical(anchors.len(), starts, opens),
        kind is Rect ==> anchors.len() > 4,
    ensures
        outlines_are_canonical(with_outline(out, kind, anchors, starts, opens)),
{
}

proof fn lemma_path(out: SpreadView, cf: CurrentFrameView, n: nat)
    requires
        outlines_are_canonical(out),
        follows(cf, n),
    ensures
        outlines_are_canonical(with_path(out, cf)),
{
    law_contours_are_canonical(cf.subpath_starts, cf.subpath_open, cf.anchors.len());
    let (starts, opens) = canonical_contours(
        cf.subpath_starts,
        cf.subpath_open,
        cf.anchors.len(),
    );
    if cf.kind is Rect ==> cf.anchors.len() > 4 {
        lemma_outline(out, cf.kind, cf.anchors, starts, opens);
    }
}

proof fn lemma_close(st: ProgressView, cf: CurrentFrameView, n: nat)
    requires
        is_neat(st, n),
        st.current == Some(cf),
    ensures
        is_neat(after_close(st, cf), n),
{
    reveal(is_neat);
    let clipped = match cf.clip {
        None => st.out,
        Some(clip) => with_image_clip(st.out, cf.kind, clip),
    };
    assert(same_outlines(st.out, clipped));
    lemma_same_stays(st.out, clipped);
    let boxed = with_bounds(clipped, cf.kind, extent(cf.anchors));
    assert(same_outlines(clipped, boxed));
    lemma_same_stays(clipped, boxed);
    lemma_path(clipped, cf, n);
    lemma_path(boxed, cf, n);
    assert(outlines_are_canonical(without_pending(clipped, cf.kind)));
}

proof fn lemma_end(st: ProgressView, name: Seq<u8>, n: nat)
    requires
        is_neat(st, n),
    ensures
        is_neat(after_end(st, name), (n + 1) as nat),
{
    lemma_stays_neat(st, st, n);
    if is_shape(name) && st.current is Some {
        lemma_close(st, st.current->0, (n + 1) as nat);
    }
    assert(leaves(st, after_transparency_end(st, true)));
    assert(leaves(st, after_transparency_end(st, false)));
    assert(leaves(st, after_group_end(st)));
    if leaves(st, after_end(st, name)) {
        lemma_stays_neat(st, after_end(st, name), n);
    }
}

proof fn lemma_reading_is_neat(events: Seq<EventView>, n: nat)
    requires
        n <= events.len() <= usize::MAX,
    ensures
        is_neat(after_events(events, n), n),
    decreases n,
{
    if n == 0 {
        reveal(is_neat);
    } else {
        let before = (n - 1) as nat;
        lemma_reading_is_neat(events, before);
        let st = after_events(events, before);
        match events[n - 1] {
            EventView::Open(tag) => lemma_open(st, tag, before),
            EventView::End(name) => lemma_end(st, name, before),
            _ => lemma_stays_neat(st, after_event(st, events[n - 1]), before),
        }
    }
}

/// Every text frame, rectangle, line and polygon of a spread that is read has its
/// path in its one form, and no rectangle has a path that four corners can make.
pub proof fn law_outlines_are_canonical(events: Seq<EventView>)
    requires
        events.len() <= usize::MAX,
    ensures
        outlines_are_canonical(spread_of(events)),
{
    lemma_reading_is_neat(events, events.len());
    reveal(is_neat);
}

} // verus!
