//! A spread: its pages, the items on them, and the groups they form.
//!
//! The events of the document are taken one by one. While the tag of an item is
//! open, what its children state goes to that item; while only a group is open,
//! it goes to the group.
use crate::ParseError;
use crate::edits::{
    get_identifier, get_text_wrap, identifier_at, set_anchored_flag, set_blending, set_bounds,
    set_drop_shadow, set_feather_stop, set_fitting, set_image, set_image_bytes, set_image_clip,
    set_item_effect, set_outline, set_preference, set_stroke_drop_shadow, set_text_path,
    set_text_wrap, text_wrap_at, with_anchored_flag, with_blending, with_bounds, with_drop_shadow,
    with_feather_stop, with_fitting, with_image, with_image_bytes, with_image_clip,
    with_item_effect, with_outline, with_preference, with_stroke_drop_shadow, with_text_path,
    with_text_wrap, FrameKind,
};
use crate::encoding::{base64_decoded, cleaned, decode_image_contents_base64};
use crate::geometry::{bounds_from_anchors, extent, no_insets, Insets, Matrix, PathAnchor};
use crate::number::{zero, Num};
use crate::page_items::{
    empty_spread, ClippingPathSettings, ClippingPathSettingsView, DropShadowSetting,
    DropShadowSettingView, FrameFittingOption, FrameRef, GraphicLine, Group, GroupTransparency,
    GroupTransparencyView, GroupView, MarginPreference, Oval, Page, Polygon, Rectangle, Spread,
    SpreadView, TextFrame, TextPath, TextWrap,
};
use crate::shapes::{
    clipping_of, drop_shadow_of, graphic_line_of, guide_of, image_metadata_of, is_effect,
    margins_of, oval_of, page_of, path_anchor_of, polygon_of, read_clipping, read_drop_shadow,
    read_graphic_line, read_guide, read_image_metadata, read_margins, read_oval, read_page,
    read_path_anchor, read_polygon, read_rectangle, read_text_frame, read_text_path, rectangle_of,
    test_effect, text_frame_of, text_path_of,
};
use crate::text::same_text;
use crate::util::{either, first_of, push_item};
use crate::vocabulary::{ContourOptionType, TextWrapMode};
use crate::xml::{name_is, read_events, xml_events, EventView, Tag, TagView, XmlEvent};
use vstd::prelude::*;
use vstd::utf8::encode_utf8;

verus! {

/// The item whose tag is open.
#[derive(Debug)]
pub struct CurrentFrame {
    pub kind: FrameKind,
    /// Whether its box has to come from its path.
    pub needs_bounds: bool,
    pub anchors: Vec<PathAnchor>,
    /// Where each contour starts among the anchors.
    pub subpath_starts: Vec<usize>,
    /// Whether each contour is open.
    pub subpath_open: Vec<bool>,
    /// Whether the item keeps its path.
    pub keep_anchors: bool,
    pub in_text_wrap: bool,
    pub stroke_transparency_depth: u32,
    pub content_transparency_depth: u32,
    /// How many images are open; the path of an image is not that of the item.
    pub in_image_depth: u32,
    pub clip: Option<ClippingPathSettings>,
    pub in_clipping_path: bool,
}

/// What a [`CurrentFrame`] holds.
#[verifier::ext_equal]
pub struct CurrentFrameView {
    pub kind: FrameKind,
    pub needs_bounds: bool,
    pub anchors: Seq<PathAnchor>,
    pub subpath_starts: Seq<usize>,
    pub subpath_open: Seq<bool>,
    pub keep_anchors: bool,
    pub in_text_wrap: bool,
    pub stroke_transparency_depth: u32,
    pub content_transparency_depth: u32,
    pub in_image_depth: u32,
    pub clip: Option<ClippingPathSettingsView>,
    pub in_clipping_path: bool,
}

impl DeepView for CurrentFrame {
    type V = CurrentFrameView;

    open spec fn deep_view(&self) -> CurrentFrameView {
        CurrentFrameView {
            kind: self.kind,
            needs_bounds: self.needs_bounds,
            anchors: self.anchors@,
            subpath_starts: self.subpath_starts@,
            subpath_open: self.subpath_open@,
            keep_anchors: self.keep_anchors,
            in_text_wrap: self.in_text_wrap,
            stroke_transparency_depth: self.stroke_transparency_depth,
            content_transparency_depth: self.content_transparency_depth,
            in_image_depth: self.in_image_depth,
            clip: self.clip.deep_view(),
            in_clipping_path: self.in_clipping_path,
        }
    }
}

/// A group whose tag is open.
#[derive(Debug)]
pub struct GroupBuilder {
    pub self_id: Option<String>,
    pub item_transform: Option<Matrix>,
    pub members: Vec<FrameRef>,
    pub transparency: GroupTransparency,
    pub stroke_transparency_depth: u32,
    pub content_transparency_depth: u32,
}

/// What a [`GroupBuilder`] holds.
#[verifier::ext_equal]
pub struct GroupBuilderView {
    pub self_id: Option<Seq<char>>,
    pub item_transform: Option<Matrix>,
    pub members: Seq<FrameRef>,
    pub transparency: GroupTransparencyView,
    pub stroke_transparency_depth: u32,
    pub content_transparency_depth: u32,
}

impl DeepView for GroupBuilder {
    type V = GroupBuilderView;

    open spec fn deep_view(&self) -> GroupBuilderView {
        GroupBuilderView {
            self_id: self.self_id.deep_view(),
            item_transform: self.item_transform,
            members: self.members@,
            transparency: self.transparency.deep_view(),
            stroke_transparency_depth: self.stroke_transparency_depth,
            content_transparency_depth: self.content_transparency_depth,
        }
    }
}

/// A spread in the making.
pub struct Progress {
    pub out: Spread,
    /// The transforms of the open groups, outermost first.
    pub group_transforms: Vec<Option<Matrix>>,
    /// The open groups, outermost first.
    pub builders: Vec<GroupBuilder>,
    /// The item whose tag is open.
    pub current: Option<CurrentFrame>,
    /// The item whose gradient feather is open.
    pub feather: Option<FrameKind>,
    /// The item whose image content is being read.
    pub contents_target: Option<FrameKind>,
    /// The image content read so far.
    pub contents: Vec<u8>,
}

/// What a [`Progress`] holds.
#[verifier::ext_equal]
pub struct ProgressView {
    pub out: SpreadView,
    pub group_transforms: Seq<Option<Matrix>>,
    pub builders: Seq<GroupBuilderView>,
    pub current: Option<CurrentFrameView>,
    pub feather: Option<FrameKind>,
    pub contents_target: Option<FrameKind>,
    pub contents: Seq<u8>,
}

impl View for Progress {
    type V = ProgressView;

    open spec fn view(&self) -> ProgressView {
        ProgressView {
            out: self.out.deep_view(),
            group_transforms: self.group_transforms@,
            builders: self.builders.deep_view(),
            current: self.current.deep_view(),
            feather: self.feather,
            contents_target: self.contents_target,
            contents: self.contents@,
        }
    }
}

/// One level deeper.
pub open spec fn deeper(depth: u32) -> u32 {
    if depth < u32::MAX {
        (depth + 1) as u32
    } else {
        depth
    }
}

/// One level back up.
pub open spec fn shallower(depth: u32) -> u32 {
    if depth > 0 {
        (depth - 1) as u32
    } else {
        depth
    }
}

pub fn go_deeper(depth: u32) -> (r: u32)
    ensures
        r == deeper(depth),
{
    if depth < u32::MAX {
        depth + 1
    } else {
        depth
    }
}

pub fn go_back_up(depth: u32) -> (r: u32)
    ensures
        r == shallower(depth),
{
    if depth > 0 {
        depth - 1
    } else {
        depth
    }
}

/// `builders` with a member added to the innermost group.
pub open spec fn with_member(
    builders: Seq<GroupBuilderView>,
    member: FrameRef,
) -> Seq<GroupBuilderView> {
    if builders.len() == 0 {
        builders
    } else {
        builders.update(
            builders.len() - 1,
            GroupBuilderView { members: builders.last().members.push(member), ..builders.last() },
        )
    }
}

fn set_member(builders: &mut Vec<GroupBuilder>, member: FrameRef)
    ensures
        final(builders).deep_view() == with_member(old(builders).deep_view(), member),
{
    let ghost before = builders.deep_view();
    if builders.len() > 0 {
        let last: usize = builders.len() - 1;
        assert(before.last() == builders@[last as int].deep_view());
        builders[last].members.push(member);
        assert(builders.deep_view() =~= with_member(before, member));
    }
}

/// `builders` with the stroke depth of the innermost group replaced.
pub open spec fn with_group_stroke_depth(
    builders: Seq<GroupBuilderView>,
    depth: u32,
) -> Seq<GroupBuilderView> {
    if builders.len() == 0 {
        builders
    } else {
        builders.update(
            builders.len() - 1,
            GroupBuilderView { stroke_transparency_depth: depth, ..builders.last() },
        )
    }
}

fn set_group_stroke_depth(builders: &mut Vec<GroupBuilder>, depth: u32)
    ensures
        final(builders).deep_view() == with_group_stroke_depth(old(builders).deep_view(), depth),
{
    let ghost before = builders.deep_view();
    if builders.len() > 0 {
        let last: usize = builders.len() - 1;
        assert(before.last() == builders@[last as int].deep_view());
        builders[last].stroke_transparency_depth = depth;
        assert(builders.deep_view() =~= with_group_stroke_depth(before, depth));
    }
}

/// `builders` with the content depth of the innermost group replaced.
pub open spec fn with_group_content_depth(
    builders: Seq<GroupBuilderView>,
    depth: u32,
) -> Seq<GroupBuilderView> {
    if builders.len() == 0 {
        builders
    } else {
        builders.update(
            builders.len() - 1,
            GroupBuilderView { content_transparency_depth: depth, ..builders.last() },
        )
    }
}

fn set_group_content_depth(builders: &mut Vec<GroupBuilder>, depth: u32)
    ensures
        final(builders).deep_view() == with_group_content_depth(old(builders).deep_view(), depth),
{
    let ghost before = builders.deep_view();
    if builders.len() > 0 {
        let last: usize = builders.len() - 1;
        assert(before.last() == builders@[last as int].deep_view());
        builders[last].content_transparency_depth = depth;
        assert(builders.deep_view() =~= with_group_content_depth(before, depth));
    }
}

/// `builders` with the shadow of the innermost group replaced.
pub open spec fn with_group_shadow(
    builders: Seq<GroupBuilderView>,
    shadow: DropShadowSettingView,
) -> Seq<GroupBuilderView> {
    if builders.len() == 0 {
        builders
    } else {
        builders.update(
            builders.len() - 1,
            GroupBuilderView {
                transparency: GroupTransparencyView {
                    drop_shadow: Some(shadow),
                    ..builders.last().transparency
                },
                ..builders.last()
            },
        )
    }
}

fn set_group_shadow(builders: &mut Vec<GroupBuilder>, shadow: DropShadowSetting)
    ensures
        final(builders).deep_view() == with_group_shadow(
            old(builders).deep_view(),
            shadow.deep_view(),
        ),
{
    let ghost before = builders.deep_view();
    let ghost given_shadow = shadow.deep_view();
    if builders.len() > 0 {
        let last: usize = builders.len() - 1;
        assert(before.last() == builders@[last as int].deep_view());
        builders[last].transparency.drop_shadow = Some(shadow);
        assert(builders.deep_view() =~= with_group_shadow(before, given_shadow));
    }
}

/// `builders` with the blending of the innermost group replaced, as far as it
/// is stated.
pub open spec fn with_group_blending(
    builders: Seq<GroupBuilderView>,
    opacity: Option<Num>,
    mode: Option<Seq<char>>,
) -> Seq<GroupBuilderView> {
    if builders.len() == 0 {
        builders
    } else {
        builders.update(
            builders.len() - 1,
            GroupBuilderView {
                transparency: GroupTransparencyView {
                    opacity: either(opacity, builders.last().transparency.opacity),
                    blend_mode: either(mode, builders.last().transparency.blend_mode),
                    ..builders.last().transparency
                },
                ..builders.last()
            },
        )
    }
}

fn set_group_blending(builders: &mut Vec<GroupBuilder>, opacity: Option<Num>, mode: Option<String>)
    ensures
        final(builders).deep_view() == with_group_blending(
            old(builders).deep_view(),
            opacity,
            mode.deep_view(),
        ),
{
    let ghost before = builders.deep_view();
    let ghost given_mode = mode.deep_view();
    if builders.len() > 0 {
        let last: usize = builders.len() - 1;
        assert(before.last() == builders@[last as int].deep_view());
        if opacity.is_some() {
            builders[last].transparency.opacity = opacity;
        }
        if mode.is_some() {
            builders[last].transparency.blend_mode = mode;
        }
        assert(builders.deep_view() =~= with_group_blending(before, opacity, given_mode));
    }
}

/// `st` with one more item listed: in the innermost group, or outside all.
pub open spec fn registered(st: ProgressView, item: FrameRef) -> ProgressView {
    if st.builders.len() > 0 {
        ProgressView { builders: with_member(st.builders, item), ..st }
    } else {
        ProgressView {
            out: SpreadView { frames_in_order: st.out.frames_in_order.push(item), ..st.out },
            ..st
        }
    }
}

fn register_with_group(st: &mut Progress, item: FrameRef)
    ensures
        final(st)@ == registered(old(st)@, item),
{
    if st.builders.len() > 0 {
        set_member(&mut st.builders, item);
    } else {
        st.out.frames_in_order.push(item);
    }
}

/// `members` without `item`, where it stands last in them.
pub open spec fn without(members: Seq<FrameRef>, item: FrameRef) -> Seq<FrameRef>
    decreases members.len(),
{
    if members.len() == 0 {
        members
    } else if members.last() == item {
        members.drop_last()
    } else {
        without(members.drop_last(), item).push(members.last())
    }
}

proof fn lemma_without(members: Seq<FrameRef>, item: FrameRef, k: int)
    requires
        -1 <= k < members.len(),
        forall|j: int| k < j < members.len() ==> #[trigger] members[j] != item,
        k >= 0 ==> members[k] == item,
    ensures
        without(members, item) == if k >= 0 {
            members.remove(k)
        } else {
            members
        },
    decreases members.len(),
{
    if members.len() > 0 && k < members.len() - 1 {
        let rest = members.drop_last();
        lemma_without(rest, item, k);
        if k >= 0 {
            assert(rest.remove(k).push(members.last()) =~= members.remove(k));
        } else {
            assert(rest.push(members.last()) =~= members);
        }
    } else if k >= 0 {
        assert(members.drop_last() =~= members.remove(k));
    }
}

fn take_off(members: &mut Vec<FrameRef>, item: FrameRef)
    ensures
        final(members)@ == without(old(members)@, item),
{
    let mut i: usize = members.len();
    while i > 0 && members[i - 1] != item
        invariant
            i <= members@.len(),
            forall|j: int| i <= j < members@.len() ==> #[trigger] members@[j] != item,
        decreases i,
    {
        i = i - 1;
    }
    proof {
        lemma_without(members@, item, i - 1);
    }
    if i > 0 {
        let ignored: FrameRef = members.remove(i - 1);
    }
}

/// `st` with `item` taken off the list of the innermost group, or of those outside
/// all.
pub open spec fn unregistered(st: ProgressView, item: FrameRef) -> ProgressView {
    if st.builders.len() > 0 {
        let b = st.builders.last();
        ProgressView {
            builders: st.builders.update(
                st.builders.len() - 1,
                GroupBuilderView { members: without(b.members, item), ..b },
            ),
            ..st
        }
    } else {
        ProgressView {
            out: SpreadView {
                frames_in_order: without(st.out.frames_in_order, item),
                ..st.out
            },
            ..st
        }
    }
}

fn unregister_from_group(st: &mut Progress, item: FrameRef)
    ensures
        final(st)@ == unregistered(old(st)@, item),
{
    let ghost before = st@;
    let n: usize = st.builders.len();
    if n > 0 {
        assert(before.builders.last() == st.builders@[n - 1].deep_view());
        take_off(&mut st.builders[n - 1].members, item);
        assert(st.builders.deep_view() =~= unregistered(before, item).builders);
    } else {
        take_off(&mut st.out.frames_in_order, item);
    }
}

/// The reference to an item.
pub open spec fn reference(kind: FrameKind) -> FrameRef {
    match kind {
        FrameKind::Text(i) => FrameRef::TextFrame(i),
        FrameKind::Rect(i) => FrameRef::Rectangle(i),
        FrameKind::Oval(i) => FrameRef::Oval(i),
        FrameKind::Line(i) => FrameRef::GraphicLine(i),
        FrameKind::Polygon(i) => FrameRef::Polygon(i),
    }
}

fn refer(kind: FrameKind) -> (r: FrameRef)
    ensures
        r == reference(kind),
{
    match kind {
        FrameKind::Text(i) => FrameRef::TextFrame(i),
        FrameKind::Rect(i) => FrameRef::Rectangle(i),
        FrameKind::Oval(i) => FrameRef::Oval(i),
        FrameKind::Line(i) => FrameRef::GraphicLine(i),
        FrameKind::Polygon(i) => FrameRef::Polygon(i),
    }
}

/// `s` without its last element.
pub open spec fn popped<T>(s: Seq<T>) -> Seq<T> {
    if s.len() > 0 {
        s.drop_last()
    } else {
        s
    }
}

pub fn pop_item<T: DeepView>(v: &mut Vec<T>)
    ensures
        final(v).deep_view() == popped(old(v).deep_view()),
{
    let ghost before = v.deep_view();
    let ignored = v.pop();
    assert(v.deep_view() =~= popped(before));
}

/// `out` without the last item of a kind.
pub open spec fn without_pending(out: SpreadView, kind: FrameKind) -> SpreadView {
    match kind {
        FrameKind::Text(_) => SpreadView { text_frames: popped(out.text_frames), ..out },
        FrameKind::Rect(_) => SpreadView { rectangles: popped(out.rectangles), ..out },
        FrameKind::Oval(_) => SpreadView { ovals: popped(out.ovals), ..out },
        FrameKind::Line(_) => SpreadView { graphic_lines: popped(out.graphic_lines), ..out },
        FrameKind::Polygon(_) => SpreadView { polygons: popped(out.polygons), ..out },
    }
}

fn drop_pending(out: &mut Spread, kind: FrameKind)
    ensures
        final(out).deep_view() == without_pending(old(out).deep_view(), kind),
{
    match kind {
        FrameKind::Text(_) => pop_item(&mut out.text_frames),
        FrameKind::Rect(_) => pop_item(&mut out.rectangles),
        FrameKind::Oval(_) => pop_item(&mut out.ovals),
        FrameKind::Line(_) => pop_item(&mut out.graphic_lines),
        FrameKind::Polygon(_) => pop_item(&mut out.polygons),
    }
}

/// An item whose tag has just opened.
pub open spec fn just_opened(
    kind: FrameKind,
    needs_bounds: bool,
    keep_anchors: bool,
) -> CurrentFrameView {
    CurrentFrameView {
        kind,
        needs_bounds,
        anchors: Seq::empty(),
        subpath_starts: Seq::empty(),
        subpath_open: Seq::empty(),
        keep_anchors,
        in_text_wrap: false,
        stroke_transparency_depth: 0,
        content_transparency_depth: 0,
        in_image_depth: 0,
        clip: None,
        in_clipping_path: false,
    }
}

fn open_frame(kind: FrameKind, needs_bounds: bool, keep_anchors: bool) -> (r: CurrentFrame)
    ensures
        r.deep_view() == just_opened(kind, needs_bounds, keep_anchors),
{
    CurrentFrame {
        kind,
        needs_bounds,
        anchors: Vec::new(),
        subpath_starts: Vec::new(),
        subpath_open: Vec::new(),
        keep_anchors,
        in_text_wrap: false,
        stroke_transparency_depth: 0,
        content_transparency_depth: 0,
        in_image_depth: 0,
        clip: None,
        in_clipping_path: false,
    }
}

/// `st` with an item of this kind listed; `tag` is its tag, and the item is open
/// unless the tag closes itself.
pub open spec fn with_open(
    st: ProgressView,
    kind: FrameKind,
    tag: TagView,
    keep: bool,
) -> ProgressView {
    ProgressView {
        current: if tag.empty {
            st.current
        } else {
            Some(just_opened(kind, tag.bounds("GeometricBounds"@) is None, keep))
        },
        ..registered(st, reference(kind))
    }
}

fn begin(st: &mut Progress, kind: FrameKind, tag: &Tag, keep: bool)
    ensures
        final(st)@ == with_open(old(st)@, kind, tag@, keep),
{
    register_with_group(st, refer(kind));
    if !tag.empty {
        st.current = Some(open_frame(kind, tag.bounds("GeometricBounds").is_none(), keep));
    }
}

/// Whether the tag is that of a page item.
pub open spec fn is_shape(name: Seq<u8>) -> bool {
    ||| name == encode_utf8("TextFrame"@)
    ||| name == encode_utf8("Rectangle"@)
    ||| name == encode_utf8("Oval"@)
    ||| name == encode_utf8("GraphicLine"@)
    ||| name == encode_utf8("Polygon"@)
}

/// `st` after the opening tag of a page item. All kinds but ovals keep their
/// path.
pub open spec fn after_shape(st: ProgressView, tag: TagView) -> ProgressView {
    let out = st.out;
    if tag.is("TextFrame"@) {
        let item = text_frame_of(tag, st.group_transforms);
        with_open(
            ProgressView {
                out: SpreadView { text_frames: out.text_frames.push(item), ..out },
                ..st
            },
            FrameKind::Text(out.text_frames.len() as usize),
            tag,
            true,
        )
    } else if tag.is("Rectangle"@) {
        let item = rectangle_of(tag, st.group_transforms);
        with_open(
            ProgressView {
                out: SpreadView { rectangles: out.rectangles.push(item), ..out },
                ..st
            },
            FrameKind::Rect(out.rectangles.len() as usize),
            tag,
            true,
        )
    } else if tag.is("Oval"@) {
        let item = oval_of(tag, st.group_transforms);
        with_open(
            ProgressView { out: SpreadView { ovals: out.ovals.push(item), ..out }, ..st },
            FrameKind::Oval(out.ovals.len() as usize),
            tag,
            false,
        )
    } else if tag.is("GraphicLine"@) {
        let item = graphic_line_of(tag, st.group_transforms);
        with_open(
            ProgressView {
                out: SpreadView { graphic_lines: out.graphic_lines.push(item), ..out },
                ..st
            },
            FrameKind::Line(out.graphic_lines.len() as usize),
            tag,
            true,
        )
    } else {
        let item = polygon_of(tag, st.group_transforms);
        with_open(
            ProgressView { out: SpreadView { polygons: out.polygons.push(item), ..out }, ..st },
            FrameKind::Polygon(out.polygons.len() as usize),
            tag,
            true,
        )
    }
}

fn on_shape(st: &mut Progress, tag: &Tag)
    ensures
        final(st)@ == after_shape(old(st)@, tag@),
{
    if tag.is("TextFrame") {
        let at: usize = st.out.text_frames.len();
        let item: TextFrame = read_text_frame(tag, &st.group_transforms);
        push_item(&mut st.out.text_frames, item);
        begin(st, FrameKind::Text(at), tag, true);
    } else if tag.is("Rectangle") {
        let at: usize = st.out.rectangles.len();
        let item: Rectangle = read_rectangle(tag, &st.group_transforms);
        push_item(&mut st.out.rectangles, item);
        begin(st, FrameKind::Rect(at), tag, true);
    } else if tag.is("Oval") {
        let at: usize = st.out.ovals.len();
        let item: Oval = read_oval(tag, &st.group_transforms);
        push_item(&mut st.out.ovals, item);
        begin(st, FrameKind::Oval(at), tag, false);
    } else if tag.is("GraphicLine") {
        let at: usize = st.out.graphic_lines.len();
        let item: GraphicLine = read_graphic_line(tag, &st.group_transforms);
        push_item(&mut st.out.graphic_lines, item);
        begin(st, FrameKind::Line(at), tag, true);
    } else {
        let at: usize = st.out.polygons.len();
        let item: Polygon = read_polygon(tag, &st.group_transforms);
        push_item(&mut st.out.polygons, item);
        begin(st, FrameKind::Polygon(at), tag, true);
    }
}

/// A group that states nothing about its transparency.
pub open spec fn plain_transparency() -> GroupTransparencyView {
    GroupTransparencyView { drop_shadow: None, opacity: None, blend_mode: None }
}

/// `st` with a group open; `tag` is its tag.
pub open spec fn with_group(st: ProgressView, tag: TagView) -> ProgressView {
    ProgressView {
        group_transforms: st.group_transforms.push(tag.matrix("ItemTransform"@)),
        builders: st.builders.push(
            GroupBuilderView {
                self_id: tag.text("Self"@),
                item_transform: tag.matrix("ItemTransform"@),
                members: Seq::empty(),
                transparency: plain_transparency(),
                stroke_transparency_depth: 0,
                content_transparency_depth: 0,
            },
        ),
        ..st
    }
}

/// `st` after a tag about the spread itself, its pages, its groups and its guides.
pub open spec fn after_layout(st: ProgressView, tag: TagView) -> ProgressView {
    let out = st.out;
    if tag.is("Spread"@) || tag.is("MasterSpread"@) {
        if out.self_id is None {
            ProgressView {
                out: SpreadView {
                    self_id: tag.text("Self"@),
                    item_transform: tag.matrix("ItemTransform"@),
                    ..out
                },
                ..st
            }
        } else {
            st
        }
    } else if tag.is("Group"@) {
        with_group(st, tag)
    } else if tag.is("Guide"@) {
        match guide_of(tag) {
            None => st,
            Some(guide) => ProgressView {
                out: SpreadView { guides: out.guides.push(guide), ..out },
                ..st
            },
        }
    } else if tag.is("Page"@) {
        match page_of(tag) {
            None => st,
            Some(page) => ProgressView {
                out: SpreadView { pages: out.pages.push(page), ..out },
                ..st
            },
        }
    } else if tag.is("MarginPreference"@) {
        if out.pages.len() > 0 && out.pages.last().self_id is Some {
            ProgressView {
                out: SpreadView {
                    page_margins: out.page_margins.insert(
                        out.pages.last().self_id->Some_0,
                        margins_of(tag),
                    ),
                    ..out
                },
                ..st
            }
        } else {
            st
        }
    } else {
        st
    }
}

fn last_page_id(out: &Spread) -> (r: Option<String>)
    ensures
        r.deep_view() == (if out.deep_view().pages.len() > 0 {
            out.deep_view().pages.last().self_id
        } else {
            None
        }),
{
    let n: usize = out.pages.len();
    if n > 0 {
        assert(out.deep_view().pages.last() == out.pages@[n - 1].deep_view());
        crate::util::copy_text(&out.pages[n - 1].self_id)
    } else {
        None
    }
}

fn open_group(st: &mut Progress, tag: &Tag)
    ensures
        final(st)@ == with_group(old(st)@, tag@),
{
    let own: Option<Matrix> = tag.matrix("ItemTransform");
    st.group_transforms.push(own);
    push_item(
        &mut st.builders,
        GroupBuilder {
            self_id: tag.text("Self"),
            item_transform: own,
            members: Vec::new(),
            transparency: GroupTransparency {
                drop_shadow: None,
                opacity: None,
                blend_mode: None,
            },
            stroke_transparency_depth: 0,
            content_transparency_depth: 0,
        },
    );
}

fn on_layout(st: &mut Progress, tag: &Tag)
    ensures
        final(st)@ == after_layout(old(st)@, tag@),
{
    if tag.is("Spread") || tag.is("MasterSpread") {
        if st.out.self_id.is_none() {
            st.out.self_id = tag.text("Self");
            st.out.item_transform = tag.matrix("ItemTransform");
        }
    } else if tag.is("Group") {
        open_group(st, tag);
    } else if tag.is("Guide") {
        if let Some(guide) = read_guide(tag) {
            st.out.guides.push(guide);
        }
    } else if tag.is("Page") {
        if let Some(page) = read_page(tag) {
            push_item(&mut st.out.pages, page);
        }
    } else if tag.is("MarginPreference") {
        if let Some(host) = last_page_id(&st.out) {
            st.out.page_margins.insert(host, read_margins(tag));
        }
    }
}

/// `st` after the tag that opens the transparency of a stroke or of a content.
pub open spec fn after_transparency(st: ProgressView, stroke: bool) -> ProgressView {
    match st.current {
        Some(cf) => ProgressView {
            current: Some(
                if stroke {
                    CurrentFrameView {
                        stroke_transparency_depth: deeper(cf.stroke_transparency_depth),
                        ..cf
                    }
                } else {
                    CurrentFrameView {
                        content_transparency_depth: deeper(cf.content_transparency_depth),
                        ..cf
                    }
                },
            ),
            ..st
        },
        None => if st.builders.len() == 0 {
            st
        } else {
            ProgressView {
                builders: if stroke {
                    with_group_stroke_depth(
                        st.builders,
                        deeper(st.builders.last().stroke_transparency_depth),
                    )
                } else {
                    with_group_content_depth(
                        st.builders,
                        deeper(st.builders.last().content_transparency_depth),
                    )
                },
                ..st
            }
        },
    }
}

fn on_transparency(st: &mut Progress, stroke: bool)
    ensures
        final(st)@ == after_transparency(old(st)@, stroke),
{
    if let Some(cf) = st.current.take() {
        let mut cf: CurrentFrame = cf;
        if stroke {
            cf.stroke_transparency_depth = go_deeper(cf.stroke_transparency_depth);
        } else {
            cf.content_transparency_depth = go_deeper(cf.content_transparency_depth);
        }
        st.current = Some(cf);
    } else {
        let n: usize = st.builders.len();
        if n > 0 {
            assert(st.builders.deep_view().last() == st.builders@[n - 1].deep_view());
            if stroke {
                let depth: u32 = go_deeper(st.builders[n - 1].stroke_transparency_depth);
                set_group_stroke_depth(&mut st.builders, depth);
            } else {
                let depth: u32 = go_deeper(st.builders[n - 1].content_transparency_depth);
                set_group_content_depth(&mut st.builders, depth);
            }
        }
    }
}

/// `st` after the closing tag of the transparency of a stroke or of a content.
pub open spec fn after_transparency_end(st: ProgressView, stroke: bool) -> ProgressView {
    match st.current {
        Some(cf) => ProgressView {
            current: Some(
                if stroke {
                    CurrentFrameView {
                        stroke_transparency_depth: shallower(cf.stroke_transparency_depth),
                        ..cf
                    }
                } else {
                    CurrentFrameView {
                        content_transparency_depth: shallower(cf.content_transparency_depth),
                        ..cf
                    }
                },
            ),
            ..st
        },
        None => if st.builders.len() == 0 {
            st
        } else {
            ProgressView {
                builders: if stroke {
                    with_group_stroke_depth(
                        st.builders,
                        shallower(st.builders.last().stroke_transparency_depth),
                    )
                } else {
                    with_group_content_depth(
                        st.builders,
                        shallower(st.builders.last().content_transparency_depth),
                    )
                },
                ..st
            }
        },
    }
}

fn on_transparency_end(st: &mut Progress, stroke: bool)
    ensures
        final(st)@ == after_transparency_end(old(st)@, stroke),
{
    if let Some(cf) = st.current.take() {
        let mut cf: CurrentFrame = cf;
        if stroke {
            cf.stroke_transparency_depth = go_back_up(cf.stroke_transparency_depth);
        } else {
            cf.content_transparency_depth = go_back_up(cf.content_transparency_depth);
        }
        st.current = Some(cf);
    } else {
        let n: usize = st.builders.len();
        if n > 0 {
            assert(st.builders.deep_view().last() == st.builders@[n - 1].deep_view());
            if stroke {
                let depth: u32 = go_back_up(st.builders[n - 1].stroke_transparency_depth);
                set_group_stroke_depth(&mut st.builders, depth);
            } else {
                let depth: u32 = go_back_up(st.builders[n - 1].content_transparency_depth);
                set_group_content_depth(&mut st.builders, depth);
            }
        }
    }
}

/// `st` after a `DropShadowSetting` tag. A shadow that is switched off counts
/// for nothing, and so does one of a content; one of a stroke is kept apart.
pub open spec fn after_shadow(st: ProgressView, tag: TagView) -> ProgressView {
    let shadow = drop_shadow_of(tag);
    if shadow.mode == "None"@ {
        st
    } else {
        match st.current {
            Some(cf) => if cf.content_transparency_depth > 0 {
                st
            } else if cf.stroke_transparency_depth > 0 {
                ProgressView { out: with_stroke_drop_shadow(st.out, cf.kind, shadow), ..st }
            } else {
                ProgressView { out: with_drop_shadow(st.out, cf.kind, shadow), ..st }
            },
            None => if st.builders.len() > 0 && st.builders.last().content_transparency_depth == 0
                && st.builders.last().stroke_transparency_depth == 0 {
                ProgressView { builders: with_group_shadow(st.builders, shadow), ..st }
            } else {
                st
            },
        }
    }
}

fn on_shadow(st: &mut Progress, tag: &Tag)
    ensures
        final(st)@ == after_shadow(old(st)@, tag@),
{
    let shadow: DropShadowSetting = read_drop_shadow(tag);
    if !same_text(shadow.mode.as_str(), "None") {
        if let Some(cf) = &st.current {
            if cf.content_transparency_depth > 0 {
            } else if cf.stroke_transparency_depth > 0 {
                set_stroke_drop_shadow(&mut st.out, cf.kind, shadow);
            } else {
                set_drop_shadow(&mut st.out, cf.kind, shadow);
            }
        } else {
            let n: usize = st.builders.len();
            if n > 0 {
                assert(st.builders.deep_view().last() == st.builders@[n - 1].deep_view());
                if st.builders[n - 1].content_transparency_depth == 0 && st.builders[n
                    - 1].stroke_transparency_depth == 0 {
                    set_group_shadow(&mut st.builders, shadow);
                }
            }
        }
    }
}

/// `st` after a `BlendingSetting` tag.
pub open spec fn after_blending(st: ProgressView, tag: TagView) -> ProgressView {
    match st.current {
        Some(cf) => ProgressView {
            out: with_blending(st.out, cf.kind, tag.num("Opacity"@), tag.text("BlendMode"@)),
            ..st
        },
        None => ProgressView {
            builders: with_group_blending(
                st.builders,
                tag.num("Opacity"@),
                tag.text("BlendMode"@),
            ),
            ..st
        },
    }
}

fn on_blending(st: &mut Progress, tag: &Tag)
    ensures
        final(st)@ == after_blending(old(st)@, tag@),
{
    let opacity: Option<Num> = tag.num("Opacity");
    let mode: Option<String> = tag.text("BlendMode");
    if let Some(cf) = &st.current {
        set_blending(&mut st.out, cf.kind, opacity, mode);
    } else {
        set_group_blending(&mut st.builders, opacity, mode);
    }
}

/// Whether `out` has the item.
pub open spec fn has_item(out: SpreadView, kind: FrameKind) -> bool {
    match kind {
        FrameKind::Text(i) => i < out.text_frames.len(),
        FrameKind::Rect(i) => i < out.rectangles.len(),
        FrameKind::Oval(i) => i < out.ovals.len(),
        FrameKind::Line(i) => i < out.graphic_lines.len(),
        FrameKind::Polygon(i) => i < out.polygons.len(),
    }
}

fn test_item(out: &Spread, kind: FrameKind) -> (r: bool)
    ensures
        r == has_item(out.deep_view(), kind),
{
    match kind {
        FrameKind::Text(i) => i < out.text_frames.len(),
        FrameKind::Rect(i) => i < out.rectangles.len(),
        FrameKind::Oval(i) => i < out.ovals.len(),
        FrameKind::Line(i) => i < out.graphic_lines.len(),
        FrameKind::Polygon(i) => i < out.polygons.len(),
    }
}

/// `st` after the tag of an effect, which counts only where it is applied.
pub open spec fn after_effect(st: ProgressView, tag: TagView) -> ProgressView {
    match st.current {
        None => st,
        Some(cf) => if tag.flag("Applied"@).unwrap_or(false) && has_item(st.out, cf.kind) {
            ProgressView {
                out: with_item_effect(st.out, cf.kind, tag),
                feather: if tag.is("GradientFeatherSetting"@) {
                    Some(cf.kind)
                } else {
                    st.feather
                },
                ..st
            }
        } else {
            st
        },
    }
}

fn on_effect(st: &mut Progress, tag: &Tag)
    ensures
        final(st)@ == after_effect(old(st)@, tag@),
{
    if let Some(cf) = &st.current {
        if tag.flag("Applied").unwrap_or(false) && test_item(&st.out, cf.kind) {
            set_item_effect(&mut st.out, cf.kind, tag);
            if tag.is("GradientFeatherSetting") {
                st.feather = Some(cf.kind);
            }
        }
    }
}

/// `st` after a tag about shadows, blending and effects.
pub open spec fn after_look(st: ProgressView, tag: TagView) -> ProgressView {
    if tag.is("StrokeTransparencySetting"@) {
        after_transparency(st, true)
    } else if tag.is("ContentTransparencySetting"@) {
        after_transparency(st, false)
    } else if tag.is("DropShadowSetting"@) {
        after_shadow(st, tag)
    } else if is_effect(tag) {
        after_effect(st, tag)
    } else if tag.is("GradientStop"@) || tag.is("OpacityGradientStop"@) {
        match st.feather {
            None => st,
            Some(kind) => ProgressView { out: with_feather_stop(st.out, kind, tag), ..st },
        }
    } else if tag.is("BlendingSetting"@) {
        after_blending(st, tag)
    } else {
        after_layout(st, tag)
    }
}

fn on_look(st: &mut Progress, tag: &Tag)
    ensures
        final(st)@ == after_look(old(st)@, tag@),
{
    if tag.is("StrokeTransparencySetting") {
        on_transparency(st, true);
    } else if tag.is("ContentTransparencySetting") {
        on_transparency(st, false);
    } else if tag.is("DropShadowSetting") {
        on_shadow(st, tag);
    } else if test_effect(tag) {
        on_effect(st, tag);
    } else if tag.is("GradientStop") || tag.is("OpacityGradientStop") {
        if let Some(kind) = st.feather {
            set_feather_stop(&mut st.out, kind, tag);
        }
    } else if tag.is("BlendingSetting") {
        on_blending(st, tag);
    } else {
        on_layout(st, tag);
    }
}

/// `clip` with a new contour started.
pub open spec fn with_clip_contour(
    clip: ClippingPathSettingsView,
    open: bool,
) -> ClippingPathSettingsView {
    ClippingPathSettingsView {
        clip_subpath_starts: clip.clip_subpath_starts.push(clip.clip_anchors.len() as usize),
        clip_subpath_open: clip.clip_subpath_open.push(open),
        ..clip
    }
}

/// `cf` after a `GeometryPathType` tag, which starts a contour: of the clipping
/// path, where one is open, else of the item, where it keeps its path and no
/// image is open.
pub open spec fn with_contour(cf: CurrentFrameView, tag: TagView) -> CurrentFrameView {
    let open = tag.flag("PathOpen"@).unwrap_or(false);
    if cf.in_clipping_path {
        CurrentFrameView {
            clip: match cf.clip {
                None => None,
                Some(clip) => Some(with_clip_contour(clip, open)),
            },
            ..cf
        }
    } else if cf.in_image_depth == 0 && cf.keep_anchors {
        CurrentFrameView {
            subpath_starts: cf.subpath_starts.push(cf.anchors.len() as usize),
            subpath_open: cf.subpath_open.push(open),
            ..cf
        }
    } else {
        cf
    }
}

fn start_contour(cf: CurrentFrame, tag: &Tag) -> (r: CurrentFrame)
    ensures
        r.deep_view() == with_contour(cf.deep_view(), tag@),
{
    let mut cf: CurrentFrame = cf;
    let open: bool = tag.flag("PathOpen").unwrap_or(false);
    if cf.in_clipping_path {
        if let Some(clip) = cf.clip.take() {
            let mut clip: ClippingPathSettings = clip;
            clip.clip_subpath_starts.push(clip.clip_anchors.len());
            clip.clip_subpath_open.push(open);
            cf.clip = Some(clip);
        }
    } else if cf.in_image_depth == 0 && cf.keep_anchors {
        cf.subpath_starts.push(cf.anchors.len());
        cf.subpath_open.push(open);
    }
    cf
}

/// `cf` after a `PathPointType` tag.
pub open spec fn with_point(cf: CurrentFrameView, tag: TagView) -> CurrentFrameView {
    match path_anchor_of(tag) {
        None => cf,
        Some(p) => if cf.in_clipping_path {
            CurrentFrameView {
                clip: match cf.clip {
                    None => None,
                    Some(clip) => Some(
                        ClippingPathSettingsView {
                            clip_anchors: clip.clip_anchors.push(p),
                            ..clip
                        },
                    ),
                },
                ..cf
            }
        } else if cf.in_image_depth == 0 && (cf.needs_bounds || cf.keep_anchors) {
            CurrentFrameView { anchors: cf.anchors.push(p), ..cf }
        } else {
            cf
        },
    }
}

fn add_point(cf: CurrentFrame, tag: &Tag) -> (r: CurrentFrame)
    ensures
        r.deep_view() == with_point(cf.deep_view(), tag@),
{
    let mut cf: CurrentFrame = cf;
    if let Some(p) = read_path_anchor(tag) {
        if cf.in_clipping_path {
            if let Some(clip) = cf.clip.take() {
                let mut clip: ClippingPathSettings = clip;
                clip.clip_anchors.push(p);
                cf.clip = Some(clip);
            }
        } else if cf.in_image_depth == 0 && (cf.needs_bounds || cf.keep_anchors) {
            cf.anchors.push(p);
        }
    }
    cf
}

/// `entries` with `value` for `key`: in place of the first value that the key
/// has, or at the end.
pub open spec fn with_label(
    entries: Seq<(Seq<char>, Seq<char>)>,
    key: Seq<char>,
    value: Seq<char>,
) -> Seq<(Seq<char>, Seq<char>)>
    decreases entries.len(),
{
    if entries.len() == 0 {
        seq![(key, value)]
    } else if entries[0].0 == key {
        entries.update(0, (key, value))
    } else {
        seq![entries[0]] + with_label(entries.skip(1), key, value)
    }
}

/// Gives `key` the value `value` among `entries`.
fn label_entries(entries: &Vec<(String, String)>, key: String, value: String) -> (r: Vec<
    (String, String),
>)
    ensures
        r.deep_view() == with_label(entries.deep_view(), key@, value@),
{
    let ghost all = entries.deep_view();
    let mut r: Vec<(String, String)> = Vec::new();
    let mut i: usize = 0;
    assert(all.skip(0) =~= all);
    assert(r.deep_view() + with_label(all, key@, value@) =~= with_label(all, key@, value@));
    while i < entries.len()
        invariant
            i <= entries@.len(),
            all == entries.deep_view(),
            r.deep_view() + with_label(all.skip(i as int), key@, value@) == with_label(
                all,
                key@,
                value@,
            ),
        decreases entries@.len() - i,
    {
        let ghost rest = all.skip(i as int);
        let ghost done = r.deep_view();
        assert(rest[0] == entries@[i as int].deep_view());
        if same_text(entries[i].0.as_str(), key.as_str()) {
            let ghost pair = (key@, value@);
            push_item(&mut r, (key, value));
            let mut j: usize = i + 1;
            assert(rest.update(0, pair) =~= seq![pair] + all.skip(i + 1));
            assert(done.push(pair) + all.skip(i + 1) =~= done + (seq![pair] + all.skip(i + 1)));
            let ghost want = done.push(pair) + all.skip(i + 1);
            assert(r.deep_view() + all.skip(j as int) == want);
            while j < entries.len()
                invariant
                    j <= entries@.len(),
                    all == entries.deep_view(),
                    r.deep_view() + all.skip(j as int) == want,
                decreases entries@.len() - j,
            {
                let ghost kept = r.deep_view();
                assert(all.skip(j as int)[0] == entries@[j as int].deep_view());
                push_item(&mut r, (entries[j].0.clone(), entries[j].1.clone()));
                assert(r.deep_view() =~= kept.push(all[j as int]));
                assert(kept.push(all[j as int]) + all.skip(j + 1) =~= kept + all.skip(j as int));
                j = j + 1;
            }
            assert(r.deep_view() + all.skip(j as int) =~= r.deep_view());
            return r;
        }
        push_item(&mut r, (entries[i].0.clone(), entries[i].1.clone()));
        assert(r.deep_view() =~= done.push(rest[0]));
        assert(rest.skip(1) =~= all.skip(i + 1));
        assert(done.push(rest[0]) + with_label(all.skip(i + 1), key@, value@) =~= done + (
        seq![rest[0]] + with_label(all.skip(i + 1), key@, value@)));
        i = i + 1;
    }
    let ghost done = r.deep_view();
    push_item(&mut r, (key, value));
    assert(all.skip(i as int).len() == 0);
    assert(done + seq![(key@, value@)] =~= done.push((key@, value@)));
    r
}

/// The labels of the item `id`.
pub open spec fn labels_at(out: SpreadView, id: Seq<char>) -> Seq<(Seq<char>, Seq<char>)> {
    if out.labels.dom().contains(id) {
        out.labels[id]
    } else {
        Seq::empty()
    }
}

/// `out` after a `KeyValuePair` tag inside the item `kind`: the item's label
/// `Key` has the value `Value`.
pub open spec fn with_key_value(out: SpreadView, kind: FrameKind, tag: TagView) -> SpreadView {
    match (tag.unescaped("Key"@), tag.unescaped("Value"@), identifier_at(out, kind)) {
        (Some(key), Some(value), Some(id)) => SpreadView {
            labels: out.labels.insert(id, with_label(labels_at(out, id), key, value)),
            ..out
        },
        _ => out,
    }
}

fn on_key_value(out: &mut Spread, kind: FrameKind, tag: &Tag)
    ensures
        final(out).deep_view() == with_key_value(old(out).deep_view(), kind, tag@),
{
    if let Some(key) = tag.unescaped("Key") {
        if let Some(value) = tag.unescaped("Value") {
            if let Some(id) = get_identifier(out, kind) {
                let entries: Vec<(String, String)> = match out.labels.get(id.as_str()) {
                    None => {
                        let none: Vec<(String, String)> = Vec::new();
                        assert(none.deep_view() =~= Seq::<(Seq<char>, Seq<char>)>::empty());
                        label_entries(&none, key, value)
                    },
                    Some(entries) => label_entries(entries, key, value),
                };
                out.labels.insert(id, entries);
            }
        }
    }
}

/// The way text runs that a `TextWrapPreference` tag states; offsets and
/// contour stay as they were.
pub open spec fn wrap_of(tag: TagView, before: Option<TextWrap>) -> TextWrap {
    TextWrap {
        mode: match tag.text("TextWrapMode"@) {
            None => TextWrapMode::NoWrap,
            Some(s) => TextWrapMode::named(s),
        },
        offsets: match before {
            None => no_insets(),
            Some(w) => w.offsets,
        },
        invert: match either(tag.text("Inverse"@), tag.text("Inverted"@)) {
            None => None,
            Some(s) => crate::text::written_bool(s),
        },
        contour_type: match before {
            None => None,
            Some(w) => w.contour_type,
        },
        include_inside_edges: match before {
            None => None,
            Some(w) => w.include_inside_edges,
        },
    }
}

fn read_wrap(tag: &Tag, before: Option<TextWrap>) -> (r: TextWrap)
    ensures
        r == wrap_of(tag@, before),
{
    TextWrap {
        mode: match tag.text("TextWrapMode") {
            None => TextWrapMode::NoWrap,
            Some(s) => TextWrapMode::from_idml(s.as_str()),
        },
        offsets: match before {
            None => Insets::zero(),
            Some(w) => w.offsets,
        },
        invert: match first_of(tag.text("Inverse"), tag.text("Inverted")) {
            None => None,
            Some(s) => crate::text::parse_bool(s.as_str()),
        },
        contour_type: match before {
            None => None,
            Some(w) => w.contour_type,
        },
        include_inside_edges: match before {
            None => None,
            Some(w) => w.include_inside_edges,
        },
    }
}

/// No text wrap, but a place for what belongs to one.
pub open spec fn bare_wrap() -> TextWrap {
    TextWrap {
        mode: TextWrapMode::NoWrap,
        offsets: no_insets(),
        invert: None,
        contour_type: None,
        include_inside_edges: None,
    }
}

fn make_bare_wrap() -> (r: TextWrap)
    ensures
        r == bare_wrap(),
{
    TextWrap {
        mode: TextWrapMode::NoWrap,
        offsets: Insets::zero(),
        invert: None,
        contour_type: None,
        include_inside_edges: None,
    }
}

/// The offsets that a `TextWrapOffset` tag states.
pub open spec fn wrap_offsets_of(tag: TagView) -> Insets {
    Insets {
        top: tag.num("Top"@).unwrap_or(zero()),
        left: tag.num("Left"@).unwrap_or(zero()),
        bottom: tag.num("Bottom"@).unwrap_or(zero()),
        right: tag.num("Right"@).unwrap_or(zero()),
    }
}

fn read_wrap_offsets(tag: &Tag) -> (r: Insets)
    ensures
        r == wrap_offsets_of(tag@),
{
    Insets {
        top: tag.num("Top").unwrap_or(Num::zero()),
        left: tag.num("Left").unwrap_or(Num::zero()),
        bottom: tag.num("Bottom").unwrap_or(Num::zero()),
        right: tag.num("Right").unwrap_or(Num::zero()),
    }
}

/// The contour that a `ContourOption` tag names.
pub open spec fn contour_type_of(tag: TagView) -> Option<ContourOptionType> {
    match tag.text("ContourType"@) {
        None => None,
        Some(s) => Some(ContourOptionType::named(s)),
    }
}

fn read_contour_type(tag: &Tag) -> (r: Option<ContourOptionType>)
    ensures
        r == contour_type_of(tag@),
{
    match tag.text("ContourType") {
        None => None,
        Some(s) => Some(ContourOptionType::from_idml(s.as_str())),
    }
}

/// `st` after a tag about the way text runs round the open item `cf`.
pub open spec fn after_wrap(st: ProgressView, cf: CurrentFrameView, tag: TagView) -> ProgressView {
    let before = text_wrap_at(st.out, cf.kind);
    if tag.is("TextWrapPreference"@) {
        ProgressView {
            out: with_text_wrap(st.out, cf.kind, Some(wrap_of(tag, before))),
            current: Some(CurrentFrameView { in_text_wrap: true, ..cf }),
            ..st
        }
    } else if !cf.in_text_wrap {
        st
    } else if tag.is("TextWrapOffset"@) {
        ProgressView {
            out: with_text_wrap(
                st.out,
                cf.kind,
                Some(
                    TextWrap {
                        offsets: wrap_offsets_of(tag),
                        ..before.unwrap_or(bare_wrap())
                    },
                ),
            ),
            ..st
        }
    } else {
        ProgressView {
            out: with_text_wrap(
                st.out,
                cf.kind,
                Some(
                    TextWrap {
                        contour_type: contour_type_of(tag),
                        include_inside_edges: tag.flag("IncludeInsideEdges"@),
                        ..before.unwrap_or(bare_wrap())
                    },
                ),
            ),
            ..st
        }
    }
}

fn on_wrap(st: &mut Progress, tag: &Tag)
    ensures
        final(st)@ == (match old(st)@.current {
            None => old(st)@,
            Some(cf) => after_wrap(old(st)@, cf, tag@),
        }),
{
    if let Some(cf) = st.current.take() {
        let mut cf: CurrentFrame = cf;
        let before: Option<TextWrap> = get_text_wrap(&st.out, cf.kind);
        if tag.is("TextWrapPreference") {
            set_text_wrap(&mut st.out, cf.kind, Some(read_wrap(tag, before)));
            cf.in_text_wrap = true;
        } else if cf.in_text_wrap {
            let mut wrap: TextWrap = before.unwrap_or(make_bare_wrap());
            if tag.is("TextWrapOffset") {
                wrap.offsets = read_wrap_offsets(tag);
            } else {
                wrap.contour_type = read_contour_type(tag);
                wrap.include_inside_edges = tag.flag("IncludeInsideEdges");
            }
            set_text_wrap(&mut st.out, cf.kind, Some(wrap));
        }
        st.current = Some(cf);
    }
}

/// Whether the tag is that of a placed image.
pub open spec fn is_image(tag: TagView) -> bool {
    ||| tag.is("Image"@)
    ||| tag.is("EPSImage"@)
    ||| tag.is("PDF"@)
    ||| tag.is("ImportedPage"@)
}

fn test_image(tag: &Tag) -> (r: bool)
    ensures
        r == is_image(tag@),
{
    tag.is("Image") || tag.is("EPSImage") || tag.is("PDF") || tag.is("ImportedPage")
}

/// `out` with what an `Image` tag states about its source kept for the item
/// `id`. What was stated first stays.
pub open spec fn with_image_metadata(
    out: SpreadView,
    id: Option<Seq<char>>,
    tag: TagView,
) -> SpreadView {
    match (id, image_metadata_of(tag)) {
        (Some(id), Some(meta)) => if out.image_metadata.dom().contains(id) {
            out
        } else {
            SpreadView { image_metadata: out.image_metadata.insert(id, meta), ..out }
        },
        _ => out,
    }
}

fn record_image_metadata(out: &mut Spread, id: Option<String>, tag: &Tag)
    ensures
        final(out).deep_view() == with_image_metadata(old(out).deep_view(), id.deep_view(), tag@),
{
    if let Some(id) = id {
        if !out.image_metadata.contains_key(id.as_str()) {
            if let Some(meta) = read_image_metadata(tag) {
                out.image_metadata.insert(id, meta);
            }
        }
    }
}

/// Whether an item of this kind can hold an image.
pub open spec fn holds_image(kind: FrameKind) -> bool {
    kind is Rect || kind is Oval || kind is Polygon
}

/// `st` after the tag of an image or of its link inside the open item `cf`.
pub open spec fn after_image(st: ProgressView, cf: CurrentFrameView, tag: TagView) -> ProgressView {
    let uri = either(tag.text("LinkResourceURI"@), tag.text("href"@));
    let placed = if tag.is("Image"@) {
        tag.matrix("ItemTransform"@)
    } else {
        None
    };
    let out = with_image(
        st.out,
        cf.kind,
        is_image(tag),
        tag.is("PDF"@) && uri is None,
        uri,
        placed,
    );
    ProgressView {
        current: Some(
            if is_image(tag) && !tag.empty {
                CurrentFrameView { in_image_depth: deeper(cf.in_image_depth), ..cf }
            } else {
                cf
            },
        ),
        out: if tag.is("Image"@) && holds_image(cf.kind) {
            with_image_metadata(out, identifier_at(st.out, cf.kind), tag)
        } else {
            out
        },
        ..st
    }
}

fn on_image(st: &mut Progress, tag: &Tag)
    ensures
        final(st)@ == (match old(st)@.current {
            None => old(st)@,
            Some(cf) => after_image(old(st)@, cf, tag@),
        }),
{
    if let Some(cf) = st.current.take() {
        let mut cf: CurrentFrame = cf;
        let image: bool = test_image(tag);
        if image && !tag.empty {
            cf.in_image_depth = go_deeper(cf.in_image_depth);
        }
        let uri: Option<String> = first_of(tag.text("LinkResourceURI"), tag.text("href"));
        let inline_pdf: bool = tag.is("PDF") && uri.is_none();
        let whole: bool = tag.is("Image");
        let placed: Option<Matrix> = if whole {
            tag.matrix("ItemTransform")
        } else {
            None
        };
        let id: Option<String> = get_identifier(&st.out, cf.kind);
        set_image(&mut st.out, cf.kind, image, inline_pdf, uri, placed);
        let host: bool = match cf.kind {
            FrameKind::Rect(_) => true,
            FrameKind::Oval(_) => true,
            FrameKind::Polygon(_) => true,
            _ => false,
        };
        if whole && host {
            record_image_metadata(&mut st.out, id, tag);
        }
        st.current = Some(cf);
    }
}

/// Whether the tag belongs to the open item.
pub open spec fn is_detail(tag: TagView) -> bool {
    ||| tag.is("AnchoredObjectSetting"@)
    ||| tag.is("GeometryPathType"@)
    ||| tag.is("KeyValuePair"@)
    ||| tag.is("PathPointType"@)
    ||| tag.is("TextWrapPreference"@)
    ||| tag.is("TextWrapOffset"@)
    ||| tag.is("ContourOption"@)
    ||| tag.is("TextFramePreference"@)
    ||| is_image(tag)
    ||| tag.is("Link"@)
    ||| tag.is("ClippingPathSettings"@)
    ||| tag.is("Contents"@)
    ||| tag.is("FrameFittingOption"@)
    ||| tag.is("TextPath"@)
}

fn test_detail(tag: &Tag) -> (r: bool)
    ensures
        r == is_detail(tag@),
{
    tag.is("AnchoredObjectSetting") || tag.is("GeometryPathType") || tag.is("KeyValuePair")
        || tag.is("PathPointType") || tag.is("TextWrapPreference") || tag.is("TextWrapOffset")
        || tag.is("ContourOption") || tag.is("TextFramePreference") || test_image(tag) || tag.is(
        "Link",
    ) || tag.is("ClippingPathSettings") || tag.is("Contents") || tag.is("FrameFittingOption")
        || tag.is("TextPath")
}

/// `st` after a tag inside the open item `cf`.
pub open spec fn after_detail(
    st: ProgressView,
    cf: CurrentFrameView,
    tag: TagView,
) -> ProgressView {
    if tag.is("AnchoredObjectSetting"@) {
        ProgressView { out: with_anchored_flag(st.out, cf.kind), ..st }
    } else if tag.is("GeometryPathType"@) {
        ProgressView { current: Some(with_contour(cf, tag)), ..st }
    } else if tag.is("KeyValuePair"@) {
        ProgressView { out: with_key_value(st.out, cf.kind, tag), ..st }
    } else if tag.is("PathPointType"@) {
        ProgressView { current: Some(with_point(cf, tag)), ..st }
    } else if tag.is("TextWrapPreference"@) || tag.is("TextWrapOffset"@) || tag.is(
        "ContourOption"@,
    ) {
        after_wrap(st, cf, tag)
    } else if tag.is("TextFramePreference"@) {
        ProgressView { out: with_preference(st.out, cf.kind, tag), ..st }
    } else if is_image(tag) || tag.is("Link"@) {
        after_image(st, cf, tag)
    } else if tag.is("ClippingPathSettings"@) {
        ProgressView {
            current: Some(
                CurrentFrameView {
                    clip: Some(crate::shapes::clipping_of(tag)),
                    in_clipping_path: !tag.empty,
                    ..cf
                },
            ),
            ..st
        }
    } else if tag.is("Contents"@) {
        ProgressView { contents_target: Some(cf.kind), contents: Seq::empty(), ..st }
    } else if tag.is("FrameFittingOption"@) {
        ProgressView { out: with_fitting(st.out, cf.kind, tag), ..st }
    } else if tag.is("TextPath"@) {
        match text_path_of(tag) {
            None => st,
            Some(path) => ProgressView { out: with_text_path(st.out, cf.kind, path), ..st },
        }
    } else {
        st
    }
}

fn on_detail(st: &mut Progress, tag: &Tag)
    ensures
        final(st)@ == (match old(st)@.current {
            None => old(st)@,
            Some(cf) => after_detail(old(st)@, cf, tag@),
        }),
{
    let kind: FrameKind = match &st.current {
        None => {
            return;
        },
        Some(cf) => cf.kind,
    };
    if tag.is("AnchoredObjectSetting") {
        set_anchored_flag(&mut st.out, kind);
    } else if tag.is("GeometryPathType") {
        if let Some(cf) = st.current.take() {
            st.current = Some(start_contour(cf, tag));
        }
    } else if tag.is("KeyValuePair") {
        on_key_value(&mut st.out, kind, tag);
    } else if tag.is("PathPointType") {
        if let Some(cf) = st.current.take() {
            st.current = Some(add_point(cf, tag));
        }
    } else if tag.is("TextWrapPreference") || tag.is("TextWrapOffset") || tag.is("ContourOption") {
        on_wrap(st, tag);
    } else if tag.is("TextFramePreference") {
        set_preference(&mut st.out, kind, tag);
    } else if test_image(tag) || tag.is("Link") {
        on_image(st, tag);
    } else if tag.is("ClippingPathSettings") {
        if let Some(cf) = st.current.take() {
            let mut cf: CurrentFrame = cf;
            cf.clip = Some(read_clipping(tag));
            cf.in_clipping_path = !tag.empty;
            st.current = Some(cf);
        }
    } else if tag.is("Contents") {
        st.contents_target = Some(kind);
        st.contents = Vec::new();
    } else if tag.is("FrameFittingOption") {
        set_fitting(&mut st.out, kind, tag);
    } else if tag.is("TextPath") {
        if let Some(path) = read_text_path(tag) {
            set_text_path(&mut st.out, kind, path);
        }
    }
}

/// `st` after an opening tag.
pub open spec fn after_open(st: ProgressView, tag: TagView) -> ProgressView {
    if is_shape(tag.name) {
        after_shape(st, tag)
    } else if is_detail(tag) {
        match st.current {
            None => st,
            Some(cf) => after_detail(st, cf, tag),
        }
    } else {
        after_look(st, tag)
    }
}

fn test_shape(name: &Vec<u8>) -> (r: bool)
    ensures
        r == is_shape(name@),
{
    name_is(name, "TextFrame") || name_is(name, "Rectangle") || name_is(name, "Oval") || name_is(
        name,
        "GraphicLine",
    ) || name_is(name, "Polygon")
}

fn on_open(st: &mut Progress, tag: &Tag)
    ensures
        final(st)@ == after_open(old(st)@, tag@),
{
    if test_shape(&tag.name) {
        on_shape(st, tag);
    } else if test_detail(tag) {
        on_detail(st, tag);
    } else {
        on_look(st, tag);
    }
}

/// The contours among `starts`, up to the first `n`, that start at a point, with
/// their flags.
pub open spec fn real_contours(
    starts: Seq<usize>,
    opens: Seq<bool>,
    points: nat,
    n: nat,
) -> (Seq<usize>, Seq<bool>)
    decreases n,
{
    if n == 0 {
        (Seq::empty(), Seq::empty())
    } else {
        let (s, o) = real_contours(starts, opens, points, (n - 1) as nat);
        if starts[n - 1] < points {
            (
                s.push(starts[n - 1]),
                o.push(
                    if n - 1 < opens.len() {
                        opens[n - 1]
                    } else {
                        false
                    },
                ),
            )
        } else {
            (s, o)
        }
    }
}

/// The contours of a path in their canonical form: a single contour is left
/// unsaid, but for one flag where it is open.
pub open spec fn canonical_contours(
    starts: Seq<usize>,
    opens: Seq<bool>,
    points: nat,
) -> (Seq<usize>, Seq<bool>) {
    let (s, o) = real_contours(starts, opens, points, starts.len());
    if s.len() > 1 {
        (s, o)
    } else if o.len() > 0 && o[0] {
        (Seq::empty(), seq![true])
    } else {
        (Seq::empty(), Seq::empty())
    }
}

fn tidy_contours(starts: &Vec<usize>, opens: &Vec<bool>, points: usize) -> (r: (
    Vec<usize>,
    Vec<bool>,
))
    ensures
        (r.0@, r.1@) == canonical_contours(starts@, opens@, points as nat),
{
    let mut s: Vec<usize> = Vec::new();
    let mut o: Vec<bool> = Vec::new();
    let mut i: usize = 0;
    while i < starts.len()
        invariant
            i <= starts@.len(),
            (s@, o@) == real_contours(starts@, opens@, points as nat, i as nat),
        decreases starts@.len() - i,
    {
        if starts[i] < points {
            s.push(starts[i]);
            o.push(
                if i < opens.len() {
                    opens[i]
                } else {
                    false
                },
            );
        }
        i = i + 1;
    }
    if s.len() > 1 {
        (s, o)
    } else if o.len() > 0 && o[0] {
        let one: Vec<bool> = vec![true];
        assert(one@ =~= seq![true]);
        (Vec::new(), one)
    } else {
        (Vec::new(), Vec::new())
    }
}

/// Whether an item of this kind keeps a path of so many points: a rectangle
/// keeps none that four corners can make.
pub open spec fn keeps_outline(kind: FrameKind, points: nat) -> bool {
    match kind {
        FrameKind::Rect(_) => points > 4,
        FrameKind::Oval(_) => false,
        _ => true,
    }
}

/// Whether the item is the last of its kind.
pub open spec fn is_newest(out: SpreadView, kind: FrameKind) -> bool {
    match kind {
        FrameKind::Text(i) => i + 1 == out.text_frames.len(),
        FrameKind::Rect(i) => i + 1 == out.rectangles.len(),
        FrameKind::Oval(i) => i + 1 == out.ovals.len(),
        FrameKind::Line(i) => i + 1 == out.graphic_lines.len(),
        FrameKind::Polygon(i) => i + 1 == out.polygons.len(),
    }
}

fn test_newest(out: &Spread, kind: FrameKind) -> (r: bool)
    ensures
        r == is_newest(out.deep_view(), kind),
{
    let (i, n): (usize, usize) = match kind {
        FrameKind::Text(i) => (i, out.text_frames.len()),
        FrameKind::Rect(i) => (i, out.rectangles.len()),
        FrameKind::Oval(i) => (i, out.ovals.len()),
        FrameKind::Line(i) => (i, out.graphic_lines.len()),
        FrameKind::Polygon(i) => (i, out.polygons.len()),
    };
    n > 0 && i == n - 1
}

/// `out` with the path of the closed item `cf` put on it.
pub open spec fn with_path(out: SpreadView, cf: CurrentFrameView) -> SpreadView {
    if cf.keep_anchors && cf.anchors.len() > 0 && keeps_outline(cf.kind, cf.anchors.len()) {
        let (starts, opens) = canonical_contours(
            cf.subpath_starts,
            cf.subpath_open,
            cf.anchors.len(),
        );
        with_outline(out, cf.kind, cf.anchors, starts, opens)
    } else {
        out
    }
}

/// `st` after the closing tag of the item `cf`: its clipping path and its path
/// are put on it, and where its tag stated no box, the box is that of its path.
/// An item with neither is taken back, unless another of its kind came inside it,
/// by whose number it would then be known.
pub open spec fn after_close(st: ProgressView, cf: CurrentFrameView) -> ProgressView {
    let clipped = match cf.clip {
        None => st.out,
        Some(clip) => with_image_clip(st.out, cf.kind, clip),
    };
    let st = ProgressView { out: clipped, current: None, ..st };
    if !cf.needs_bounds {
        ProgressView { out: with_path(st.out, cf), ..st }
    } else if cf.anchors.len() == 0 && !is_newest(st.out, cf.kind) {
        st
    } else if cf.anchors.len() == 0 {
        unregistered(
            ProgressView { out: without_pending(st.out, cf.kind), ..st },
            reference(cf.kind),
        )
    } else {
        ProgressView {
            out: with_path(with_bounds(st.out, cf.kind, extent(cf.anchors)), cf),
            ..st
        }
    }
}

fn put_path(
    out: &mut Spread,
    kind: FrameKind,
    keep: bool,
    anchors: Vec<PathAnchor>,
    starts: &Vec<usize>,
    opens: &Vec<bool>,
)
    ensures
        final(out).deep_view() == (if keep && anchors@.len() > 0 && keeps_outline(
            kind,
            anchors@.len(),
        ) {
            let (s, o) = canonical_contours(starts@, opens@, anchors@.len());
            with_outline(old(out).deep_view(), kind, anchors@, s, o)
        } else {
            old(out).deep_view()
        }),
{
    if keep && anchors.len() > 0 {
        let kept: bool = match kind {
            FrameKind::Rect(_) => anchors.len() > 4,
            FrameKind::Oval(_) => false,
            _ => true,
        };
        if kept {
            let (s, o) = tidy_contours(starts, opens, anchors.len());
            set_outline(out, kind, anchors, s, o);
        }
    }
}

fn on_close(st: &mut Progress)
    ensures
        final(st)@ == (match old(st)@.current {
            None => old(st)@,
            Some(cf) => after_close(old(st)@, cf),
        }),
{
    if let Some(cf) = st.current.take() {
        let ghost closed = cf.deep_view();
        if let Some(clip) = cf.clip {
            set_image_clip(&mut st.out, cf.kind, clip);
        }
        if cf.needs_bounds && cf.anchors.len() == 0 {
            if test_newest(&st.out, cf.kind) {
                drop_pending(&mut st.out, cf.kind);
                unregister_from_group(st, refer(cf.kind));
            }
        } else {
            if cf.needs_bounds {
                set_bounds(&mut st.out, cf.kind, bounds_from_anchors(&cf.anchors));
            }
            put_path(
                &mut st.out,
                cf.kind,
                cf.keep_anchors,
                cf.anchors,
                &cf.subpath_starts,
                &cf.subpath_open,
            );
        }
    }
}

/// `st` after the closing tag of a group: the group is listed behind those
/// closed before it, and stands in the group round it, or outside all.
pub open spec fn after_group_end(st: ProgressView) -> ProgressView {
    if st.group_transforms.len() == 0 {
        st
    } else if st.builders.len() == 0 {
        ProgressView { group_transforms: st.group_transforms.drop_last(), ..st }
    } else {
        let b = st.builders.last();
        let group = GroupView {
            self_id: b.self_id,
            item_transform: b.item_transform,
            members: b.members,
            transparency: b.transparency,
        };
        registered(
            ProgressView {
                group_transforms: st.group_transforms.drop_last(),
                builders: st.builders.drop_last(),
                out: SpreadView { groups: st.out.groups.push(group), ..st.out },
                ..st
            },
            FrameRef::Group(st.out.groups.len() as usize),
        )
    }
}

fn on_group_end(st: &mut Progress)
    ensures
        final(st)@ == after_group_end(old(st)@),
{
    let ghost before = st@;
    if st.group_transforms.len() > 0 {
        let ignored = st.group_transforms.pop();
        assert(st.group_transforms@ =~= before.group_transforms.drop_last());
        if let Some(b) = st.builders.pop() {
            assert(before.builders.last() == b.deep_view());
            assert(st.builders.deep_view() =~= before.builders.drop_last());
            let at: usize = st.out.groups.len();
            push_item(
                &mut st.out.groups,
                Group {
                    self_id: b.self_id,
                    item_transform: b.item_transform,
                    members: b.members,
                    transparency: b.transparency,
                },
            );
            register_with_group(st, FrameRef::Group(at));
        } else {
            assert(st.builders.deep_view() =~= before.builders);
        }
    }
}

/// `st` after the closing tag of an image's content, of which `image` is what it
/// decodes to.
pub open spec fn after_contents_end(st: ProgressView, image: Option<Seq<u8>>) -> ProgressView {
    match st.contents_target {
        None => st,
        Some(kind) => ProgressView {
            contents_target: None,
            contents: Seq::empty(),
            out: match image {
                None => st.out,
                Some(bytes) => with_image_bytes(st.out, kind, bytes),
            },
            ..st
        },
    }
}

fn on_contents_end(st: &mut Progress)
    ensures
        final(st)@ == after_contents_end(
            old(st)@,
            base64_decoded(cleaned(old(st)@.contents)),
        ),
{
    if let Some(kind) = st.contents_target {
        let image: Option<Vec<u8>> = decode_image_contents_base64(&st.contents);
        st.contents_target = None;
        st.contents = Vec::new();
        if let Some(bytes) = image {
            set_image_bytes(&mut st.out, kind, bytes);
        }
    }
}

/// `st` after a closing tag.
pub open spec fn after_end(st: ProgressView, name: Seq<u8>) -> ProgressView {
    if name == encode_utf8("Group"@) {
        after_group_end(st)
    } else if is_shape(name) {
        match st.current {
            None => st,
            Some(cf) => after_close(st, cf),
        }
    } else if name == encode_utf8("StrokeTransparencySetting"@) {
        after_transparency_end(st, true)
    } else if name == encode_utf8("ContentTransparencySetting"@) {
        after_transparency_end(st, false)
    } else if name == encode_utf8("GradientFeatherSetting"@) {
        ProgressView { feather: None, ..st }
    } else if name == encode_utf8("Contents"@) {
        after_contents_end(st, base64_decoded(cleaned(st.contents)))
    } else {
        match st.current {
            None => st,
            Some(cf) => ProgressView { current: Some(after_detail_end(cf, name)), ..st },
        }
    }
}

/// The open item after a closing tag inside it.
pub open spec fn after_detail_end(cf: CurrentFrameView, name: Seq<u8>) -> CurrentFrameView {
    if name == encode_utf8("TextWrapPreference"@) {
        CurrentFrameView { in_text_wrap: false, ..cf }
    } else if name == encode_utf8("ClippingPathSettings"@) {
        CurrentFrameView { in_clipping_path: false, ..cf }
    } else if name == encode_utf8("Image"@) || name == encode_utf8("EPSImage"@) || name
        == encode_utf8("ImportedPage"@) || name == encode_utf8("PDF"@) {
        CurrentFrameView { in_image_depth: shallower(cf.in_image_depth), ..cf }
    } else {
        cf
    }
}

fn on_detail_end(cf: CurrentFrame, name: &Vec<u8>) -> (r: CurrentFrame)
    ensures
        r.deep_view() == after_detail_end(cf.deep_view(), name@),
{
    let mut cf: CurrentFrame = cf;
    if name_is(name, "TextWrapPreference") {
        cf.in_text_wrap = false;
    } else if name_is(name, "ClippingPathSettings") {
        cf.in_clipping_path = false;
    } else if name_is(name, "Image") || name_is(name, "EPSImage") || name_is(name, "ImportedPage")
        || name_is(name, "PDF") {
        cf.in_image_depth = go_back_up(cf.in_image_depth);
    }
    cf
}

fn on_end(st: &mut Progress, name: &Vec<u8>)
    ensures
        final(st)@ == after_end(old(st)@, name@),
{
    if name_is(name, "Group") {
        on_group_end(st);
    } else if test_shape(name) {
        on_close(st);
    } else if name_is(name, "StrokeTransparencySetting") {
        on_transparency_end(st, true);
    } else if name_is(name, "ContentTransparencySetting") {
        on_transparency_end(st, false);
    } else if name_is(name, "GradientFeatherSetting") {
        st.feather = None;
    } else if name_is(name, "Contents") {
        on_contents_end(st);
    } else if let Some(cf) = st.current.take() {
        st.current = Some(on_detail_end(cf, name));
    }
}

/// `st` after character data, which counts only inside an image's content.
pub open spec fn after_data(st: ProgressView, raw: Seq<u8>) -> ProgressView {
    if st.contents_target is Some {
        ProgressView { contents: st.contents + raw, ..st }
    } else {
        st
    }
}

fn on_data(st: &mut Progress, raw: &Vec<u8>)
    ensures
        final(st)@ == after_data(old(st)@, raw@),
{
    if st.contents_target.is_some() {
        crate::util::append_bytes(&mut st.contents, raw);
    }
}

/// `st` after one event.
pub open spec fn after_event(st: ProgressView, event: EventView) -> ProgressView {
    match event {
        EventView::Open(tag) => after_open(st, tag),
        EventView::End(name) => after_end(st, name),
        EventView::Text(raw) => after_data(st, raw),
        EventView::CData(raw) => after_data(st, raw),
        _ => st,
    }
}

/// Nothing read yet.
pub open spec fn at_start() -> ProgressView {
    ProgressView {
        out: empty_spread(),
        group_transforms: Seq::empty(),
        builders: Seq::empty(),
        current: None,
        feather: None,
        contents_target: None,
        contents: Seq::empty(),
    }
}

/// What stands after the first `n` events.
pub open spec fn after_events(events: Seq<EventView>, n: nat) -> ProgressView
    decreases n,
{
    if n == 0 {
        at_start()
    } else {
        after_event(after_events(events, (n - 1) as nat), events[n - 1])
    }
}

/// The spread that the events of a document state.
pub open spec fn spread_of(events: Seq<EventView>) -> SpreadView {
    after_events(events, events.len()).out
}

/// Builds the spread from the events of its part.
pub fn spread_from_events(events: &Vec<XmlEvent>) -> (r: Spread)
    ensures
        r.deep_view() == spread_of(events.deep_view()),
{
    let mut st = Progress {
        out: Spread::default(),
        group_transforms: Vec::new(),
        builders: Vec::new(),
        current: None,
        feather: None,
        contents_target: None,
        contents: Vec::new(),
    };
    assert(st@ =~= at_start());
    let mut i: usize = 0;
    while i < events.len()
        invariant
            i <= events@.len(),
            st@ == after_events(events.deep_view(), i as nat),
        decreases events@.len() - i,
    {
        match &events[i] {
            XmlEvent::Open(tag) => on_open(&mut st, tag),
            XmlEvent::End(name) => on_end(&mut st, name),
            XmlEvent::Text(raw) => on_data(&mut st, raw),
            XmlEvent::CData(raw) => on_data(&mut st, raw),
            _ => {},
        }
        i = i + 1;
    }
    st.out
}

/// Parses the part of a spread or of a master spread.
pub fn parse_spread(xml: &[u8]) -> (r: Result<Spread, ParseError>)
    ensures
        match r {
            Ok(spread) => xml_events(xml@, true) matches Some(events) && spread.deep_view()
                == spread_of(events),
            Err(e) => e is Xml && xml_events(xml@, true) is None,
        },
{
    match read_events(xml, true) {
        Err(e) => Err(e),
        Ok(events) => Ok(spread_from_events(&events)),
    }
}

} // verus!
