//! The lists of a spread: every item stands on one of them, and only once.
use crate::edits::{
    with_anchored_flag, with_feather_stop, with_fitting, with_image_clip, with_preference,
    with_text_path, FrameKind,
};
use crate::page_items::{
    FrameRef, GraphicLineView, GroupView, OvalView, PolygonView, RectangleView, SpreadView,
    TextFrameView, TextPathView,
};
use crate::shapes::{
    graphic_line_of, oval_of, polygon_of, rectangle_of, text_frame_of, text_path_of,
};
use crate::spread::{
    after_blending, after_close, after_detail, after_effect, after_end, after_event, after_events,
    after_group_end, after_image, after_layout, after_look, after_open, after_shadow, after_shape,
    after_transparency, after_transparency_end, after_wrap, is_detail, is_image, is_newest,
    is_shape, reference, registered, spread_of, unregistered, with_group, with_key_value,
    with_open, without, without_pending, CurrentFrameView, GroupBuilderView, ProgressView,
};
use crate::spread_laws::lemma_shape_is_no_group;
use crate::xml::{law_names_differ, EventView, TagView};
use vstd::prelude::*;
use vstd::utf8::encode_utf8;

verus! {

/// How often `item` stands on a list.
pub open spec fn times(list: Seq<FrameRef>, item: FrameRef) -> nat
    decreases list.len(),
{
    if list.len() == 0 {
        0
    } else {
        times(list.drop_last(), item) + if list.last() == item {
            1nat
        } else {
            0nat
        }
    }
}

/// How often `item` is a member of a group that is open.
pub open spec fn times_in_open(groups: Seq<GroupBuilderView>, item: FrameRef) -> nat
    decreases groups.len(),
{
    if groups.len() == 0 {
        0
    } else {
        times_in_open(groups.drop_last(), item) + times(groups.last().members, item)
    }
}

/// How often `item` is a member of a group that was closed.
pub open spec fn times_in_closed(groups: Seq<GroupView>, item: FrameRef) -> nat
    decreases groups.len(),
{
    if groups.len() == 0 {
        0
    } else {
        times_in_closed(groups.drop_last(), item) + times(groups.last().members, item)
    }
}

/// How often `item` stands on a list: that of the items outside all groups, or
/// that of a group.
pub open spec fn times_listed(st: ProgressView, item: FrameRef) -> nat {
    times(st.out.frames_in_order, item) + times_in_open(st.builders, item) + times_in_closed(
        st.out.groups,
        item,
    )
}

/// Whether the reference leads to an item or a group.
pub open spec fn leads(out: SpreadView, item: FrameRef) -> bool {
    match item {
        FrameRef::TextFrame(i) => i < out.text_frames.len(),
        FrameRef::Rectangle(i) => i < out.rectangles.len(),
        FrameRef::Oval(i) => i < out.ovals.len(),
        FrameRef::GraphicLine(i) => i < out.graphic_lines.len(),
        FrameRef::Polygon(i) => i < out.polygons.len(),
        FrameRef::Group(i) => i < out.groups.len(),
    }
}

/// Whether every item and every group that was closed stands on one list, once,
/// and nothing else does.
pub open spec fn each_listed_once(st: ProgressView) -> bool {
    forall|item: FrameRef| #[trigger]
        times_listed(st, item) == if leads(st.out, item) {
            1nat
        } else {
            0nat
        }
}

/// How often `item` stands on the lists of a finished spread.
pub open spec fn times_named(out: SpreadView, item: FrameRef) -> nat {
    times(out.frames_in_order, item) + times_in_closed(out.groups, item)
}

/// The names of the tags that the first `n` events leave open, outermost first;
/// `None` where a closing tag is not that of the last tag that is open.
pub open spec fn open_names(events: Seq<EventView>, n: nat) -> Option<Seq<Seq<u8>>>
    decreases n,
{
    if n == 0 {
        Some(Seq::empty())
    } else {
        match open_names(events, (n - 1) as nat) {
            None => None,
            Some(names) => match events[n - 1] {
                EventView::Open(tag) => Some(
                    if tag.empty {
                        names
                    } else {
                        names.push(tag.name)
                    },
                ),
                EventView::End(name) => if names.len() > 0 && names.last() == name {
                    Some(names.drop_last())
                } else {
                    None
                },
                _ => Some(names),
            },
        }
    }
}

/// Whether every tag that opens is closed by its own closing tag.
pub open spec fn is_well_formed(events: Seq<EventView>) -> bool {
    open_names(events, events.len()) == Some(Seq::<Seq<u8>>::empty())
}

/// Whether every group among the first `n` events has a closing tag of its own.
/// One whose tag closes itself is never closed: what follows is listed with it.
pub open spec fn groups_have_ends(events: Seq<EventView>, n: nat) -> bool {
    forall|i: int|
        0 <= i < n ==> (#[trigger] events[i] matches EventView::Open(tag) ==> !(tag.is("Group"@)
            && tag.empty))
}

/// How many groups are open.
spec fn groups_among(names: Seq<Seq<u8>>) -> nat
    decreases names.len(),
{
    if names.len() == 0 {
        0
    } else {
        groups_among(names.drop_last()) + if names.last() == encode_utf8("Group"@) {
            1nat
        } else {
            0nat
        }
    }
}

/// Whether an item is open.
spec fn has_shape(names: Seq<Seq<u8>>) -> bool
    decreases names.len(),
{
    names.len() > 0 && (is_shape(names.last()) || has_shape(names.drop_last()))
}

/// How many groups are open round the innermost item that is open.
spec fn home(names: Seq<Seq<u8>>) -> nat
    decreases names.len(),
{
    if names.len() == 0 {
        0
    } else if is_shape(names.last()) {
        groups_among(names.drop_last())
    } else {
        home(names.drop_last())
    }
}

/// The list of the items inside `h` groups: of the innermost of them, or of those
/// outside all.
spec fn list_at(st: ProgressView, h: nat) -> Seq<FrameRef> {
    if h == 0 {
        st.out.frames_in_order
    } else {
        st.builders[h - 1].members
    }
}

/// How many items of the kind there are.
spec fn how_many(out: SpreadView, kind: FrameKind) -> nat {
    match kind {
        FrameKind::Text(_) => out.text_frames.len(),
        FrameKind::Rect(_) => out.rectangles.len(),
        FrameKind::Oval(_) => out.ovals.len(),
        FrameKind::Line(_) => out.graphic_lines.len(),
        FrameKind::Polygon(_) => out.polygons.len(),
    }
}

spec fn position(kind: FrameKind) -> nat {
    match kind {
        FrameKind::Text(i) => i as nat,
        FrameKind::Rect(i) => i as nat,
        FrameKind::Oval(i) => i as nat,
        FrameKind::Line(i) => i as nat,
        FrameKind::Polygon(i) => i as nat,
    }
}

/// What holds of every spread in the making, with the tags `names` open and at
/// most `n` items of a kind: the open item stands on the list of the group round
/// it.
#[verifier::opaque]
spec fn is_sound(st: ProgressView, names: Seq<Seq<u8>>, n: nat) -> bool {
    &&& each_listed_once(st)
    &&& st.builders.len() == groups_among(names)
    &&& st.group_transforms.len() == groups_among(names)
    &&& st.current matches Some(cf) ==> position(cf.kind) < how_many(st.out, cf.kind)
        && has_shape(names) && times(list_at(st, home(names)), reference(cf.kind)) > 0
    &&& st.out.text_frames.len() <= n
    &&& st.out.rectangles.len() <= n
    &&& st.out.ovals.len() <= n
    &&& st.out.graphic_lines.len() <= n
    &&& st.out.polygons.len() <= n
    &&& st.out.groups.len() <= n
}

proof fn lemma_home(names: Seq<Seq<u8>>)
    ensures
        home(names) <= groups_among(names),
    decreases names.len(),
{
    if names.len() > 0 {
        lemma_home(names.drop_last());
    }
}

/// As many items as before, and listed alike.
spec fn same_items(a: SpreadView, b: SpreadView) -> bool {
    &&& a.frames_in_order == b.frames_in_order
    &&& a.groups == b.groups
    &&& a.text_frames.len() == b.text_frames.len()
    &&& a.rectangles.len() == b.rectangles.len()
    &&& a.ovals.len() == b.ovals.len()
    &&& a.graphic_lines.len() == b.graphic_lines.len()
    &&& a.polygons.len() == b.polygons.len()
}

/// The same members in the groups that are open.
spec fn same_members(a: Seq<GroupBuilderView>, b: Seq<GroupBuilderView>) -> bool {
    &&& a.len() == b.len()
    &&& a.len() > 0 ==> a.drop_last() == b.drop_last() && a.last().members == b.last().members
}

/// The same item open.
spec fn same_current(a: Option<CurrentFrameView>, b: Option<CurrentFrameView>) -> bool {
    match (a, b) {
        (None, None) => true,
        (Some(x), Some(y)) => x.kind == y.kind,
        _ => false,
    }
}

/// The open tags after an opening tag.
spec fn names_after(names: Seq<Seq<u8>>, tag: TagView) -> Seq<Seq<u8>> {
    if tag.empty {
        names
    } else {
        names.push(tag.name)
    }
}

/// The same items, listed alike, and the same one open.
spec fn keeps(st: ProgressView, after: ProgressView) -> bool {
    &&& same_items(st.out, after.out)
    &&& same_members(st.builders, after.builders)
    &&& same_current(st.current, after.current)
    &&& st.group_transforms == after.group_transforms
}

proof fn lemma_stays_sound(
    st: ProgressView,
    names: Seq<Seq<u8>>,
    after: ProgressView,
    after_names: Seq<Seq<u8>>,
    n: nat,
)
    requires
        is_sound(st, names, n),
        keeps(st, after),
        groups_among(after_names) == groups_among(names),
        has_shape(after_names) == has_shape(names),
        home(after_names) == home(names),
    ensures
        is_sound(after, after_names, n),
{
    reveal(is_sound);
    lemma_home(names);
    let h = home(names);
    if 0 < h < st.builders.len() {
        assert(st.builders.drop_last()[h - 1] == after.builders.drop_last()[h - 1]);
    }
    assert(list_at(st, h) == list_at(after, h));
    assert forall|item: FrameRef| #[trigger]
        times_listed(after, item) == if leads(after.out, item) {
            1nat
        } else {
            0nat
        } by {
        assert(times_listed(st, item) == times_listed(after, item));
        assert(leads(st.out, item) == leads(after.out, item));
    }
}

proof fn lemma_push_adds(list: Seq<FrameRef>, x: FrameRef, item: FrameRef)
    ensures
        times(list.push(x), item) == times(list, item) + if x == item {
            1nat
        } else {
            0nat
        },
{
    assert(list.push(x).drop_last() =~= list);
}

proof fn lemma_registered(st: ProgressView, x: FrameRef, item: FrameRef, h: nat)
    requires
        h <= st.builders.len(),
    ensures
        times_listed(registered(st, x), item) == times_listed(st, item) + if x == item {
            1nat
        } else {
            0nat
        },
        times(list_at(registered(st, x), h), item) >= times(list_at(st, h), item),
        times(list_at(registered(st, x), st.builders.len()), x) > 0,
{
    if st.builders.len() > 0 {
        let b = st.builders.last();
        assert(registered(st, x).builders.drop_last() =~= st.builders.drop_last());
        lemma_push_adds(b.members, x, item);
        lemma_push_adds(b.members, x, x);
        if 0 < h < st.builders.len() {
            assert(registered(st, x).builders[h - 1] == st.builders[h - 1]);
        }
    } else {
        lemma_push_adds(st.out.frames_in_order, x, item);
        lemma_push_adds(st.out.frames_in_order, x, x);
    }
}

proof fn lemma_without_takes(list: Seq<FrameRef>, x: FrameRef, item: FrameRef)
    requires
        times(list, x) > 0,
    ensures
        times(list, item) == times(without(list, x), item) + if x == item {
            1nat
        } else {
            0nat
        },
    decreases list.len(),
{
    if list.last() != x {
        lemma_without_takes(list.drop_last(), x, item);
        lemma_push_adds(without(list.drop_last(), x), list.last(), item);
    }
}

proof fn lemma_unregistered(st: ProgressView, x: FrameRef, item: FrameRef)
    requires
        times(list_at(st, st.builders.len()), x) > 0,
    ensures
        times_listed(st, item) == times_listed(unregistered(st, x), item) + if x == item {
            1nat
        } else {
            0nat
        },
{
    lemma_without_takes(list_at(st, st.builders.len()), x, item);
    if st.builders.len() > 0 {
        assert(unregistered(st, x).builders.drop_last() =~= st.builders.drop_last());
    }
}

/// One more item of a kind, listed, and open unless its tag closes itself.
proof fn lemma_opened(
    st: ProgressView,
    names: Seq<Seq<u8>>,
    out: SpreadView,
    kind: FrameKind,
    tag: TagView,
    keep: bool,
    n: nat,
)
    requires
        is_sound(st, names, n),
        n < usize::MAX,
        is_shape(tag.name),
        out.frames_in_order == st.out.frames_in_order,
        out.groups == st.out.groups,
        position(kind) == how_many(st.out, kind),
        position(kind) + 1 == how_many(out, kind),
        st.out.text_frames.len() <= out.text_frames.len() <= st.out.text_frames.len() + 1,
        st.out.rectangles.len() <= out.rectangles.len() <= st.out.rectangles.len() + 1,
        st.out.ovals.len() <= out.ovals.len() <= st.out.ovals.len() + 1,
        st.out.graphic_lines.len() <= out.graphic_lines.len() <= st.out.graphic_lines.len() + 1,
        st.out.polygons.len() <= out.polygons.len() <= st.out.polygons.len() + 1,
        forall|item: FrameRef|
            item != reference(kind) ==> leads(out, item) == #[trigger] leads(st.out, item),
    ensures
        is_sound(
            with_open(ProgressView { out, ..st }, kind, tag, keep),
            names_after(names, tag),
            (n + 1) as nat,
        ),
{
    reveal(is_sound);
    let mid = ProgressView { out, ..st };
    let after = with_open(mid, kind, tag, keep);
    let x = reference(kind);
    lemma_home(names);
    lemma_shape_is_no_group(tag.name);
    assert(names.push(tag.name).drop_last() =~= names);
    lemma_registered(mid, x, x, home(names));
    assert forall|item: FrameRef| #[trigger]
        times_listed(after, item) == if leads(after.out, item) {
            1nat
        } else {
            0nat
        } by {
        lemma_registered(mid, x, item, 0);
        assert(times_listed(mid, item) == times_listed(st, item));
        assert(times_listed(after, item) == times_listed(registered(mid, x), item));
        assert(leads(after.out, item) == leads(out, item));
        if item == x {
            assert(!leads(st.out, item));
            assert(leads(out, item));
        } else {
            assert(leads(out, item) == leads(st.out, item));
        }
    }
    let listed = registered(mid, x);
    if tag.empty {
        if let Some(cf) = st.current {
            lemma_registered(mid, x, reference(cf.kind), home(names));
            assert(list_at(mid, home(names)) == list_at(st, home(names)));
            assert(list_at(after, home(names)) == list_at(listed, home(names)));
        }
    } else {
        assert(list_at(after, st.builders.len()) == list_at(listed, st.builders.len()));
    }
}

/// There are few enough items to be counted.
proof fn lemma_few(st: ProgressView, names: Seq<Seq<u8>>, n: nat)
    requires
        is_sound(st, names, n),
    ensures
        st.out.text_frames.len() <= n,
        st.out.rectangles.len() <= n,
        st.out.ovals.len() <= n,
        st.out.graphic_lines.len() <= n,
        st.out.polygons.len() <= n,
{
    reveal(is_sound);
}

proof fn lemma_text_frame(
    st: ProgressView,
    names: Seq<Seq<u8>>,
    item: TextFrameView,
    tag: TagView,
    n: nat,
)
    requires
        is_sound(st, names, n),
        n < usize::MAX,
        is_shape(tag.name),
    ensures
        ({
            let out = SpreadView { text_frames: st.out.text_frames.push(item), ..st.out };
            let kind = FrameKind::Text(st.out.text_frames.len() as usize);
            is_sound(
                with_open(ProgressView { out, ..st }, kind, tag, true),
                names_after(names, tag),
                (n + 1) as nat,
            )
        }),
{
    let out = SpreadView { text_frames: st.out.text_frames.push(item), ..st.out };
    lemma_few(st, names, n);
    lemma_opened(st, names, out, FrameKind::Text(st.out.text_frames.len() as usize), tag, true, n);
}

proof fn lemma_rectangle(
    st: ProgressView,
    names: Seq<Seq<u8>>,
    item: RectangleView,
    tag: TagView,
    n: nat,
)
    requires
        is_sound(st, names, n),
        n < usize::MAX,
        is_shape(tag.name),
    ensures
        ({
            let out = SpreadView { rectangles: st.out.rectangles.push(item), ..st.out };
            let kind = FrameKind::Rect(st.out.rectangles.len() as usize);
            is_sound(
                with_open(ProgressView { out, ..st }, kind, tag, true),
                names_after(names, tag),
                (n + 1) as nat,
            )
        }),
{
    let out = SpreadView { rectangles: st.out.rectangles.push(item), ..st.out };
    lemma_few(st, names, n);
    lemma_opened(st, names, out, FrameKind::Rect(st.out.rectangles.len() as usize), tag, true, n);
}

proof fn lemma_oval(
    st: ProgressView,
    names: Seq<Seq<u8>>,
    item: OvalView,
    tag: TagView,
    n: nat,
)
    requires
        is_sound(st, names, n),
        n < usize::MAX,
        is_shape(tag.name),
    ensures
        ({
            let out = SpreadView { ovals: st.out.ovals.push(item), ..st.out };
            let kind = FrameKind::Oval(st.out.ovals.len() as usize);
            is_sound(
                with_open(ProgressView { out, ..st }, kind, tag, false),
                names_after(names, tag),
                (n + 1) as nat,
            )
        }),
{
    let out = SpreadView { ovals: st.out.ovals.push(item), ..st.out };
    lemma_few(st, names, n);
    lemma_opened(st, names, out, FrameKind::Oval(st.out.ovals.len() as usize), tag, false, n);
}

proof fn lemma_graphic_line(
    st: ProgressView,
    names: Seq<Seq<u8>>,
    item: GraphicLineView,
    tag: TagView,
    n: nat,
)
    requires
        is_sound(st, names, n),
        n < usize::MAX,
        is_shape(tag.name),
    ensures
        ({
            let out = SpreadView { graphic_lines: st.out.graphic_lines.push(item), ..st.out };
            let kind = FrameKind::Line(st.out.graphic_lines.len() as usize);
            is_sound(
                with_open(ProgressView { out, ..st }, kind, tag, true),
                names_after(names, tag),
                (n + 1) as nat,
            )
        }),
{
    let out = SpreadView { graphic_lines: st.out.graphic_lines.push(item), ..st.out };
    lemma_few(st, names, n);
    let kind = FrameKind::Line(st.out.graphic_lines.len() as usize);
    lemma_opened(st, names, out, kind, tag, true, n);
}

proof fn lemma_polygon(
    st: ProgressView,
    names: Seq<Seq<u8>>,
    item: PolygonView,
    tag: TagView,
    n: nat,
)
    requires
        is_sound(st, names, n),
        n < usize::MAX,
        is_shape(tag.name),
    ensures
        ({
            let out = SpreadView { polygons: st.out.polygons.push(item), ..st.out };
            let kind = FrameKind::Polygon(st.out.polygons.len() as usize);
            is_sound(
                with_open(ProgressView { out, ..st }, kind, tag, true),
                names_after(names, tag),
                (n + 1) as nat,
            )
        }),
{
    let out = SpreadView { polygons: st.out.polygons.push(item), ..st.out };
    lemma_few(st, names, n);
    lemma_opened(st, names, out, FrameKind::Polygon(st.out.polygons.len() as usize), tag, true, n);
}

proof fn lemma_shape(st: ProgressView, names: Seq<Seq<u8>>, tag: TagView, n: nat)
    requires
        is_sound(st, names, n),
        n < usize::MAX,
        is_shape(tag.name),
    ensures
        is_sound(after_shape(st, tag), names_after(names, tag), (n + 1) as nat),
{
    if tag.is("TextFrame"@) {
        lemma_text_frame(st, names, text_frame_of(tag, st.group_transforms), tag, n);
    } else if tag.is("Rectangle"@) {
        lemma_rectangle(st, names, rectangle_of(tag, st.group_transforms), tag, n);
    } else if tag.is("Oval"@) {
        lemma_oval(st, names, oval_of(tag, st.group_transforms), tag, n);
    } else if tag.is("GraphicLine"@) {
        lemma_graphic_line(st, names, graphic_line_of(tag, st.group_transforms), tag, n);
    } else {
        lemma_polygon(st, names, polygon_of(tag, st.group_transforms), tag, n);
    }
}

proof fn lemma_wrap_keeps(st: ProgressView, cf: CurrentFrameView, tag: TagView)
    requires
        st.current == Some(cf),
    ensures
        keeps(st, after_wrap(st, cf, tag)),
{
}

proof fn lemma_image_keeps(st: ProgressView, cf: CurrentFrameView, tag: TagView)
    requires
        st.current == Some(cf),
    ensures
        keeps(st, after_image(st, cf, tag)),
{
}

proof fn lemma_edits_keep(out: SpreadView, kind: FrameKind, tag: TagView, path: TextPathView)
    ensures
        same_items(out, with_anchored_flag(out, kind)),
        same_items(out, with_key_value(out, kind, tag)),
        same_items(out, with_preference(out, kind, tag)),
        same_items(out, with_fitting(out, kind, tag)),
        same_items(out, with_text_path(out, kind, path)),
{
}

proof fn lemma_detail_keeps(st: ProgressView, cf: CurrentFrameView, tag: TagView)
    requires
        st.current == Some(cf),
    ensures
        keeps(st, after_detail(st, cf, tag)),
{
    if tag.is("TextWrapPreference"@) || tag.is("TextWrapOffset"@) || tag.is("ContourOption"@) {
        lemma_wrap_keeps(st, cf, tag);
    }
    if is_image(tag) || tag.is("Link"@) {
        lemma_image_keeps(st, cf, tag);
    }
    let path = text_path_of(tag).unwrap_or(arbitrary());
    lemma_edits_keep(st.out, cf.kind, tag, path);
    assert(keeps(st, ProgressView { out: with_anchored_flag(st.out, cf.kind), ..st }));
    assert(keeps(st, ProgressView { out: with_key_value(st.out, cf.kind, tag), ..st }));
    assert(keeps(st, ProgressView { out: with_preference(st.out, cf.kind, tag), ..st }));
    assert(keeps(st, ProgressView { out: with_fitting(st.out, cf.kind, tag), ..st }));
    assert(keeps(st, ProgressView { out: with_text_path(st.out, cf.kind, path), ..st }));
}

proof fn lemma_transparency_keeps(st: ProgressView, stroke: bool)
    ensures
        keeps(st, after_transparency(st, stroke)),
        keeps(st, after_transparency_end(st, stroke)),
{
    if st.builders.len() > 0 {
        let opened = after_transparency(st, stroke);
        let closed = after_transparency_end(st, stroke);
        assert(opened.builders.drop_last() =~= st.builders.drop_last());
        assert(closed.builders.drop_last() =~= st.builders.drop_last());
    }
}

proof fn lemma_shadow_keeps(st: ProgressView, tag: TagView)
    ensures
        keeps(st, after_shadow(st, tag)),
{
    if st.builders.len() > 0 {
        assert(after_shadow(st, tag).builders.drop_last() =~= st.builders.drop_last());
    }
}

proof fn lemma_blending_keeps(st: ProgressView, tag: TagView)
    ensures
        keeps(st, after_blending(st, tag)),
{
    if st.builders.len() > 0 {
        assert(after_blending(st, tag).builders.drop_last() =~= st.builders.drop_last());
    }
}

proof fn lemma_effect_keeps(st: ProgressView, tag: TagView)
    ensures
        keeps(st, after_effect(st, tag)),
        forall|kind: FrameKind|
            same_items(st.out, #[trigger] with_feather_stop(st.out, kind, tag)),
{
}

/// A tag that is not that of a group changes nothing of the items.
proof fn lemma_layout_keeps(st: ProgressView, tag: TagView)
    requires
        !tag.is("Group"@),
    ensures
        keeps(st, after_layout(st, tag)),
{
}

proof fn lemma_look_keeps(st: ProgressView, tag: TagView)
    requires
        !tag.is("Group"@),
    ensures
        keeps(st, after_look(st, tag)),
{
    lemma_layout_keeps(st, tag);
    lemma_transparency_keeps(st, true);
    lemma_transparency_keeps(st, false);
    lemma_shadow_keeps(st, tag);
    lemma_effect_keeps(st, tag);
    lemma_blending_keeps(st, tag);
}

/// The name of a group is none of the others.
proof fn lemma_group_is_a_group(st: ProgressView, tag: TagView)
    requires
        tag.is("Group"@),
    ensures
        after_open(st, tag) == with_group(st, tag),
{
    reveal_strlit("Group");
    assert("Group"@.len() == 5 && "Group"@[0] == 'G');
    reveal_strlit("TextFrame");
    reveal_strlit("Rectangle");
    reveal_strlit("Oval");
    reveal_strlit("GraphicLine");
    reveal_strlit("Polygon");
    reveal_strlit("AnchoredObjectSetting");
    reveal_strlit("GeometryPathType");
    reveal_strlit("KeyValuePair");
    reveal_strlit("PathPointType");
    reveal_strlit("TextWrapPreference");
    reveal_strlit("TextWrapOffset");
    reveal_strlit("ContourOption");
    reveal_strlit("TextFramePreference");
    reveal_strlit("Image");
    reveal_strlit("EPSImage");
    reveal_strlit("PDF");
    reveal_strlit("ImportedPage");
    reveal_strlit("Link");
    reveal_strlit("ClippingPathSettings");
    reveal_strlit("Contents");
    reveal_strlit("FrameFittingOption");
    reveal_strlit("TextPath");
    reveal_strlit("StrokeTransparencySetting");
    reveal_strlit("ContentTransparencySetting");
    reveal_strlit("DropShadowSetting");
    reveal_strlit("InnerShadowSetting");
    reveal_strlit("OuterGlowSetting");
    reveal_strlit("InnerGlowSetting");
    reveal_strlit("BevelAndEmbossSetting");
    reveal_strlit("SatinSetting");
    reveal_strlit("FeatherSetting");
    reveal_strlit("DirectionalFeatherSetting");
    reveal_strlit("GradientFeatherSetting");
    reveal_strlit("GradientStop");
    reveal_strlit("OpacityGradientStop");
    reveal_strlit("BlendingSetting");
    reveal_strlit("Spread");
    reveal_strlit("MasterSpread");
    law_names_differ("Group"@, "TextFrame"@);
    law_names_differ("Group"@, "Rectangle"@);
    law_names_differ("Group"@, "Oval"@);
    law_names_differ("Group"@, "GraphicLine"@);
    law_names_differ("Group"@, "Polygon"@);
    law_names_differ("Group"@, "AnchoredObjectSetting"@);
    law_names_differ("Group"@, "GeometryPathType"@);
    law_names_differ("Group"@, "KeyValuePair"@);
    law_names_differ("Group"@, "PathPointType"@);
    law_names_differ("Group"@, "TextWrapPreference"@);
    law_names_differ("Group"@, "TextWrapOffset"@);
    law_names_differ("Group"@, "ContourOption"@);
    law_names_differ("Group"@, "TextFramePreference"@);
    assert("Image"@[0] != "Group"@[0]);
    law_names_differ("Group"@, "Image"@);
    law_names_differ("Group"@, "EPSImage"@);
    law_names_differ("Group"@, "PDF"@);
    law_names_differ("Group"@, "ImportedPage"@);
    law_names_differ("Group"@, "Link"@);
    law_names_differ("Group"@, "ClippingPathSettings"@);
    law_names_differ("Group"@, "Contents"@);
    law_names_differ("Group"@, "FrameFittingOption"@);
    law_names_differ("Group"@, "TextPath"@);
    law_names_differ("Group"@, "StrokeTransparencySetting"@);
    law_names_differ("Group"@, "ContentTransparencySetting"@);
    law_names_differ("Group"@, "DropShadowSetting"@);
    law_names_differ("Group"@, "InnerShadowSetting"@);
    law_names_differ("Group"@, "OuterGlowSetting"@);
    law_names_differ("Group"@, "InnerGlowSetting"@);
    law_names_differ("Group"@, "BevelAndEmbossSetting"@);
    law_names_differ("Group"@, "SatinSetting"@);
    law_names_differ("Group"@, "FeatherSetting"@);
    law_names_differ("Group"@, "DirectionalFeatherSetting"@);
    law_names_differ("Group"@, "GradientFeatherSetting"@);
    law_names_differ("Group"@, "GradientStop"@);
    law_names_differ("Group"@, "OpacityGradientStop"@);
    law_names_differ("Group"@, "BlendingSetting"@);
    law_names_differ("Group"@, "Spread"@);
    law_names_differ("Group"@, "MasterSpread"@);
}

proof fn lemma_group_open(st: ProgressView, names: Seq<Seq<u8>>, tag: TagView, n: nat)
    requires
        is_sound(st, names, n),
        tag.is("Group"@),
    ensures
        is_sound(with_group(st, tag), names.push(tag.name), n),
{
    reveal(is_sound);
    let after = with_group(st, tag);
    let inside = names.push(tag.name);
    assert(inside.drop_last() =~= names);
    if is_shape(tag.name) {
        lemma_shape_is_no_group(tag.name);
    }
    lemma_home(names);
    assert(after.builders.drop_last() =~= st.builders);
    assert(list_at(after, home(names)) == list_at(st, home(names)));
    assert forall|item: FrameRef| #[trigger]
        times_listed(after, item) == if leads(after.out, item) {
            1nat
        } else {
            0nat
        } by {
        assert(times(after.builders.last().members, item) == 0);
        assert(times_listed(after, item) == times_listed(st, item));
        assert(leads(st.out, item) == leads(after.out, item));
    }
}

proof fn lemma_group_end(st: ProgressView, names: Seq<Seq<u8>>, n: nat)
    requires
        is_sound(st, names, n),
        n < usize::MAX,
        names.len() > 0,
        names.last() == encode_utf8("Group"@),
    ensures
        is_sound(after_group_end(st), names.drop_last(), (n + 1) as nat),
{
    reveal(is_sound);
    if is_shape(names.last()) {
        lemma_shape_is_no_group(names.last());
    }
    let outside = names.drop_last();
    lemma_home(outside);
    let after = after_group_end(st);
    let b = st.builders.last();
    let group = GroupView {
        self_id: b.self_id,
        item_transform: b.item_transform,
        members: b.members,
        transparency: b.transparency,
    };
    let mid = ProgressView {
        group_transforms: st.group_transforms.drop_last(),
        builders: st.builders.drop_last(),
        out: SpreadView { groups: st.out.groups.push(group), ..st.out },
        ..st
    };
    let x = FrameRef::Group(st.out.groups.len() as usize);
    assert(mid.out.groups.drop_last() =~= st.out.groups);
    assert forall|item: FrameRef| #[trigger]
        times_listed(after, item) == if leads(after.out, item) {
            1nat
        } else {
            0nat
        } by {
        lemma_registered(mid, x, item, 0);
        assert(times_listed(mid, item) == times_listed(st, item));
        assert(leads(after.out, item) == leads(mid.out, item));
        if item == x {
            assert(!leads(st.out, item));
        } else {
            assert(leads(mid.out, item) == leads(st.out, item));
        }
    }
    if let Some(cf) = st.current {
        lemma_registered(mid, x, reference(cf.kind), home(outside));
        assert(list_at(mid, home(outside)) == list_at(st, home(names)));
    }
}

proof fn lemma_close(st: ProgressView, names: Seq<Seq<u8>>, cf: CurrentFrameView, n: nat)
    requires
        is_sound(st, names, n),
        st.current == Some(cf),
        names.len() > 0,
        is_shape(names.last()),
    ensures
        is_sound(after_close(st, cf), names.drop_last(), n),
{
    reveal(is_sound);
    let after = after_close(st, cf);
    let outside = names.drop_last();
    lemma_shape_is_no_group(names.last());
    let clipped = match cf.clip {
        None => st.out,
        Some(clip) => with_image_clip(st.out, cf.kind, clip),
    };
    assert(same_items(st.out, clipped));
    if cf.needs_bounds && cf.anchors.len() == 0 && is_newest(clipped, cf.kind) {
        let mid = ProgressView { out: without_pending(clipped, cf.kind), current: None, ..st };
        let x = reference(cf.kind);
        assert(list_at(mid, mid.builders.len()) == list_at(st, home(names)));
        assert forall|item: FrameRef| #[trigger]
            times_listed(after, item) == if leads(after.out, item) {
                1nat
            } else {
                0nat
            } by {
            lemma_unregistered(mid, x, item);
            assert(times_listed(mid, item) == times_listed(st, item));
            assert(leads(after.out, item) == leads(mid.out, item));
            if item == x {
                assert(leads(st.out, item));
                assert(!leads(mid.out, item));
            } else {
                assert(leads(mid.out, item) == leads(st.out, item));
            }
        }
    } else {
        assert(same_items(st.out, after.out));
        assert forall|item: FrameRef| #[trigger]
            times_listed(after, item) == if leads(after.out, item) {
                1nat
            } else {
                0nat
            } by {
            assert(times_listed(after, item) == times_listed(st, item));
            assert(leads(after.out, item) == leads(st.out, item));
        }
    }
}

proof fn lemma_more(st: ProgressView, names: Seq<Seq<u8>>, n: nat)
    requires
        is_sound(st, names, n),
    ensures
        is_sound(st, names, (n + 1) as nat),
{
    reveal(is_sound);
}

/// A tag that is neither that of an item nor that of a group changes nothing of
/// where the items stand.
proof fn lemma_plain_name(names: Seq<Seq<u8>>, name: Seq<u8>)
    requires
        name != encode_utf8("Group"@),
        !is_shape(name),
    ensures
        groups_among(names.push(name)) == groups_among(names),
        has_shape(names.push(name)) == has_shape(names),
        home(names.push(name)) == home(names),
{
    assert(names.push(name).drop_last() =~= names);
}

proof fn lemma_open(st: ProgressView, names: Seq<Seq<u8>>, tag: TagView, n: nat)
    requires
        is_sound(st, names, n),
        n < usize::MAX,
        tag.is("Group"@) ==> !tag.empty,
    ensures
        is_sound(after_open(st, tag), names_after(names, tag), (n + 1) as nat),
{
    if is_shape(tag.name) {
        lemma_shape(st, names, tag, n);
    } else if tag.is("Group"@) {
        lemma_group_is_a_group(st, tag);
        lemma_group_open(st, names, tag, n);
        lemma_more(with_group(st, tag), names.push(tag.name), n);
    } else {
        lemma_more(st, names, n);
        lemma_plain_name(names, tag.name);
        if is_detail(tag) {
            if let Some(cf) = st.current {
                lemma_detail_keeps(st, cf, tag);
            }
        } else {
            lemma_look_keeps(st, tag);
        }
        assert(keeps(st, after_open(st, tag)));
        lemma_stays_sound(
            st,
            names,
            after_open(st, tag),
            names_after(names, tag),
            (n + 1) as nat,
        );
    }
}

proof fn lemma_end_keeps(st: ProgressView, name: Seq<u8>)
    requires
        name != encode_utf8("Group"@),
        !is_shape(name),
    ensures
        keeps(st, after_end(st, name)),
{
    lemma_transparency_keeps(st, true);
    lemma_transparency_keeps(st, false);
}

proof fn lemma_end(st: ProgressView, names: Seq<Seq<u8>>, n: nat)
    requires
        is_sound(st, names, n),
        n < usize::MAX,
        names.len() > 0,
    ensures
        is_sound(after_end(st, names.last()), names.drop_last(), (n + 1) as nat),
{
    let name = names.last();
    let outside = names.drop_last();
    if name == encode_utf8("Group"@) {
        lemma_group_end(st, names, n);
    } else if is_shape(name) {
        lemma_more(st, names, n);
        match st.current {
            Some(cf) => {
                lemma_close(st, names, cf, (n + 1) as nat);
            },
            None => {
                reveal(is_sound);
            },
        }
    } else {
        lemma_more(st, names, n);
        lemma_end_keeps(st, name);
        assert(outside.push(name) =~= names);
        lemma_plain_name(outside, name);
        lemma_stays_sound(st, names, after_end(st, name), outside, (n + 1) as nat);
    }
}

proof fn lemma_reading_is_sound(events: Seq<EventView>, n: nat)
    requires
        n <= events.len() <= usize::MAX,
        open_names(events, n) is Some,
        groups_have_ends(events, n),
    ensures
        is_sound(after_events(events, n), open_names(events, n)->0, n),
    decreases n,
{
    if n == 0 {
        reveal(is_sound);
    } else {
        let before = (n - 1) as nat;
        lemma_reading_is_sound(events, before);
        let st = after_events(events, before);
        let names = open_names(events, before)->0;
        match events[n - 1] {
            EventView::Open(tag) => lemma_open(st, names, tag, before),
            EventView::End(_) => lemma_end(st, names, before),
            _ => {
                lemma_more(st, names, before);
                lemma_stays_sound(st, names, after_event(st, events[n - 1]), names, n);
            },
        }
    }
}

/// Wherever the reading of a document stands, short of a group whose tag closes
/// itself, every item and every group that was closed stands on exactly one list,
/// once, and every reference on a list leads to one of them.
pub proof fn law_each_item_is_listed_once(events: Seq<EventView>, n: nat)
    requires
        n <= events.len() <= usize::MAX,
        open_names(events, n) is Some,
        groups_have_ends(events, n),
    ensures
        each_listed_once(after_events(events, n)),
{
    lemma_reading_is_sound(events, n);
    reveal(is_sound);
}

/// In the spread that a well-formed document states, every text frame, rectangle,
/// oval, line, polygon and group is named exactly once, in the order of the spread
/// or among the members of a group, and every reference there leads to one; unless
/// the tag of a group closes itself.
pub proof fn law_spread_names_each_item_once(events: Seq<EventView>, item: FrameRef)
    requires
        events.len() <= usize::MAX,
        is_well_formed(events),
        groups_have_ends(events, events.len()),
    ensures
        times_named(spread_of(events), item) == if leads(spread_of(events), item) {
            1nat
        } else {
            0nat
        },
{
    lemma_reading_is_sound(events, events.len());
    reveal(is_sound);
    let st = after_events(events, events.len());
    assert(st.builders.len() == 0);
    assert(times_listed(st, item) == times_named(st.out, item));
}

} // verus!
