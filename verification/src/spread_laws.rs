//! What holds of every spread that is read.
use crate::edits::{with_image, FrameKind};
use crate::geometry::{extent, Bounds, Matrix};
use crate::page_items::{FrameRef, SpreadView, TextWrap};
use crate::shapes::{graphic_line_of, oval_of, polygon_of, rectangle_of, text_frame_of};
use crate::spread::{
    after_close, after_end, after_group_end, after_layout, after_open, after_shape, is_shape,
    just_opened, is_newest, reference, with_image_metadata, with_label, with_open, without,
    without_pending, wrap_of, CurrentFrameView, ProgressView,
};
use crate::xml::{law_names_differ, TagView};
use vstd::prelude::*;
use vstd::utf8::encode_utf8;

verus! {

pub(crate) proof fn lemma_shape_is_no_group(name: Seq<u8>)
    requires
        is_shape(name),
    ensures
        name != encode_utf8("Group"@),
{
    reveal_strlit("Group");
    reveal_strlit("TextFrame");
    reveal_strlit("Rectangle");
    reveal_strlit("Oval");
    reveal_strlit("GraphicLine");
    reveal_strlit("Polygon");
    assert("Group"@.len() == 5 && "TextFrame"@.len() == 9 && "Rectangle"@.len() == 9
        && "Oval"@.len() == 4 && "GraphicLine"@.len() == 11 && "Polygon"@.len() == 7);
    law_names_differ("Group"@, "TextFrame"@);
    law_names_differ("Group"@, "Rectangle"@);
    law_names_differ("Group"@, "Oval"@);
    law_names_differ("Group"@, "GraphicLine"@);
    law_names_differ("Group"@, "Polygon"@);
}

/// What an item that was just put on a list leaves behind, once it is taken back.
proof fn lemma_taken_back(
    st: ProgressView,
    out: SpreadView,
    kind: FrameKind,
    tag: TagView,
    keep: bool,
)
    requires
        !tag.empty,
        is_newest(out, kind),
        without_pending(out, kind) == st.out,
    ensures
        ({
            let opened = with_open(ProgressView { out, ..st }, kind, tag, keep);
            after_close(opened, just_opened(kind, true, keep)) == (ProgressView {
                current: None,
                ..st
            })
        }),
{
    let opened = with_open(ProgressView { out, ..st }, kind, tag, keep);
    let closed = after_close(opened, just_opened(kind, true, keep));
    assert(out.frames_in_order == st.out.frames_in_order);
    if st.builders.len() > 0 {
        let members = st.builders.last().members;
        assert(members.push(reference(kind)).drop_last() =~= members);
        assert(without(opened.builders.last().members, reference(kind)) == members);
        assert(closed.builders =~= st.builders);
    } else {
        let order = st.out.frames_in_order;
        assert(order.push(reference(kind)).drop_last() =~= order);
        assert(without(opened.out.frames_in_order, reference(kind)) == order);
    }
    assert(closed.out =~= st.out);
}

/// Whether an item more of each kind can be counted.
pub open spec fn has_room(out: SpreadView) -> bool {
    &&& out.text_frames.len() < usize::MAX
    &&& out.rectangles.len() < usize::MAX
    &&& out.ovals.len() < usize::MAX
    &&& out.graphic_lines.len() < usize::MAX
    &&& out.polygons.len() < usize::MAX
}

proof fn lemma_shape_taken_back(st: ProgressView, tag: TagView)
    requires
        is_shape(tag.name),
        !tag.empty,
        tag.bounds("GeometricBounds"@) is None,
        has_room(st.out),
    ensures
        ({
            let opened = after_shape(st, tag);
            opened.current matches Some(cf) && after_close(opened, cf) == (ProgressView {
                current: None,
                ..st
            })
        }),
{
    let out = st.out;
    if tag.is("TextFrame"@) {
        let item = text_frame_of(tag, st.group_transforms);
        let after = SpreadView { text_frames: out.text_frames.push(item), ..out };
        assert(after.text_frames.drop_last() =~= out.text_frames);
        lemma_taken_back(st, after, FrameKind::Text(out.text_frames.len() as usize), tag, true);
    } else if tag.is("Rectangle"@) {
        let item = rectangle_of(tag, st.group_transforms);
        let after = SpreadView { rectangles: out.rectangles.push(item), ..out };
        assert(after.rectangles.drop_last() =~= out.rectangles);
        lemma_taken_back(st, after, FrameKind::Rect(out.rectangles.len() as usize), tag, true);
    } else if tag.is("Oval"@) {
        let item = oval_of(tag, st.group_transforms);
        let after = SpreadView { ovals: out.ovals.push(item), ..out };
        assert(after.ovals.drop_last() =~= out.ovals);
        lemma_taken_back(st, after, FrameKind::Oval(out.ovals.len() as usize), tag, false);
    } else if tag.is("GraphicLine"@) {
        let item = graphic_line_of(tag, st.group_transforms);
        let after = SpreadView { graphic_lines: out.graphic_lines.push(item), ..out };
        assert(after.graphic_lines.drop_last() =~= out.graphic_lines);
        lemma_taken_back(st, after, FrameKind::Line(out.graphic_lines.len() as usize), tag, true);
    } else {
        let item = polygon_of(tag, st.group_transforms);
        let after = SpreadView { polygons: out.polygons.push(item), ..out };
        assert(after.polygons.drop_last() =~= out.polygons);
        lemma_taken_back(st, after, FrameKind::Polygon(out.polygons.len() as usize), tag, true);
    }
}

/// An item with neither a box nor a path leaves no trace.
pub proof fn law_item_without_geometry_is_taken_back(st: ProgressView, tag: TagView)
    requires
        is_shape(tag.name),
        !tag.empty,
        tag.bounds("GeometricBounds"@) is None,
        has_room(st.out),
    ensures
        after_end(after_open(st, tag), tag.name) == (ProgressView { current: None, ..st }),
{
    lemma_shape_is_no_group(tag.name);
    lemma_shape_taken_back(st, tag);
}

/// The box of an item.
pub open spec fn bounds_at(out: SpreadView, kind: FrameKind) -> Option<Bounds> {
    match kind {
        FrameKind::Text(i) => if i < out.text_frames.len() {
            Some(out.text_frames[i as int].bounds)
        } else {
            None
        },
        FrameKind::Rect(i) => if i < out.rectangles.len() {
            Some(out.rectangles[i as int].bounds)
        } else {
            None
        },
        FrameKind::Oval(i) => if i < out.ovals.len() {
            Some(out.ovals[i as int].bounds)
        } else {
            None
        },
        FrameKind::Line(i) => if i < out.graphic_lines.len() {
            Some(out.graphic_lines[i as int].bounds)
        } else {
            None
        },
        FrameKind::Polygon(i) => if i < out.polygons.len() {
            Some(out.polygons[i as int].bounds)
        } else {
            None
        },
    }
}

/// A box that the tag of an item states is the box of the item, whatever its
/// path.
pub proof fn law_stated_box_is_kept(st: ProgressView, cf: CurrentFrameView)
    requires
        !cf.needs_bounds,
    ensures
        bounds_at(after_close(st, cf).out, cf.kind) == bounds_at(st.out, cf.kind),
{
}

/// Where the tag of an item states no box, the box is that of its path.
pub proof fn law_box_comes_from_path(st: ProgressView, cf: CurrentFrameView)
    requires
        cf.needs_bounds,
        cf.anchors.len() > 0,
        bounds_at(st.out, cf.kind) is Some,
    ensures
        bounds_at(after_close(st, cf).out, cf.kind) == Some(extent(cf.anchors)),
{
}

/// Whether `key` has a value.
pub open spec fn has_label(entries: Seq<(Seq<char>, Seq<char>)>, key: Seq<char>) -> bool {
    exists|i: int| 0 <= i < entries.len() && (#[trigger] entries[i]).0 == key
}

/// Of two values that a label is given, the later stands, in the place of the
/// first; the other labels stay as they are.
pub proof fn law_later_label_stands(
    entries: Seq<(Seq<char>, Seq<char>)>,
    key: Seq<char>,
    value: Seq<char>,
)
    ensures
        ({
            let after = with_label(entries, key, value);
            &&& exists|i: int| 0 <= i < after.len() && #[trigger] after[i] == (key, value)
            &&& after.len() == if has_label(entries, key) {
                entries.len()
            } else {
                entries.len() + 1
            }
            &&& forall|i: int|
                0 <= i < entries.len() && (#[trigger] entries[i]).0 != key ==> after[i]
                    == entries[i]
        }),
    decreases entries.len(),
{
    let after = with_label(entries, key, value);
    if entries.len() == 0 {
        assert(after[0] == (key, value));
    } else if entries[0].0 == key {
        assert(after[0] == (key, value));
    } else {
        let rest = entries.skip(1);
        law_later_label_stands(rest, key, value);
        let tail = with_label(rest, key, value);
        let k = choose|i: int| 0 <= i < tail.len() && #[trigger] tail[i] == (key, value);
        assert(after[k + 1] == tail[k]);
        if has_label(entries, key) {
            let i = choose|i: int| 0 <= i < entries.len() && (#[trigger] entries[i]).0 == key;
            assert(rest[i - 1] == entries[i]);
        }
        if has_label(rest, key) {
            let i = choose|i: int| 0 <= i < rest.len() && (#[trigger] rest[i]).0 == key;
            assert(entries[i + 1] == rest[i]);
        }
        assert forall|i: int|
            0 <= i < entries.len() && (#[trigger] entries[i]).0 != key implies after[i]
            == entries[i] by {
            if i > 0 {
                assert(rest[i - 1] == entries[i]);
                assert(after[i] == tail[i - 1]);
            }
        }
    }
}

/// The link of the image that an item holds.
pub open spec fn link_at(out: SpreadView, kind: FrameKind) -> Option<Seq<char>> {
    match kind {
        FrameKind::Rect(i) => if i < out.rectangles.len() {
            out.rectangles[i as int].image_link
        } else {
            None
        },
        FrameKind::Oval(i) => if i < out.ovals.len() {
            out.ovals[i as int].image_link
        } else {
            None
        },
        FrameKind::Polygon(i) => if i < out.polygons.len() {
            out.polygons[i as int].image_link
        } else {
            None
        },
        _ => None,
    }
}

/// Of two links that an image is given, the first stands.
pub proof fn law_first_link_stands(
    out: SpreadView,
    kind: FrameKind,
    is_image: bool,
    inline_pdf: bool,
    link: Option<Seq<char>>,
    placed: Option<Matrix>,
)
    requires
        link_at(out, kind) is Some,
    ensures
        link_at(with_image(out, kind, is_image, inline_pdf, link, placed), kind) == link_at(
            out,
            kind,
        ),
{
}

/// How the image of an item is placed.
pub open spec fn placing_at(out: SpreadView, kind: FrameKind) -> Option<Matrix> {
    match kind {
        FrameKind::Rect(i) => if i < out.rectangles.len() {
            out.rectangles[i as int].image_item_transform
        } else {
            None
        },
        FrameKind::Oval(i) => if i < out.ovals.len() {
            out.ovals[i as int].image_item_transform
        } else {
            None
        },
        FrameKind::Polygon(i) => if i < out.polygons.len() {
            out.polygons[i as int].image_item_transform
        } else {
            None
        },
        _ => None,
    }
}

/// Of two placings that an image is given, the first stands.
pub proof fn law_first_placing_stands(
    out: SpreadView,
    kind: FrameKind,
    is_image: bool,
    inline_pdf: bool,
    link: Option<Seq<char>>,
    placed: Option<Matrix>,
)
    requires
        placing_at(out, kind) is Some,
    ensures
        placing_at(with_image(out, kind, is_image, inline_pdf, link, placed), kind)
            == placing_at(out, kind),
{
}

/// What was stated first about the source of an item's image stands, and what is
/// stated about one image changes nothing for the others.
pub proof fn law_first_image_metadata_stands(
    out: SpreadView,
    id: Option<Seq<char>>,
    tag: TagView,
    other: Seq<char>,
)
    requires
        out.image_metadata.dom().contains(other),
    ensures
        ({
            let after = with_image_metadata(out, id, tag);
            &&& after.image_metadata.dom().contains(other)
            &&& after.image_metadata[other] == out.image_metadata[other]
        }),
{
}

/// A tag that states how text runs round an item changes neither the offsets nor
/// the contour that were stated before it.
pub proof fn law_wrap_keeps_offsets_and_contour(tag: TagView, before: TextWrap)
    ensures
        wrap_of(tag, Some(before)).offsets == before.offsets,
        wrap_of(tag, Some(before)).contour_type == before.contour_type,
        wrap_of(tag, Some(before)).include_inside_edges == before.include_inside_edges,
{
}

/// The tag that closes a group leads back to where the group was opened; the group
/// is listed behind those that closed before it, with the members it was given.
pub proof fn law_group_closes(st: ProgressView, tag: TagView, inside: ProgressView)
    requires
        tag.is("Group"@),
        ({
            let opened = after_layout(st, tag);
            &&& inside.group_transforms == opened.group_transforms
            &&& inside.builders.len() == opened.builders.len()
            &&& inside.builders.drop_last() == opened.builders.drop_last()
        }),
    ensures
        ({
            let after = after_group_end(inside);
            &&& after.group_transforms == st.group_transforms
            &&& after.builders.len() == st.builders.len()
            &&& after.out.groups.len() == inside.out.groups.len() + 1
            &&& after.out.groups.last().members == inside.builders.last().members
            &&& st.builders.len() == 0 ==> after.out.frames_in_order
                == inside.out.frames_in_order.push(
                FrameRef::Group(inside.out.groups.len() as usize),
            )
            &&& st.builders.len() > 0 ==> after.builders.last().members
                == st.builders.last().members.push(
                FrameRef::Group(inside.out.groups.len() as usize),
            )
        }),
{
    reveal_strlit("Group");
    reveal_strlit("Spread");
    reveal_strlit("MasterSpread");
    assert("Group"@.len() == 5 && "Spread"@.len() == 6 && "MasterSpread"@.len() == 12);
    law_names_differ("Group"@, "Spread"@);
    law_names_differ("Group"@, "MasterSpread"@);
    assert(after_layout(st, tag).group_transforms.drop_last() =~= st.group_transforms);
    assert(after_layout(st, tag).builders.drop_last() =~= st.builders);
}

} // verus!
