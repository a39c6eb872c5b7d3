//! What becomes of every page, frame, text and outline of a reading.
use crate::assembly::{
    built, channel, color_name, color_ref, document_from, drawable, frames_ids, grown_box,
    ids_needed, inside_out, lemma_built_ids, lemma_frames_ids, lemma_frames_ids_grow,
    lemma_page_ids, lemma_pages_ids_grow, minted, page_ids, pages_ids, paragraph_from,
    paragraphs_from, png_of, polygon_from, run_from, runs_from, shape_anchors, shape_starts,
    spread_path, story_from, with_background, with_color, with_frame, with_frames, with_image,
    with_page, with_run_colors, with_text, with_text_colors, with_vector, with_whole_page,
    DraftView,
};
use crate::assembly_laws::law_colours_share_swatches;
use crate::geometry::{holds, Bounds, PathAnchor};
use crate::graphic::{ColorSpace, GraphicView};
use crate::import::ParsedStoryView;
use crate::ir::{
    DocumentIrView, FrameIrView, ImageFrameIrView, PageIrView, ParagraphIrView, PointIr, RectIr,
    Rgb, RunIrView, SubpathIrView, TextFrameIrView, VectorIrView,
};
use crate::number::{
    clamped, is_finite, is_nan, magnitude, one, product, size_bits, sum, units, whole, zero, Num,
};
use crate::number_laws::{
    law_byte_is_nearest, law_clamped_is_from_zero_to_one, law_order_is_by_value,
    law_product_is_exact, law_sum_is_exact, law_whole_is_exact,
};
use crate::page_items::{FrameRef, PolygonView, SpreadView};
use crate::story_model::{CharacterRunView, ParagraphView};
use crate::text::{decimal, law_decimal_is_injective};
use vstd::arithmetic::power2::{lemma2_to64, lemma_pow2_adds, lemma_pow2_pos, pow2};
use vstd::prelude::*;

verus! {

/// Whether the sum of the values of two numbers is the value of a number.
pub open spec fn adds_up(a: Num, b: Num) -> bool {
    &&& is_finite(a)
    &&& is_finite(b)
    &&& exists|r: Num| is_finite(r) && #[trigger] units(r) == units(a) + units(b)
}

/// Whether a box stands where a rectangle of the reading does, and is as wide and
/// as high; the last two where the numbers can say it.
pub open spec fn has_size(b: Bounds, r: RectIr) -> bool {
    &&& b.left == r.x_pt
    &&& b.top == r.y_pt
    &&& adds_up(r.x_pt, r.width_pt) ==> is_finite(b.right) && units(b.right) - units(b.left)
        == units(r.width_pt)
    &&& adds_up(r.y_pt, r.height_pt) ==> is_finite(b.bottom) && units(b.bottom) - units(b.top)
        == units(r.height_pt)
}

proof fn lemma_adds_up(a: Num, b: Num)
    requires
        adds_up(a, b),
    ensures
        is_finite(sum(a, b)),
        units(sum(a, b)) == units(a) + units(b),
{
    let r = choose|r: Num| is_finite(r) && #[trigger] units(r) == units(a) + units(b);
    law_sum_is_exact(a, b, r);
}

/// The rectangle that an image becomes stands where the image does and has its
/// size; it is the last of the rectangles, holds the image, and is drawn above all
/// that was there.
pub proof fn law_image_has_its_size(d: DraftView, rect: RectIr, image: Seq<u8>)
    ensures
        ({
            let before = d.spread;
            let after = with_image(d, rect, image).spread;
            &&& after.rectangles.len() == before.rectangles.len() + 1
            &&& after.rectangles.drop_last() == before.rectangles
            &&& has_size(after.rectangles.last().bounds, rect)
            &&& after.rectangles.last().image_bytes == Some(image)
            &&& after.frames_in_order.drop_last() == before.frames_in_order
            &&& after.frames_in_order.len() == before.frames_in_order.len() + 1
            &&& after == SpreadView {
                rectangles: after.rectangles,
                frames_in_order: after.frames_in_order,
                ..before
            }
        }),
{
    if adds_up(rect.x_pt, rect.width_pt) {
        lemma_adds_up(rect.x_pt, rect.width_pt);
    }
    if adds_up(rect.y_pt, rect.height_pt) {
        lemma_adds_up(rect.y_pt, rect.height_pt);
    }
    let after = with_image(d, rect, image).spread;
    assert(after.rectangles.drop_last() =~= d.spread.rectangles);
    assert(after.frames_in_order.drop_last() =~= d.spread.frames_in_order);
}

/// The runs with text.
pub open spec fn written_runs(runs: Seq<RunIrView>) -> Seq<RunIrView> {
    runs.filter(|r: RunIrView| r.text.len() > 0)
}

/// Whether the paragraph has a run with text.
pub open spec fn is_written(p: ParagraphIrView) -> bool {
    exists|i: int| 0 <= i < p.runs.len() && (#[trigger] p.runs[i]).text.len() > 0
}

/// The paragraphs with text.
pub open spec fn written_paragraphs(paragraphs: Seq<ParagraphIrView>) -> Seq<ParagraphIrView> {
    paragraphs.filter(|p: ParagraphIrView| is_written(p))
}

/// The outlines that have two points or more.
pub open spec fn lines(subpaths: Seq<SubpathIrView>) -> Seq<SubpathIrView> {
    subpaths.filter(|s: SubpathIrView| s.points.len() >= 2)
}

/// Whether the palette has, under the identifier, the swatch of a colour; there is
/// no identifier where there is no colour.
pub open spec fn is_painted(
    palette: GraphicView,
    id: Option<Seq<char>>,
    color: Option<Rgb>,
) -> bool {
    match color {
        None => id is None,
        Some(c) => {
            &&& id is Some
            &&& palette.colors.dom().contains(id->0)
            &&& palette.colors[id->0].self_id == id->0
            &&& palette.colors[id->0].space == ColorSpace::Rgb
            &&& palette.colors[id->0].value.len() == 3
            &&& palette.colors[id->0].value[0] == whole(channel(c.red) as nat)
            &&& palette.colors[id->0].value[1] == whole(channel(c.green) as nat)
            &&& palette.colors[id->0].value[2] == whole(channel(c.blue) as nat)
        },
    }
}

/// Whether a run says what a run of the reading does, in its font, its size, its
/// weight and slant, and its colour.
pub open spec fn says_the_run(
    palette: GraphicView,
    run: CharacterRunView,
    given: RunIrView,
) -> bool {
    &&& run.text == given.text
    &&& run.font == given.font_family
    &&& run.point_size == Some(given.font_size_pt)
    &&& given.bold && given.italic ==> run.font_style == Some("Bold Italic"@)
    &&& given.bold && !given.italic ==> run.font_style == Some("Bold"@)
    &&& !given.bold && given.italic ==> run.font_style == Some("Italic"@)
    &&& !given.bold && !given.italic ==> run.font_style is None
    &&& is_painted(palette, run.fill_color, given.color_rgb)
}

/// Whether the runs say what the runs of the reading with text do, in order.
pub open spec fn say_the_runs(
    palette: GraphicView,
    runs: Seq<CharacterRunView>,
    given: Seq<RunIrView>,
) -> bool {
    &&& runs.len() == written_runs(given).len()
    &&& forall|i: int|
        0 <= i < runs.len() ==> says_the_run(palette, #[trigger] runs[i], written_runs(given)[i])
}

/// Whether the paragraphs say what the paragraphs of the reading with text do, in
/// order.
pub open spec fn say_the_text(
    palette: GraphicView,
    paragraphs: Seq<ParagraphView>,
    given: Seq<ParagraphIrView>,
) -> bool {
    &&& paragraphs.len() == written_paragraphs(given).len()
    &&& forall|i: int|
        0 <= i < paragraphs.len() ==> say_the_runs(
            palette,
            (#[trigger] paragraphs[i]).runs,
            written_paragraphs(given)[i].runs,
        )
}

/// How many points the outlines before the one at `i` have.
pub open spec fn points_before(subs: Seq<SubpathIrView>, i: nat) -> nat
    decreases i,
{
    if i == 0 {
        0
    } else {
        points_before(subs, (i - 1) as nat) + subs[i - 1].points.len()
    }
}

/// Whether a shape has every point of the outlines, in order and with no curve,
/// and says where each starts and whether it is open. A single outline does not
/// say where it starts; a single closed one does not say that it is closed.
pub open spec fn has_the_outlines(p: PolygonView, subs: Seq<SubpathIrView>) -> bool {
    &&& p.anchors.len() == points_before(subs, subs.len())
    &&& forall|i: int, j: int|
        0 <= i < subs.len() && 0 <= j < subs[i].points.len() ==> {
            let x = (#[trigger] subs[i].points[j]).x_pt;
            let y = subs[i].points[j].y_pt;
            let a = p.anchors[points_before(subs, i as nat) + j];
            a.anchor == (x, y) && a.left == (x, y) && a.right == (x, y)
        }
    &&& if subs.len() == 1 {
        p.subpath_starts.len() == 0
    } else {
        p.subpath_starts.len() == subs.len() && forall|i: int|
            0 <= i < subs.len() ==> #[trigger] p.subpath_starts[i] == points_before(
                subs,
                i as nat,
            ) as usize
    }
    &&& if subs.len() == 1 && subs[0].closed {
        p.subpath_open.len() == 0
    } else {
        p.subpath_open.len() == subs.len() && forall|i: int|
            0 <= i < subs.len() ==> #[trigger] p.subpath_open[i] == !subs[i].closed
    }
}

/// Whether a box holds all anchors whose coordinates are numbers.
pub open spec fn holds_all(b: Bounds, anchors: Seq<PathAnchor>) -> bool {
    forall|i: int|
        0 <= i < anchors.len() && !is_nan((#[trigger] anchors[i]).anchor.0) && !is_nan(
            anchors[i].anchor.1,
        ) && is_finite(anchors[i].anchor.0) && is_finite(anchors[i].anchor.1) ==> holds(
            b,
            anchors[i].anchor,
        )
}

/// Whether each side of a box runs through one of the anchors.
pub open spec fn is_tight(b: Bounds, anchors: Seq<PathAnchor>) -> bool {
    &&& exists|i: int| 0 <= i < anchors.len() && b.left == (#[trigger] anchors[i]).anchor.0
    &&& exists|i: int| 0 <= i < anchors.len() && b.right == (#[trigger] anchors[i]).anchor.0
    &&& exists|i: int| 0 <= i < anchors.len() && b.top == (#[trigger] anchors[i]).anchor.1
    &&& exists|i: int| 0 <= i < anchors.len() && b.bottom == (#[trigger] anchors[i]).anchor.1
}

/// Whether a shape is the one that the reading describes.
pub open spec fn is_the_shape(palette: GraphicView, p: PolygonView, v: VectorIrView) -> bool {
    &&& has_the_outlines(p, lines(v.subpaths))
    &&& holds_all(p.bounds, p.anchors)
    &&& is_painted(palette, p.fill_color, v.fill_rgb)
    &&& is_painted(palette, p.stroke_color, v.stroke_rgb)
    &&& p.stroke_weight == v.stroke_width_pt
}

/// Whether a text has a paragraph with text.
pub open spec fn has_text(tf: TextFrameIrView) -> bool {
    exists|i: int| 0 <= i < tf.paragraphs.len() && is_written(#[trigger] tf.paragraphs[i])
}

/// Whether a shape has an outline with two points or more.
pub open spec fn has_line(v: VectorIrView) -> bool {
    exists|i: int| 0 <= i < v.subpaths.len() && (#[trigger] v.subpaths[i]).points.len() >= 2
}

/// Whether something of a frame can be seen.
pub open spec fn is_seen(frame: FrameIrView) -> bool {
    match frame {
        FrameIrView::Image(_) => true,
        FrameIrView::Text(tf) => has_text(tf),
        FrameIrView::Vector(v) => has_line(v),
    }
}

/// Whether a reference leads to the item that shows a frame of the reading.
pub open spec fn shows(
    spread: SpreadView,
    stories: Seq<ParsedStoryView>,
    palette: GraphicView,
    r: FrameRef,
    frame: FrameIrView,
) -> bool {
    match frame {
        FrameIrView::Image(img) => r matches FrameRef::Rectangle(i) && i < spread.rectangles.len()
            && has_size(spread.rectangles[i as int].bounds, img.rect) && (
        spread.rectangles[i as int].image_bytes matches Some(image) && png_of(img.png_b64) == Some(
            image,
        )),
        FrameIrView::Text(tf) => r matches FrameRef::TextFrame(i) && i < spread.text_frames.len()
            && has_size(spread.text_frames[i as int].bounds, tf.rect) && exists|k: int|
            0 <= k < stories.len() && spread.text_frames[i as int].parent_story == Some(
                (#[trigger] stories[k]).self_id,
            ) && say_the_text(palette, stories[k].story.paragraphs, tf.paragraphs),
        FrameIrView::Vector(v) => r matches FrameRef::Polygon(i) && i < spread.polygons.len()
            && is_the_shape(palette, spread.polygons[i as int], v),
    }
}

/// The frames of which something can be seen.
pub open spec fn seen(frames: Seq<FrameIrView>) -> Seq<FrameIrView> {
    frames.filter(|f: FrameIrView| is_seen(f))
}

proof fn lemma_255()
    ensures
        is_finite(whole(255)),
        units(whole(255)) == 255 * pow2(149),
        units(one()) == pow2(149),
{
    let r = Num { bits: 0x437f_0000 };
    lemma_pow2_adds(16, 133);
    lemma_pow2_adds(23, 126);
    lemma2_to64();
    assert(size_bits(r) / 0x80_0000 == 134 && size_bits(r) % 0x80_0000 == 0x7f_0000);
    assert(size_bits(one()) / 0x80_0000 == 127 && size_bits(one()) % 0x80_0000 == 0);
    let p = pow2(133);
    let q = pow2(126);
    assert(magnitude(size_bits(r)) == 0xff_0000 * p);
    assert(0xff_0000 * p == 255 * (0x1_0000 * p)) by (nonlinear_arith);
    assert(magnitude(size_bits(one())) == 0x80_0000 * q);
    law_whole_is_exact(255, r);
}

/// A channel of a colour that is stated from zero to one is the whole number from
/// 0 to 255 that is nearest to 255 times what is stated, where that is a number; a
/// half goes up.
pub proof fn law_channel_is_nearest(v: Num, r: Num)
    requires
        is_finite(v),
        is_finite(r),
        0 <= units(v) <= units(one()),
        units(r) == 255 * units(v),
    ensures
        -pow2(149) < 2 * (channel(v) * pow2(149) - 255 * units(v)) <= pow2(149),
{
    lemma_255();
    lemma_pow2_pos(149);
    law_clamped_is_from_zero_to_one(v);
    let u = pow2(149) as int;
    let x = units(v);
    assert((255 * x) * u == x * (255 * u)) by (nonlinear_arith);
    law_product_is_exact(v, whole(255), r);
    let p = product(v, whole(255));
    assert(units(p) == 255 * x) by (nonlinear_arith)
        requires
            units(p) * u == x * (255 * u),
            u > 0,
    ;
    law_byte_is_nearest(p);
}

/// A channel that is stated below zero is 0, one that is stated above one is 255.
pub proof fn law_channel_is_bounded(v: Num)
    requires
        is_finite(v),
    ensures
        units(v) < 0 ==> channel(v) == 0,
        units(one()) < units(v) ==> channel(v) == 255,
{
    lemma_255();
    lemma_pow2_pos(149);
    law_clamped_is_from_zero_to_one(v);
    let u = pow2(149) as int;
    if units(v) < 0 {
        law_order_is_by_value(v, zero());
        assert(clamped(v) == zero());
        law_channel_is_nearest(zero(), zero());
        assert(channel(v) == channel(zero()));
        assert(channel(v) == 0) by (nonlinear_arith)
            requires
                2 * (channel(v) * u) <= u,
                u > 0,
        ;
    }
    if units(one()) < units(v) {
        assert(clamped(one()) == one()) by {
            law_clamped_is_from_zero_to_one(one());
        }
        law_channel_is_nearest(one(), whole(255));
        assert(channel(v) == channel(one()));
        assert(channel(v) >= 255) by (nonlinear_arith)
            requires
                -u < 2 * (channel(v) * u - 255 * u),
                u > 0,
        ;
    }
}

/// Whether a palette has the swatches that another has.
spec fn keeps_colours(before: GraphicView, after: GraphicView) -> bool {
    forall|c: Rgb|
        is_painted(before, Some(#[trigger] color_name(c)), Some(c)) ==> is_painted(
            after,
            Some(color_name(c)),
            Some(c),
        )
}

proof fn lemma_colour(palette: GraphicView, color: Option<Rgb>)
    ensures
        keeps_colours(palette, with_color(palette, color)),
        is_painted(with_color(palette, color), color_ref(color), color),
{
    if let Some(d) = color {
        let after = with_color(palette, color);
        assert forall|c: Rgb|
            is_painted(palette, Some(#[trigger] color_name(c)), Some(c)) implies is_painted(
            after,
            Some(color_name(c)),
            Some(c),
        ) by {
            law_colours_share_swatches(c, d);
        }
    }
}

proof fn lemma_paint_stays(before: GraphicView, after: GraphicView, color: Option<Rgb>)
    requires
        keeps_colours(before, after),
        is_painted(before, color_ref(color), color),
    ensures
        is_painted(after, color_ref(color), color),
{
    if let Some(c) = color {
        assert(is_painted(before, Some(color_name(c)), Some(c)));
    }
}

/// What every run that is made says of its colour.
spec fn are_named(runs: Seq<CharacterRunView>, given: Seq<RunIrView>) -> bool {
    &&& runs.len() == written_runs(given).len()
    &&& forall|i: int|
        0 <= i < runs.len() ==> (#[trigger] runs[i]).fill_color == color_ref(
            written_runs(given)[i].color_rgb,
        )
}

proof fn lemma_runs(palette: GraphicView, given: Seq<RunIrView>)
    ensures
        say_the_runs(with_run_colors(palette, given), runs_from(given), given),
        are_named(runs_from(given), given),
        keeps_colours(palette, with_run_colors(palette, given)),
        written_runs(given).len() > 0 <==> is_written(ParagraphIrView { runs: given }),
    decreases given.len(),
{
    reveal(Seq::filter);
    let p = ParagraphIrView { runs: given };
    if given.len() > 0 {
        let front = given.drop_last();
        let before = with_run_colors(palette, front);
        let after = with_run_colors(palette, given);
        lemma_runs(palette, front);
        let q = ParagraphIrView { runs: front };
        if is_written(q) {
            let i = choose|i: int| 0 <= i < front.len() && (#[trigger] q.runs[i]).text.len() > 0;
            assert(p.runs[i] == q.runs[i]);
        }
        if is_written(p) {
            let i = choose|i: int| 0 <= i < given.len() && (#[trigger] p.runs[i]).text.len() > 0;
            if i < front.len() {
                assert(q.runs[i] == p.runs[i]);
            }
        }
        if given.last().text.len() > 0 {
            assert(p.runs[given.len() - 1].text.len() > 0);
            lemma_colour(before, given.last().color_rgb);
            let runs = runs_from(given);
            let kept = written_runs(given);
            assert forall|i: int| 0 <= i < runs.len() implies says_the_run(
                after,
                #[trigger] runs[i],
                kept[i],
            ) by {
                if i < runs.len() - 1 {
                    assert(runs[i] == runs_from(front)[i] && kept[i] == written_runs(front)[i]);
                    assert(says_the_run(before, runs_from(front)[i], written_runs(front)[i]));
                    lemma_paint_stays(before, after, kept[i].color_rgb);
                } else {
                    assert(runs[i] == run_from(given.last()) && kept[i] == given.last());
                }
            }
            assert forall|i: int| 0 <= i < runs.len() implies (#[trigger] runs[i]).fill_color
                == color_ref(kept[i].color_rgb) by {
                if i < runs.len() - 1 {
                    assert(runs[i] == runs_from(front)[i] && kept[i] == written_runs(front)[i]);
                }
            }
        }
    }
}

proof fn lemma_runs_stay(
    before: GraphicView,
    after: GraphicView,
    runs: Seq<CharacterRunView>,
    given: Seq<RunIrView>,
)
    requires
        keeps_colours(before, after),
        say_the_runs(before, runs, given),
        are_named(runs, given),
    ensures
        say_the_runs(after, runs, given),
{
    assert forall|i: int| 0 <= i < runs.len() implies says_the_run(
        after,
        #[trigger] runs[i],
        written_runs(given)[i],
    ) by {
        assert(says_the_run(before, runs[i], written_runs(given)[i]));
        lemma_paint_stays(before, after, written_runs(given)[i].color_rgb);
    }
}

/// What every text that is made says of its colours.
spec fn are_all_named(paragraphs: Seq<ParagraphView>, given: Seq<ParagraphIrView>) -> bool {
    &&& paragraphs.len() == written_paragraphs(given).len()
    &&& forall|i: int|
        0 <= i < paragraphs.len() ==> are_named(
            (#[trigger] paragraphs[i]).runs,
            written_paragraphs(given)[i].runs,
        )
}

proof fn lemma_text_stays(
    before: GraphicView,
    after: GraphicView,
    paragraphs: Seq<ParagraphView>,
    given: Seq<ParagraphIrView>,
)
    requires
        keeps_colours(before, after),
        say_the_text(before, paragraphs, given),
        are_all_named(paragraphs, given),
    ensures
        say_the_text(after, paragraphs, given),
{
    assert forall|i: int| 0 <= i < paragraphs.len() implies say_the_runs(
        after,
        (#[trigger] paragraphs[i]).runs,
        written_paragraphs(given)[i].runs,
    ) by {
        assert(say_the_runs(before, paragraphs[i].runs, written_paragraphs(given)[i].runs));
        assert(are_named(paragraphs[i].runs, written_paragraphs(given)[i].runs));
        lemma_runs_stay(before, after, paragraphs[i].runs, written_paragraphs(given)[i].runs);
    }
}

proof fn lemma_text(palette: GraphicView, given: Seq<ParagraphIrView>)
    ensures
        say_the_text(with_text_colors(palette, given), paragraphs_from(given), given),
        are_all_named(paragraphs_from(given), given),
        keeps_colours(palette, with_text_colors(palette, given)),
        paragraphs_from(given).len() > 0 <==> exists|i: int|
            0 <= i < given.len() && is_written(#[trigger] given[i]),
    decreases given.len(),
{
    reveal(Seq::filter);
    if given.len() > 0 {
        let front = given.drop_last();
        let before = with_text_colors(palette, front);
        let after = with_text_colors(palette, given);
        let last = given.last();
        lemma_text(palette, front);
        lemma_runs(before, last.runs);
        assert(last == ParagraphIrView { runs: last.runs });
        let old_text = paragraphs_from(front);
        let text = paragraphs_from(given);
        let kept = written_paragraphs(given);
        let old_kept = written_paragraphs(front);
        lemma_text_stays(before, after, old_text, front);
        if exists|i: int| 0 <= i < front.len() && is_written(#[trigger] front[i]) {
            let i = choose|i: int| 0 <= i < front.len() && is_written(#[trigger] front[i]);
            assert(given[i] == front[i]);
        }
        if exists|i: int| 0 <= i < given.len() && is_written(#[trigger] given[i]) {
            let i = choose|i: int| 0 <= i < given.len() && is_written(#[trigger] given[i]);
            if i < front.len() {
                assert(front[i] == given[i]);
            }
        }
        if is_written(last) {
            assert(is_written(given[given.len() - 1]));
            assert(text == old_text.push(paragraph_from(last)));
            assert(kept == old_kept.push(last));
            assert forall|i: int| 0 <= i < text.len() implies say_the_runs(
                after,
                (#[trigger] text[i]).runs,
                kept[i].runs,
            ) by {
                if i < old_text.len() {
                    assert(text[i] == old_text[i] && kept[i] == old_kept[i]);
                    assert(say_the_runs(after, old_text[i].runs, old_kept[i].runs));
                }
            }
            assert forall|i: int| 0 <= i < text.len() implies are_named(
                (#[trigger] text[i]).runs,
                kept[i].runs,
            ) by {
                if i < old_text.len() {
                    assert(text[i] == old_text[i] && kept[i] == old_kept[i]);
                    assert(are_named(old_text[i].runs, old_kept[i].runs));
                }
            }
        }
    }
}

/// What is written in a text of the reading is what the story that it becomes
/// says: all paragraphs and runs with text, in order, with the look that they have.
pub proof fn law_story_says_the_text(d: DraftView, tf: TextFrameIrView)
    ensures
        ({
            let after = with_text(d, tf);
            if is_seen(FrameIrView::Text(tf)) {
                &&& after.stories.len() == d.stories.len() + 1
                &&& after.stories.drop_last() == d.stories
                &&& say_the_text(
                    after.palette,
                    after.stories.last().story.paragraphs,
                    tf.paragraphs,
                )
                &&& after.spread.text_frames.len() == d.spread.text_frames.len() + 1
                &&& after.spread.text_frames.drop_last() == d.spread.text_frames
                &&& after.spread.text_frames.last().parent_story == Some(
                    after.stories.last().self_id,
                )
                &&& has_size(after.spread.text_frames.last().bounds, tf.rect)
            } else {
                after.stories == d.stories && after.spread == d.spread
            }
        }),
{
    lemma_text(d.palette, tf.paragraphs);
    let after = with_text(d, tf);
    let rect = tf.rect;
    assert(has_text(tf) == (story_from(tf).paragraphs.len() > 0));
    if adds_up(rect.x_pt, rect.width_pt) {
        lemma_adds_up(rect.x_pt, rect.width_pt);
    }
    if adds_up(rect.y_pt, rect.height_pt) {
        lemma_adds_up(rect.y_pt, rect.height_pt);
    }
    if is_seen(FrameIrView::Text(tf)) {
        assert(after.stories.drop_last() =~= d.stories);
        assert(after.spread.text_frames.drop_last() =~= d.spread.text_frames);
    }
}

proof fn lemma_points(subs: Seq<SubpathIrView>, n: nat, i: int, j: int)
    requires
        n <= subs.len(),
        0 <= i < n,
        0 <= j < subs[i].points.len(),
    ensures
        points_before(subs, i as nat) + j < points_before(subs, n),
    decreases n,
{
    if i < n - 1 {
        lemma_points(subs, (n - 1) as nat, i, j);
    }
}

proof fn lemma_same_points(a: Seq<SubpathIrView>, b: Seq<SubpathIrView>, n: nat)
    requires
        n <= a.len(),
        n <= b.len(),
        a.take(n as int) == b.take(n as int),
    ensures
        points_before(a, n) == points_before(b, n),
    decreases n,
{
    if n > 0 {
        assert(a[n - 1] == a.take(n as int)[n - 1]);
        assert(b[n - 1] == b.take(n as int)[n - 1]);
        assert(a.take(n - 1) =~= a.take(n as int).take(n - 1));
        assert(b.take(n - 1) =~= b.take(n as int).take(n - 1));
        lemma_same_points(a, b, (n - 1) as nat);
    }
}

proof fn lemma_anchors(subs: Seq<SubpathIrView>)
    ensures
        shape_anchors(subs).len() == points_before(subs, subs.len()),
        forall|i: int, j: int|
            0 <= i < subs.len() && 0 <= j < subs[i].points.len() ==> {
                let x = (#[trigger] subs[i].points[j]).x_pt;
                let y = subs[i].points[j].y_pt;
                let a = shape_anchors(subs)[points_before(subs, i as nat) + j];
                a.anchor == (x, y) && a.left == (x, y) && a.right == (x, y)
            },
        shape_starts(subs).len() == subs.len(),
        forall|i: int|
            0 <= i < subs.len() ==> #[trigger] shape_starts(subs)[i] == points_before(
                subs,
                i as nat,
            ) as usize,
    decreases subs.len(),
{
    if subs.len() > 0 {
        let front = subs.drop_last();
        let n = front.len();
        lemma_anchors(front);
        assert forall|m: nat| m <= n implies #[trigger] points_before(front, m) == points_before(
            subs,
            m,
        ) by {
            assert(front.take(m as int) =~= subs.take(m as int));
            lemma_same_points(front, subs, m);
        }
        let old_anchors = shape_anchors(front);
        let anchors = shape_anchors(subs);
        assert(old_anchors.len() == points_before(subs, n));
        assert forall|i: int, j: int| 0 <= i < subs.len() && 0 <= j < subs[i].points.len() implies {
            let x = (#[trigger] subs[i].points[j]).x_pt;
            let y = subs[i].points[j].y_pt;
            let a = anchors[points_before(subs, i as nat) + j];
            a.anchor == (x, y) && a.left == (x, y) && a.right == (x, y)
        } by {
            if i < n {
                assert(front[i].points[j] == subs[i].points[j]);
                lemma_points(front, n, i, j);
                assert(points_before(front, i as nat) == points_before(subs, i as nat));
                assert(points_before(front, n) == points_before(subs, n));
            } else {
                let more = subs.last().points.map_values(
                    |p: PointIr| crate::assembly::corner_at(p),
                );
                assert(anchors == old_anchors + more);
                assert(anchors[old_anchors.len() + j] == more[j]);
            }
        }
        assert forall|i: int| 0 <= i < subs.len() implies #[trigger] shape_starts(subs)[i]
            == points_before(subs, i as nat) as usize by {
            if i < n {
                assert(shape_starts(subs)[i] == shape_starts(front)[i]);
                assert(points_before(front, i as nat) == points_before(subs, i as nat));
            }
        }
    }
}

proof fn lemma_lines(subpaths: Seq<SubpathIrView>)
    ensures
        drawable(subpaths) == lines(subpaths),
        lines(subpaths).len() > 0 <==> exists|i: int|
            0 <= i < subpaths.len() && (#[trigger] subpaths[i]).points.len() >= 2,
    decreases subpaths.len(),
{
    reveal(Seq::filter);
    if subpaths.len() > 0 {
        let front = subpaths.drop_last();
        lemma_lines(front);
        if exists|i: int| 0 <= i < front.len() && (#[trigger] front[i]).points.len() >= 2 {
            let i = choose|i: int| 0 <= i < front.len() && (#[trigger] front[i]).points.len() >= 2;
            assert(subpaths[i] == front[i]);
        }
        if exists|i: int| 0 <= i < subpaths.len() && (#[trigger] subpaths[i]).points.len() >= 2 {
            let i = choose|i: int|
                0 <= i < subpaths.len() && (#[trigger] subpaths[i]).points.len() >= 2;
            if i < front.len() {
                assert(front[i] == subpaths[i]);
            }
        }
        if subpaths.last().points.len() >= 2 {
            assert(subpaths[subpaths.len() - 1].points.len() >= 2);
        }
    } else {
        assert(drawable(subpaths) =~= lines(subpaths));
    }
}

proof fn lemma_box_is_number(anchors: Seq<PathAnchor>)
    ensures
        ({
            let b = grown_box(inside_out(), anchors);
            !is_nan(b.top) && !is_nan(b.left) && !is_nan(b.bottom) && !is_nan(b.right)
        }),
    decreases anchors.len(),
{
    if anchors.len() > 0 {
        lemma_box_is_number(anchors.drop_last());
    }
}

proof fn lemma_box_holds(anchors: Seq<PathAnchor>)
    ensures
        holds_all(grown_box(inside_out(), anchors), anchors),
    decreases anchors.len(),
{
    if anchors.len() > 0 {
        let front = anchors.drop_last();
        let before = grown_box(inside_out(), front);
        let after = grown_box(inside_out(), anchors);
        lemma_box_holds(front);
        lemma_box_is_number(front);
        lemma_box_is_number(anchors);
        assert forall|i: int|
            0 <= i < anchors.len() && !is_nan((#[trigger] anchors[i]).anchor.0) && !is_nan(
                anchors[i].anchor.1,
            ) && is_finite(anchors[i].anchor.0) && is_finite(anchors[i].anchor.1) implies holds(
            after,
            anchors[i].anchor,
        ) by {
            if i < front.len() {
                assert(front[i] == anchors[i]);
                assert(holds(before, front[i].anchor));
            }
        }
    }
}

/// The box of a shape whose points are all numbers is the smallest round them: it
/// holds every point, and each of its sides runs through one.
pub proof fn law_box_is_tight(anchors: Seq<PathAnchor>)
    requires
        anchors.len() > 0,
        forall|i: int|
            0 <= i < anchors.len() ==> is_finite((#[trigger] anchors[i]).anchor.0) && is_finite(
                anchors[i].anchor.1,
            ),
    ensures
        holds_all(grown_box(inside_out(), anchors), anchors),
        is_tight(grown_box(inside_out(), anchors), anchors),
    decreases anchors.len(),
{
    lemma_box_holds(anchors);
    let front = anchors.drop_last();
    let b = grown_box(inside_out(), anchors);
    let last = anchors.len() - 1;
    assert(is_finite(anchors[last].anchor.0) && is_finite(anchors[last].anchor.1));
    if front.len() > 0 {
        assert forall|i: int| 0 <= i < front.len() implies is_finite(
            (#[trigger] front[i]).anchor.0,
        ) && is_finite(front[i].anchor.1) by {
            assert(front[i] == anchors[i]);
        }
        law_box_is_tight(front);
        let a = grown_box(inside_out(), front);
        let l = choose|i: int| 0 <= i < front.len() && a.left == (#[trigger] front[i]).anchor.0;
        let r = choose|i: int| 0 <= i < front.len() && a.right == (#[trigger] front[i]).anchor.0;
        let t = choose|i: int| 0 <= i < front.len() && a.top == (#[trigger] front[i]).anchor.1;
        let m = choose|i: int| 0 <= i < front.len() && a.bottom == (#[trigger] front[i]).anchor.1;
        assert(front[l] == anchors[l] && front[r] == anchors[r]);
        assert(front[t] == anchors[t] && front[m] == anchors[m]);
    } else {
        assert(grown_box(inside_out(), front) == inside_out());
        lemma_outermost(anchors[last].anchor.0);
        lemma_outermost(anchors[last].anchor.1);
    }
}

/// Only the number that an empty box starts from is not beyond it.
proof fn lemma_outermost(a: Num)
    requires
        is_finite(a),
    ensures
        crate::number::lesser(inside_out().left, a) == a,
        crate::number::greater(inside_out().right, a) == a,
{
}

/// A shape of the reading becomes a polygon with every point of its outlines, in
/// order, in a box that holds them, filled and stroked as it is.
pub proof fn law_shape_keeps_its_outlines(d: DraftView, v: VectorIrView)
    ensures
        ({
            let after = with_vector(d, v);
            if is_seen(FrameIrView::Vector(v)) {
                &&& after.spread.polygons.len() == d.spread.polygons.len() + 1
                &&& after.spread.polygons.drop_last() == d.spread.polygons
                &&& is_the_shape(after.palette, after.spread.polygons.last(), v)
            } else {
                after == d
            }
        }),
{
    lemma_lines(v.subpaths);
    let subs = lines(v.subpaths);
    lemma_anchors(subs);
    lemma_box_holds(shape_anchors(subs));
    lemma_colour(d.palette, v.fill_rgb);
    let filled = with_color(d.palette, v.fill_rgb);
    lemma_colour(filled, v.stroke_rgb);
    lemma_paint_stays(filled, with_color(filled, v.stroke_rgb), v.fill_rgb);
    let after = with_vector(d, v);
    assert(has_line(v) == (drawable(v.subpaths).len() > 0));
    if subs.len() > 0 {
        assert(after.spread.polygons.drop_last() =~= d.spread.polygons);
        let p = after.spread.polygons.last();
        assert(p == polygon_from(p.self_id->0, subs, v));
        assert(has_the_outlines(p, subs));
    }
}

/// Whether a reference leads to the item that was made of a frame, with its
/// colours under the names that they are given.
spec fn is_made(
    spread: SpreadView,
    stories: Seq<ParsedStoryView>,
    palette: GraphicView,
    r: FrameRef,
    frame: FrameIrView,
) -> bool {
    &&& shows(spread, stories, palette, r, frame)
    &&& match frame {
        FrameIrView::Image(_) => true,
        FrameIrView::Text(tf) => exists|k: int|
            0 <= k < stories.len() && spread.text_frames[r->TextFrame_0 as int].parent_story
                == Some((#[trigger] stories[k]).self_id) && say_the_text(
                palette,
                stories[k].story.paragraphs,
                tf.paragraphs,
            ) && are_all_named(stories[k].story.paragraphs, tf.paragraphs),
        FrameIrView::Vector(v) => spread.polygons[r->Polygon_0 as int].fill_color == color_ref(
            v.fill_rgb,
        ) && spread.polygons[r->Polygon_0 as int].stroke_color == color_ref(v.stroke_rgb),
    }
}

/// Whether a spread has all that another has.
spec fn spread_grows(before: SpreadView, after: SpreadView) -> bool {
    &&& before.rectangles.is_prefix_of(after.rectangles)
    &&& before.text_frames.is_prefix_of(after.text_frames)
    &&& before.polygons.is_prefix_of(after.polygons)
}

proof fn lemma_made_stays(
    before: DraftView,
    after: DraftView,
    r: FrameRef,
    frame: FrameIrView,
)
    requires
        spread_grows(before.spread, after.spread),
        before.stories.is_prefix_of(after.stories),
        keeps_colours(before.palette, after.palette),
        is_made(before.spread, before.stories, before.palette, r, frame),
    ensures
        is_made(after.spread, after.stories, after.palette, r, frame),
{
    match frame {
        FrameIrView::Image(_) => {
            let i = r->Rectangle_0 as int;
            assert(after.spread.rectangles[i] == before.spread.rectangles[i]);
        },
        FrameIrView::Text(tf) => {
            let i = r->TextFrame_0 as int;
            assert(after.spread.text_frames[i] == before.spread.text_frames[i]);
            let k = choose|k: int|
                0 <= k < before.stories.len() && before.spread.text_frames[i].parent_story == Some(
                    (#[trigger] before.stories[k]).self_id,
                ) && say_the_text(
                    before.palette,
                    before.stories[k].story.paragraphs,
                    tf.paragraphs,
                ) && are_all_named(before.stories[k].story.paragraphs, tf.paragraphs);
            assert(after.stories[k] == before.stories[k]);
            lemma_text_stays(
                before.palette,
                after.palette,
                before.stories[k].story.paragraphs,
                tf.paragraphs,
            );
        },
        FrameIrView::Vector(v) => {
            let i = r->Polygon_0 as int;
            assert(after.spread.polygons[i] == before.spread.polygons[i]);
            lemma_paint_stays(before.palette, after.palette, v.fill_rgb);
            lemma_paint_stays(before.palette, after.palette, v.stroke_rgb);
        },
    }
}

/// Whether the places of the items can be told.
spec fn fits(d: DraftView) -> bool {
    d.spread.rectangles.len() + d.spread.text_frames.len() + d.spread.polygons.len() <= d.n
}

/// How a draft goes on with a frame.
spec fn goes_on(d: DraftView, after: DraftView, frame: FrameIrView) -> bool {
    &&& spread_grows(d.spread, after.spread)
    &&& d.stories.is_prefix_of(after.stories)
    &&& keeps_colours(d.palette, after.palette)
    &&& after.spread.pages == d.spread.pages
    &&& fits(after)
    &&& if is_seen(frame) {
        &&& after.spread.frames_in_order.len() == d.spread.frames_in_order.len() + 1
        &&& after.spread.frames_in_order.drop_last() == d.spread.frames_in_order
        &&& is_made(
            after.spread,
            after.stories,
            after.palette,
            after.spread.frames_in_order.last(),
            frame,
        )
    } else {
        after.spread.frames_in_order == d.spread.frames_in_order
    }
}

proof fn lemma_text_goes_on(d: DraftView, tf: TextFrameIrView)
    requires
        fits(d),
        d.n <= u32::MAX,
    ensures
        goes_on(d, with_text(d, tf), FrameIrView::Text(tf)),
{
    let frame = FrameIrView::Text(tf);
    let after = with_text(d, tf);
    law_story_says_the_text(d, tf);
    lemma_text(d.palette, tf.paragraphs);
    assert(has_text(tf) == (story_from(tf).paragraphs.len() > 0));
    if has_text(tf) {
        let k = d.stories.len() as int;
        assert(after.stories[k] == after.stories.last());
        assert(after.spread.frames_in_order.drop_last() =~= d.spread.frames_in_order);
        let r = after.spread.frames_in_order.last();
        assert(r == FrameRef::TextFrame(d.spread.text_frames.len() as usize));
        assert(after.spread.text_frames[r->TextFrame_0 as int] == after.spread.text_frames.last());
        assert(is_made(after.spread, after.stories, after.palette, r, frame));
    }
}

proof fn lemma_shape_goes_on(d: DraftView, v: VectorIrView)
    requires
        fits(d),
        d.n <= u32::MAX,
    ensures
        goes_on(d, with_vector(d, v), FrameIrView::Vector(v)),
{
    let frame = FrameIrView::Vector(v);
    let after = with_vector(d, v);
    law_shape_keeps_its_outlines(d, v);
    lemma_lines(v.subpaths);
    lemma_colour(d.palette, v.fill_rgb);
    let filled = with_color(d.palette, v.fill_rgb);
    lemma_colour(filled, v.stroke_rgb);
    assert(has_line(v) == (drawable(v.subpaths).len() > 0));
    if has_line(v) {
        assert(after.palette == with_color(filled, v.stroke_rgb));
        assert(after.spread.frames_in_order.drop_last() =~= d.spread.frames_in_order);
        let r = after.spread.frames_in_order.last();
        assert(r == FrameRef::Polygon(d.spread.polygons.len() as usize));
        assert(after.spread.polygons[r->Polygon_0 as int] == after.spread.polygons.last());
        assert(is_made(after.spread, after.stories, after.palette, r, frame));
    }
}

proof fn lemma_image_goes_on(d: DraftView, rect: RectIr, png_b64: Seq<char>, image: Seq<u8>)
    requires
        fits(d),
        d.n <= u32::MAX,
        png_of(png_b64) == Some(image),
    ensures
        goes_on(
            d,
            with_image(d, rect, image),
            FrameIrView::Image(ImageFrameIrView { rect, png_b64 }),
        ),
{
    let frame = FrameIrView::Image(ImageFrameIrView { rect, png_b64 });
    let after = with_image(d, rect, image);
    law_image_has_its_size(d, rect, image);
    let r = after.spread.frames_in_order.last();
    assert(r == FrameRef::Rectangle(d.spread.rectangles.len() as usize));
    assert(after.spread.rectangles[r->Rectangle_0 as int] == after.spread.rectangles.last());
    assert(is_made(after.spread, after.stories, after.palette, r, frame));
}

proof fn lemma_goes_on(d: DraftView, frame: FrameIrView)
    requires
        fits(d),
        d.n <= u32::MAX,
    ensures
        with_frame(d, frame) matches Some(after) ==> goes_on(d, after, frame),
{
    reveal(with_frame);
    match frame {
        FrameIrView::Image(img) => {
            if let Some(image) = png_of(img.png_b64) {
                lemma_image_goes_on(d, img.rect, img.png_b64, image);
                assert(img == ImageFrameIrView { rect: img.rect, png_b64: img.png_b64 });
            }
        },
        FrameIrView::Text(tf) => {
            lemma_text_goes_on(d, tf);
        },
        FrameIrView::Vector(v) => {
            lemma_shape_goes_on(d, v);
        },
    }
}

/// Whether the items of a draft from the place `b` on are those that were made of
/// the frames that can be seen, in order.
spec fn has_made(d: DraftView, b: nat, frames: Seq<FrameIrView>) -> bool {
    &&& d.spread.frames_in_order.len() == b + seen(frames).len()
    &&& forall|j: int|
        0 <= j < seen(frames).len() ==> is_made(
            d.spread,
            d.stories,
            d.palette,
            d.spread.frames_in_order[b + j],
            #[trigger] seen(frames)[j],
        )
}

proof fn lemma_has_made(d: DraftView, frames: Seq<FrameIrView>, k: nat)
    requires
        fits(d),
        k <= frames.len(),
        d.n + frames_ids(frames, frames.len()) <= u32::MAX,
    ensures
        with_frames(d, frames, k) matches Some(after) ==> {
            &&& has_made(after, d.spread.frames_in_order.len(), frames.take(k as int))
            &&& d.spread.frames_in_order.is_prefix_of(after.spread.frames_in_order)
            &&& spread_grows(d.spread, after.spread)
            &&& d.stories.is_prefix_of(after.stories)
            &&& keeps_colours(d.palette, after.palette)
            &&& after.spread.pages == d.spread.pages
            &&& fits(after)
        },
    decreases k,
{
    reveal(Seq::filter);
    let b = d.spread.frames_in_order.len();
    if k > 0 {
        let i = (k - 1) as nat;
        lemma_has_made(d, frames, i);
        if let Some(before) = with_frames(d, frames, i) {
            lemma_frames_ids(d, frames, i);
            lemma_frames_ids_grow(frames, i, frames.len());
            let frame = frames[i as int];
            lemma_goes_on(before, frame);
            assert(frames.take(k as int).drop_last() =~= frames.take(i as int));
            assert(frames.take(k as int).last() == frame);
            if let Some(after) = with_frame(before, frame) {
                let old_seen = seen(frames.take(i as int));
                let all = seen(frames.take(k as int));
                let order = after.spread.frames_in_order;
                let old_order = before.spread.frames_in_order;
                assert(is_seen(frame) ==> all == old_seen.push(frame));
                assert(!is_seen(frame) ==> all == old_seen);
                assert(is_seen(frame) ==> order == old_order.push(order.last())) by {
                    if is_seen(frame) {
                        assert(order =~= order.drop_last().push(order.last()));
                    }
                }
                assert forall|j: int| 0 <= j < all.len() implies is_made(
                    after.spread,
                    after.stories,
                    after.palette,
                    order[b + j],
                    #[trigger] all[j],
                ) by {
                    if j < old_seen.len() {
                        assert(all[j] == old_seen[j]);
                        assert(order[b + j] == old_order[b + j]);
                        lemma_made_stays(before, after, old_order[b + j], old_seen[j]);
                    }
                }
                assert(has_made(after, b, frames.take(k as int)));
            }
        }
    } else {
        assert(seen(frames.take(0)).len() == 0);
    }
}

/// How many images stand behind all else on a page.
pub open spec fn behind(page: PageIrView) -> nat {
    if page.background_png_b64 is Some {
        1
    } else {
        0
    }
}

/// The image of a whole page, as a frame as large as the page.
pub open spec fn page_image(page: PageIrView) -> FrameIrView {
    FrameIrView::Image(
        ImageFrameIrView {
            rect: RectIr {
                x_pt: zero(),
                y_pt: zero(),
                width_pt: page.width_pt,
                height_pt: page.height_pt,
            },
            png_b64: page.background_png_b64->0,
        },
    )
}

/// Whether a spread shows a page of the reading: one page as wide and as high,
/// under its number; the image of the whole page first, where there is one; and
/// then an item for each frame of which something can be seen, in order, and for
/// no other.
pub open spec fn shows_page(
    spread: SpreadView,
    stories: Seq<ParsedStoryView>,
    palette: GraphicView,
    page: PageIrView,
    number: nat,
) -> bool {
    &&& spread.pages.len() == 1
    &&& spread.pages[0].name == Some(decimal(number))
    &&& spread.pages[0].bounds.left == zero()
    &&& spread.pages[0].bounds.top == zero()
    &&& spread.pages[0].bounds.right == page.width_pt
    &&& spread.pages[0].bounds.bottom == page.height_pt
    &&& spread.frames_in_order.len() == behind(page) + seen(page.frames).len()
    &&& page.background_png_b64 is Some ==> shows(
        spread,
        stories,
        palette,
        spread.frames_in_order[0],
        page_image(page),
    )
    &&& forall|j: int|
        0 <= j < seen(page.frames).len() ==> shows(
            spread,
            stories,
            palette,
            spread.frames_in_order[behind(page) + j],
            #[trigger] seen(page.frames)[j],
        )
}

/// Whether a page was made of a page of the reading.
spec fn is_made_page(d: DraftView, page: PageIrView, number: nat) -> bool {
    &&& shows_page(d.spread, d.stories, d.palette, page, number)
    &&& page.background_png_b64 is Some ==> is_made(
        d.spread,
        d.stories,
        d.palette,
        d.spread.frames_in_order[0],
        page_image(page),
    )
    &&& has_made(d, behind(page), page.frames)
}

proof fn lemma_page_stays(before: DraftView, after: DraftView, page: PageIrView, number: nat)
    requires
        before.spread == after.spread,
        before.stories.is_prefix_of(after.stories),
        keeps_colours(before.palette, after.palette),
        is_made_page(before, page, number),
    ensures
        is_made_page(after, page, number),
{
    let order = after.spread.frames_in_order;
    let b = behind(page);
    assert forall|j: int| 0 <= j < seen(page.frames).len() implies is_made(
        after.spread,
        after.stories,
        after.palette,
        order[b + j],
        #[trigger] seen(page.frames)[j],
    ) by {
        lemma_made_stays(before, after, order[b + j], seen(page.frames)[j]);
    }
    if page.background_png_b64 is Some {
        lemma_made_stays(before, after, order[0], page_image(page));
    }
}

proof fn lemma_page_is_made(d: DraftView, page: PageIrView, number: nat)
    requires
        d.n + page_ids(page) <= u32::MAX,
    ensures
        with_whole_page(d, page, number) matches Some(after) ==> {
            &&& is_made_page(after, page, number)
            &&& d.stories.is_prefix_of(after.stories)
            &&& keeps_colours(d.palette, after.palette)
        },
{
    reveal(with_page);
    reveal(with_background);
    let fresh = with_page(d, page, number);
    lemma_page_ids(d, page, number);
    assert(fits(fresh));
    if let Some(text) = page.background_png_b64 {
        if let Some(image) = png_of(text) {
            lemma_image_goes_on(fresh, crate::assembly::page_rect(page), text, image);
        }
    }
    if let Some(before) = with_background(fresh, page) {
        let n = page.frames.len();
        lemma_has_made(before, page.frames, n);
        assert(page.frames.take(n as int) =~= page.frames);
        assert(before.spread.frames_in_order.len() == behind(page));
        if let Some(after) = with_frames(before, page.frames, n) {
            let order = after.spread.frames_in_order;
            if page.background_png_b64 is Some {
                assert(order[0] == before.spread.frames_in_order[0]);
                assert(before.spread.frames_in_order[0] == before.spread.frames_in_order.last());
                lemma_made_stays(before, after, order[0], page_image(page));
            }
            assert(has_made(after, behind(page), page.frames));
            assert forall|j: int| 0 <= j < seen(page.frames).len() implies shows(
                after.spread,
                after.stories,
                after.palette,
                order[behind(page) + j],
                #[trigger] seen(page.frames)[j],
            ) by {
                assert(is_made(
                    after.spread,
                    after.stories,
                    after.palette,
                    order[behind(page) + j],
                    seen(page.frames)[j],
                ));
            }
        }
    }
}

proof fn lemma_document(pages: Seq<PageIrView>, k: nat)
    requires
        k <= pages.len(),
        pages_ids(pages, pages.len()) <= u32::MAX,
    ensures
        built(pages, k) matches Some(b) ==> {
            &&& b.spreads.len() == k
            &&& forall|i: int|
                0 <= i < k ==> is_made_page(
                    (DraftView { spread: (#[trigger] b.spreads[i]).spread, ..b.draft }),
                    pages[i],
                    (i + 1) as nat,
                )
        },
    decreases k,
{
    if k > 0 {
        let m = (k - 1) as nat;
        lemma_document(pages, m);
        if let Some(before) = built(pages, m) {
            lemma_built_ids(pages, m);
            lemma_pages_ids_grow(pages, k, pages.len());
            lemma_page_is_made(before.draft, pages[m as int], k);
            if let Some(draft) = with_whole_page(before.draft, pages[m as int], k) {
                let b = built(pages, k)->0;
                assert forall|i: int| 0 <= i < k implies is_made_page(
                    (DraftView { spread: (#[trigger] b.spreads[i]).spread, ..b.draft }),
                    pages[i],
                    (i + 1) as nat,
                ) by {
                    if i < m {
                        assert(b.spreads[i] == before.spreads[i]);
                        lemma_page_stays(
                            DraftView { spread: before.spreads[i].spread, ..before.draft },
                            DraftView { spread: b.spreads[i].spread, ..b.draft },
                            pages[i],
                            (i + 1) as nat,
                        );
                    } else {
                        lemma_page_stays(
                            draft,
                            DraftView { spread: b.spreads[i].spread, ..b.draft },
                            pages[i],
                            k,
                        );
                    }
                }
            }
        }
    }
}

/// A document that was made of a reading shows every page of it, in order: the
/// size of the page, and each frame that can be seen, in its place and order, with
/// its image, its text or its outlines.
pub proof fn law_document_shows_every_page(ir: DocumentIrView)
    requires
        ids_needed(ir) <= u32::MAX,
        document_from(ir) is Some,
    ensures
        ({
            let document = document_from(ir)->0;
            &&& document.spreads.len() == ir.pages.len()
            &&& forall|i: int|
                0 <= i < ir.pages.len() ==> shows_page(
                    (#[trigger] document.spreads[i]).spread,
                    document.stories,
                    document.palette,
                    ir.pages[i],
                    (i + 1) as nat,
                )
        }),
{
    lemma_document(ir.pages, ir.pages.len());
    let b = built(ir.pages, ir.pages.len())->0;
    let document = document_from(ir)->0;
    assert forall|i: int| 0 <= i < ir.pages.len() implies shows_page(
        (#[trigger] document.spreads[i]).spread,
        document.stories,
        document.palette,
        ir.pages[i],
        (i + 1) as nat,
    ) by {
        assert(is_made_page(
            DraftView { spread: b.spreads[i].spread, ..b.draft },
            ir.pages[i],
            (i + 1) as nat,
        ));
    }
}

/// Whether an identifier has a number that was given out between two drafts.
pub open spec fn is_new(id: Option<Seq<char>>, before: DraftView, after: DraftView) -> bool {
    exists|prefix: Seq<char>, n: nat|
        before.n < n <= after.n && id == Some(#[trigger] minted(prefix, n))
}

/// Every item and every story gets an identifier with a number that was not given out
/// before.
pub proof fn law_new_items_get_new_numbers(
    d: DraftView,
    rect: RectIr,
    image: Seq<u8>,
    tf: TextFrameIrView,
    v: VectorIrView,
)
    ensures
        ({
            let after = with_image(d, rect, image);
            is_new(after.spread.rectangles.last().self_id, d, after)
        }),
        has_text(tf) ==> ({
            let after = with_text(d, tf);
            &&& is_new(after.spread.text_frames.last().self_id, d, after)
            &&& is_new(Some(after.stories.last().self_id), d, after)
            &&& after.spread.text_frames.last().self_id != Some(after.stories.last().self_id)
        }),
        has_line(v) ==> ({
            let after = with_vector(d, v);
            is_new(after.spread.polygons.last().self_id, d, after)
        }),
{
    assert(with_image(d, rect, image).spread.rectangles.last().self_id == Some(
        minted("img"@, d.n + 1),
    ));
    if has_text(tf) {
        let after = with_text(d, tf);
        lemma_text(d.palette, tf.paragraphs);
        assert(has_text(tf) == (story_from(tf).paragraphs.len() > 0));
        assert(after.spread.text_frames.last().self_id == Some(minted("frame"@, d.n + 2)));
        assert(after.stories.last().self_id == minted("story"@, d.n + 1));
        reveal_strlit("frame");
        reveal_strlit("story");
        assert(minted("frame"@, d.n + 2)[0] == 'f');
        assert(minted("story"@, d.n + 1)[0] == 's');
    }
    if has_line(v) {
        lemma_lines(v.subpaths);
        assert(has_line(v) == (drawable(v.subpaths).len() > 0));
        assert(with_vector(d, v).spread.polygons.last().self_id == Some(minted("vec"@, d.n + 1)));
    }
}

/// Two numbers make two identifiers, under any one prefix.
pub proof fn law_numbers_make_identifiers(prefix: Seq<char>, m: nat, n: nat)
    requires
        minted(prefix, m) == minted(prefix, n),
    ensures
        m == n,
{
    assert(minted(prefix, m).skip(prefix.len() as int) =~= decimal(m));
    assert(minted(prefix, n).skip(prefix.len() as int) =~= decimal(n));
    law_decimal_is_injective(m, n);
}

/// Where the stories of a draft stand: each under its identifier.
spec fn stories_stand(stories: Seq<ParsedStoryView>) -> bool {
    forall|k: int|
        0 <= k < stories.len() ==> (#[trigger] stories[k]).src == "Stories/Story_"@
            + stories[k].self_id + ".xml"@
}

proof fn lemma_stories_stand(d: DraftView, frames: Seq<FrameIrView>, k: nat)
    requires
        stories_stand(d.stories),
    ensures
        with_frames(d, frames, k) matches Some(after) ==> stories_stand(after.stories),
    decreases k,
{
    if k > 0 {
        lemma_stories_stand(d, frames, (k - 1) as nat);
        reveal(with_frame);
    }
}

proof fn lemma_paths(pages: Seq<PageIrView>, k: nat)
    ensures
        built(pages, k) matches Some(b) ==> {
            &&& stories_stand(b.draft.stories)
            &&& b.spreads.len() == k
            &&& forall|i: int|
                0 <= i < k ==> (#[trigger] b.spreads[i]).src == spread_path((i + 1) as nat)
        },
    decreases k,
{
    if k > 0 {
        lemma_paths(pages, (k - 1) as nat);
        if let Some(before) = built(pages, (k - 1) as nat) {
            reveal(with_page);
            reveal(with_background);
            let page = pages[k - 1];
            if let Some(d) = with_background(with_page(before.draft, page, k), page) {
                assert(d.stories == before.draft.stories);
                lemma_stories_stand(d, page.frames, page.frames.len());
            }
        }
    }
}

/// No two spreads of a document that was made of a reading have the same path, nor
/// have two stories with identifiers that differ.
pub proof fn law_parts_have_their_own_paths(ir: DocumentIrView, i: int, j: int)
    requires
        document_from(ir) is Some,
    ensures
        ({
            let document = document_from(ir)->0;
            &&& 0 <= i < j < document.spreads.len() ==> document.spreads[i].src
                != document.spreads[j].src
            &&& 0 <= i < j < document.stories.len() && document.stories[i].self_id
                != document.stories[j].self_id ==> document.stories[i].src
                != document.stories[j].src
        }),
{
    lemma_paths(ir.pages, ir.pages.len());
    let document = document_from(ir)->0;
    let end = ".xml"@;
    if 0 <= i < j < document.spreads.len() {
        let a = document.spreads[i].src;
        let b = document.spreads[j].src;
        assert(a == spread_path((i + 1) as nat) && b == spread_path((j + 1) as nat));
        if a == b {
            let start = "Spreads/Spread_"@;
            let x = decimal((i + 1) as nat);
            let y = decimal((j + 1) as nat);
            lemma_middle_is_told(start, x, y, end);
            law_decimal_is_injective((i + 1) as nat, (j + 1) as nat);
        }
    }
    if 0 <= i < j < document.stories.len() {
        let a = document.stories[i];
        let b = document.stories[j];
        if a.src == b.src {
            lemma_middle_is_told("Stories/Story_"@, a.self_id, b.self_id, end);
        }
    }
}

proof fn lemma_middle_is_told(start: Seq<char>, x: Seq<char>, y: Seq<char>, end: Seq<char>)
    requires
        start + x + end == start + y + end,
    ensures
        x == y,
{
    let a = start + x + end;
    let b = start + y + end;
    assert(a.len() == start.len() + x.len() + end.len());
    assert(b.len() == start.len() + y.len() + end.len());
    assert(a.subrange(start.len() as int, (start.len() + x.len()) as int) =~= x);
    assert(b.subrange(start.len() as int, (start.len() + y.len()) as int) =~= y);
}

} // verus!
