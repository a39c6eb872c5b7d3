//! What holds of every document that is made of a reading.
use crate::assembly::{
    built, channel, color_name, document_from, drawable, frames_ids, ids_needed, lemma_built_ids,
    lemma_frames_ids, lemma_frames_ids_grow, lemma_page_ids, lemma_pages_ids_grow, minted, page_ids,
    page_rect, pages_ids, paragraphs_from, png_of, rect_bounds, runs_from, story_from,
    with_background, with_frame, with_frames, with_image, with_page, with_run_colors, with_text,
    with_text_colors, with_vector, with_whole_page, DraftView,
};
use crate::graphic::GraphicView;
use crate::import::ParsedStoryView;
use crate::ir::{
    DocumentIrView, FrameIrView, PageIrView, ParagraphIrView, RectIr, Rgb, RunIrView,
    TextFrameIrView, VectorIrView,
};
use crate::page_items::{FrameRef, SpreadView, TextFrameView};
use crate::story_model::{CharacterRunView, ParagraphView};
use crate::text::{decimal, law_decimal_is_injective};
use vstd::prelude::*;

verus! {

/// Whether a text frame shows one of the stories.
pub open spec fn shows_a_story(frame: TextFrameView, stories: Seq<ParsedStoryView>) -> bool {
    exists|k: int|
        0 <= k < stories.len() && frame.parent_story == Some(
            (#[trigger] stories[k]).self_id,
        )
}

/// Whether every text frame of a spread shows one of the stories.
pub open spec fn frames_show_stories(spread: SpreadView, stories: Seq<ParsedStoryView>) -> bool {
    forall|i: int|
        0 <= i < spread.text_frames.len() ==> shows_a_story(
            #[trigger] spread.text_frames[i],
            stories,
        )
}

/// Whether no two stories have the same identifier.
pub open spec fn story_ids_differ(stories: Seq<ParsedStoryView>) -> bool {
    forall|i: int, j: int|
        0 <= i < j < stories.len() ==> #[trigger] stories[i].self_id
            != #[trigger] stories[j].self_id
}

/// Whether a reference leads to an item of the spread.
pub open spec fn leads_to_item(spread: SpreadView, r: FrameRef) -> bool {
    match r {
        FrameRef::TextFrame(i) => i < spread.text_frames.len(),
        FrameRef::Rectangle(i) => i < spread.rectangles.len(),
        FrameRef::Polygon(i) => i < spread.polygons.len(),
        _ => false,
    }
}

/// Whether the order of a spread names as many items as it has, and each of them.
pub open spec fn order_is_whole(spread: SpreadView) -> bool {
    &&& spread.frames_in_order.len() == spread.text_frames.len() + spread.rectangles.len()
        + spread.polygons.len()
    &&& forall|i: int|
        0 <= i < spread.frames_in_order.len() ==> leads_to_item(
            spread,
            #[trigger] spread.frames_in_order[i],
        )
}

/// Whether a colour, where one is stated, is in the palette.
pub open spec fn is_swatch(palette: GraphicView, color: Option<Seq<char>>) -> bool {
    color matches Some(id) ==> palette.colors.dom().contains(id)
}

/// Whether the colours of the runs are in the palette.
pub open spec fn runs_are_coloured(palette: GraphicView, runs: Seq<CharacterRunView>) -> bool {
    forall|i: int| 0 <= i < runs.len() ==> is_swatch(palette, (#[trigger] runs[i]).fill_color)
}

/// Whether the colours of the paragraphs are in the palette.
pub open spec fn text_is_coloured(palette: GraphicView, paragraphs: Seq<ParagraphView>) -> bool {
    forall|i: int|
        0 <= i < paragraphs.len() ==> runs_are_coloured(
            palette,
            (#[trigger] paragraphs[i]).runs,
        )
}

/// Whether the colours of the stories are in the palette.
pub open spec fn stories_are_coloured(palette: GraphicView, stories: Seq<ParsedStoryView>) -> bool {
    forall|i: int|
        0 <= i < stories.len() ==> text_is_coloured(
            palette,
            (#[trigger] stories[i]).story.paragraphs,
        )
}

/// Whether the colours of the shapes are in the palette.
pub open spec fn shapes_are_coloured(palette: GraphicView, spread: SpreadView) -> bool {
    forall|i: int|
        0 <= i < spread.polygons.len() ==> is_swatch(
            palette,
            (#[trigger] spread.polygons[i]).fill_color,
        ) && is_swatch(palette, spread.polygons[i].stroke_color)
}

/// Whether all that a palette has, another has too.
spec fn grows(before: GraphicView, after: GraphicView) -> bool {
    forall|id: Seq<char>|
        before.colors.dom().contains(id) ==> #[trigger] after.colors.dom().contains(id)
}

/// Whether every story has one of the first `n` identifiers.
spec fn stories_are_numbered(stories: Seq<ParsedStoryView>, n: nat) -> bool {
    forall|k: int|
        0 <= k < stories.len() ==> is_numbered((#[trigger] stories[k]).self_id, n)
}

spec fn is_numbered(id: Seq<char>, n: nat) -> bool {
    exists|m: nat| m <= n && id == #[trigger] minted("story"@, m)
}

/// What holds of every draft.
spec fn is_sound(d: DraftView) -> bool {
    &&& frames_show_stories(d.spread, d.stories)
    &&& story_ids_differ(d.stories)
    &&& stories_are_numbered(d.stories, d.n)
    &&& order_is_whole(d.spread)
    &&& d.spread.frames_in_order.len() <= d.n
    &&& stories_are_coloured(d.palette, d.stories)
    &&& shapes_are_coloured(d.palette, d.spread)
}

/// How a draft goes on: nothing that was there is lost.
spec fn follows(before: DraftView, after: DraftView) -> bool {
    &&& before.n <= after.n
    &&& before.stories.is_prefix_of(after.stories)
    &&& grows(before.palette, after.palette)
}

proof fn lemma_minted_differ(m: nat, n: nat)
    requires
        m < n,
    ensures
        minted("story"@, m) != minted("story"@, n),
{
    if minted("story"@, m) == minted("story"@, n) {
        let p = "story"@;
        assert((p + decimal(m)).skip(p.len() as int) =~= decimal(m));
        assert((p + decimal(n)).skip(p.len() as int) =~= decimal(n));
        law_decimal_is_injective(m, n);
    }
}

proof fn lemma_run_colours(palette: GraphicView, runs: Seq<RunIrView>)
    ensures
        grows(palette, with_run_colors(palette, runs)),
        runs_are_coloured(with_run_colors(palette, runs), runs_from(runs)),
    decreases runs.len(),
{
    if runs.len() > 0 {
        lemma_run_colours(palette, runs.drop_last());
    }
}

proof fn lemma_text_colours(palette: GraphicView, paragraphs: Seq<ParagraphIrView>)
    ensures
        grows(palette, with_text_colors(palette, paragraphs)),
        text_is_coloured(with_text_colors(palette, paragraphs), paragraphs_from(paragraphs)),
    decreases paragraphs.len(),
{
    if paragraphs.len() > 0 {
        let before = with_text_colors(palette, paragraphs.drop_last());
        let after = with_text_colors(palette, paragraphs);
        lemma_text_colours(palette, paragraphs.drop_last());
        lemma_run_colours(before, paragraphs.last().runs);
        let earlier = paragraphs_from(paragraphs.drop_last());
        lemma_still_coloured(before, after, earlier);
        let all = paragraphs_from(paragraphs);
        assert forall|i: int| 0 <= i < all.len() implies runs_are_coloured(
            after,
            (#[trigger] all[i]).runs,
        ) by {
            if i < earlier.len() {
                assert(all[i] == earlier[i]);
            }
        }
    }
}

proof fn lemma_still_coloured(before: GraphicView, after: GraphicView, text: Seq<ParagraphView>)
    requires
        grows(before, after),
        text_is_coloured(before, text),
    ensures
        text_is_coloured(after, text),
{
    assert forall|i: int| 0 <= i < text.len() implies runs_are_coloured(
        after,
        (#[trigger] text[i]).runs,
    ) by {
        let runs = text[i].runs;
        assert(runs_are_coloured(before, runs));
        assert forall|j: int| 0 <= j < runs.len() implies is_swatch(
            after,
            (#[trigger] runs[j]).fill_color,
        ) by {
            assert(is_swatch(before, runs[j].fill_color));
        }
    }
}

proof fn lemma_stories_still_coloured(
    before: GraphicView,
    after: GraphicView,
    stories: Seq<ParsedStoryView>,
)
    requires
        grows(before, after),
        stories_are_coloured(before, stories),
    ensures
        stories_are_coloured(after, stories),
{
    assert forall|i: int| 0 <= i < stories.len() implies text_is_coloured(
        after,
        (#[trigger] stories[i]).story.paragraphs,
    ) by {
        lemma_still_coloured(before, after, stories[i].story.paragraphs);
    }
}

proof fn lemma_shapes_still_coloured(before: GraphicView, after: GraphicView, spread: SpreadView)
    requires
        grows(before, after),
        shapes_are_coloured(before, spread),
    ensures
        shapes_are_coloured(after, spread),
{
    assert forall|i: int| 0 <= i < spread.polygons.len() implies is_swatch(
        after,
        (#[trigger] spread.polygons[i]).fill_color,
    ) && is_swatch(after, spread.polygons[i].stroke_color) by {
        assert(is_swatch(before, spread.polygons[i].fill_color));
    }
}

proof fn lemma_frames_still_show(
    spread: SpreadView,
    before: Seq<ParsedStoryView>,
    after: Seq<ParsedStoryView>,
)
    requires
        before.is_prefix_of(after),
        frames_show_stories(spread, before),
    ensures
        frames_show_stories(spread, after),
{
    assert forall|i: int| 0 <= i < spread.text_frames.len() implies shows_a_story(
        #[trigger] spread.text_frames[i],
        after,
    ) by {
        let frame = spread.text_frames[i];
        assert(shows_a_story(frame, before));
        let k = choose|k: int|
            0 <= k < before.len() && frame.parent_story == Some((#[trigger] before[k]).self_id);
        assert(after[k] == before[k]);
    }
}

proof fn lemma_order_grows(before: SpreadView, after: SpreadView, r: FrameRef)
    requires
        order_is_whole(before),
        after.frames_in_order == before.frames_in_order.push(r),
        after.text_frames.len() >= before.text_frames.len(),
        after.rectangles.len() >= before.rectangles.len(),
        after.polygons.len() >= before.polygons.len(),
        after.text_frames.len() + after.rectangles.len() + after.polygons.len()
            == before.text_frames.len() + before.rectangles.len() + before.polygons.len() + 1,
        leads_to_item(after, r),
    ensures
        order_is_whole(after),
{
    assert forall|i: int| 0 <= i < after.frames_in_order.len() implies leads_to_item(
        after,
        #[trigger] after.frames_in_order[i],
    ) by {
        if i < before.frames_in_order.len() {
            assert(leads_to_item(before, before.frames_in_order[i]));
        }
    }
}

proof fn lemma_image_is_sound(d: DraftView, rect: RectIr, image: Seq<u8>)
    requires
        is_sound(d),
        d.n <= u32::MAX,
    ensures
        is_sound(with_image(d, rect, image)),
        follows(d, with_image(d, rect, image)),
{
    let after = with_image(d, rect, image);
    lemma_order_grows(
        d.spread,
        after.spread,
        FrameRef::Rectangle(d.spread.rectangles.len() as usize),
    );
    lemma_numbers_grow(d.stories, d.n, after.n);
}

proof fn lemma_numbers_grow(stories: Seq<ParsedStoryView>, n: nat, m: nat)
    requires
        n <= m,
        stories_are_numbered(stories, n),
    ensures
        stories_are_numbered(stories, m),
{
    assert forall|k: int| 0 <= k < stories.len() implies is_numbered(
        (#[trigger] stories[k]).self_id,
        m,
    ) by {
        assert(is_numbered(stories[k].self_id, n));
        let x = choose|x: nat| x <= n && stories[k].self_id == #[trigger] minted("story"@, x);
        assert(x <= m && stories[k].self_id == minted("story"@, x));
    }
}

proof fn lemma_text_is_sound(d: DraftView, tf: TextFrameIrView)
    requires
        is_sound(d),
        d.n <= u32::MAX,
    ensures
        is_sound(with_text(d, tf)),
        follows(d, with_text(d, tf)),
{
    let after = with_text(d, tf);
    lemma_text_colours(d.palette, tf.paragraphs);
    lemma_stories_still_coloured(d.palette, after.palette, d.stories);
    lemma_shapes_still_coloured(d.palette, after.palette, d.spread);
    if story_from(tf).paragraphs.len() > 0 {
        let id = minted("story"@, d.n + 1);
        lemma_order_grows(
            d.spread,
            after.spread,
            FrameRef::TextFrame(d.spread.text_frames.len() as usize),
        );
        lemma_numbers_grow(d.stories, d.n, after.n);
        assert(is_numbered(id, after.n));
        assert(after.stories.last().self_id == id);
        assert forall|k: int| 0 <= k < after.stories.len() implies is_numbered(
            (#[trigger] after.stories[k]).self_id,
            after.n,
        ) by {
            if k < d.stories.len() {
                assert(after.stories[k] == d.stories[k]);
            }
        }
        assert forall|i: int, j: int| 0 <= i < j < after.stories.len() implies (
        #[trigger] after.stories[i]).self_id != (#[trigger] after.stories[j]).self_id by {
            if j < d.stories.len() {
                assert(after.stories[i] == d.stories[i] && after.stories[j] == d.stories[j]);
            } else {
                assert(after.stories[i] == d.stories[i]);
                assert(is_numbered(d.stories[i].self_id, d.n));
                let m = choose|m: nat|
                    m <= d.n && d.stories[i].self_id == #[trigger] minted("story"@, m);
                lemma_minted_differ(m, d.n + 1);
            }
        }
        lemma_frames_still_show(d.spread, d.stories, after.stories);
        assert forall|i: int| 0 <= i < after.spread.text_frames.len() implies shows_a_story(
            #[trigger] after.spread.text_frames[i],
            after.stories,
        ) by {
            if i < d.spread.text_frames.len() {
                assert(after.spread.text_frames[i] == d.spread.text_frames[i]);
            } else {
                let k = d.stories.len() as int;
                assert(after.spread.text_frames[i].parent_story == Some(
                    after.stories[k].self_id,
                ));
            }
        }
        assert forall|i: int| 0 <= i < after.stories.len() implies text_is_coloured(
            after.palette,
            (#[trigger] after.stories[i]).story.paragraphs,
        ) by {
            if i < d.stories.len() {
                assert(after.stories[i] == d.stories[i]);
            }
        }
    }
}

proof fn lemma_vector_is_sound(d: DraftView, v: VectorIrView)
    requires
        is_sound(d),
        d.n <= u32::MAX,
    ensures
        is_sound(with_vector(d, v)),
        follows(d, with_vector(d, v)),
{
    let after = with_vector(d, v);
    if drawable(v.subpaths).len() > 0 {
        lemma_order_grows(
            d.spread,
            after.spread,
            FrameRef::Polygon(d.spread.polygons.len() as usize),
        );
        lemma_numbers_grow(d.stories, d.n, after.n);
        lemma_stories_still_coloured(d.palette, after.palette, d.stories);
        lemma_shapes_still_coloured(d.palette, after.palette, d.spread);
        assert forall|i: int| 0 <= i < after.spread.polygons.len() implies is_swatch(
            after.palette,
            (#[trigger] after.spread.polygons[i]).fill_color,
        ) && is_swatch(after.palette, after.spread.polygons[i].stroke_color) by {
            if i < d.spread.polygons.len() {
                assert(after.spread.polygons[i] == d.spread.polygons[i]);
            }
        }
    }
}

proof fn lemma_frame_is_sound(d: DraftView, frame: FrameIrView)
    requires
        is_sound(d),
        d.n <= u32::MAX,
    ensures
        with_frame(d, frame) matches Some(after) ==> is_sound(after) && follows(d, after)
            && after.spread.pages == d.spread.pages,
{
    reveal(with_frame);
    match frame {
        FrameIrView::Image(img) => {
            if let Some(image) = png_of(img.png_b64) {
                lemma_image_is_sound(d, img.rect, image);
            }
        },
        FrameIrView::Text(tf) => {
            lemma_text_is_sound(d, tf);
        },
        FrameIrView::Vector(v) => {
            lemma_vector_is_sound(d, v);
        },
    }
}

proof fn lemma_frames_are_sound(d: DraftView, frames: Seq<FrameIrView>, j: nat, k: nat)
    requires
        is_sound(d),
        j <= k,
        d.n + frames_ids(frames, k) <= u32::MAX,
    ensures
        with_frames(d, frames, j) matches Some(after) ==> is_sound(after) && follows(d, after)
            && after.spread.pages == d.spread.pages,
    decreases j,
{
    if j > 0 {
        lemma_frames_are_sound(d, frames, (j - 1) as nat, k);
        if let Some(before) = with_frames(d, frames, (j - 1) as nat) {
            lemma_frames_ids(d, frames, (j - 1) as nat);
            lemma_frames_ids_grow(frames, (j - 1) as nat, k);
            lemma_frame_is_sound(before, frames[j - 1]);
        }
    }
}

/// What holds of a spread of a document, given its stories and its palette.
pub open spec fn spread_is_sound(
    spread: SpreadView,
    stories: Seq<ParsedStoryView>,
    palette: GraphicView,
) -> bool {
    &&& spread.pages.len() == 1
    &&& frames_show_stories(spread, stories)
    &&& order_is_whole(spread)
    &&& shapes_are_coloured(palette, spread)
}

proof fn lemma_page_is_sound(d: DraftView, page: PageIrView, number: nat)
    requires
        is_sound(d),
        d.n + page_ids(page) <= u32::MAX,
    ensures
        with_whole_page(d, page, number) matches Some(after) ==> is_sound(after) && follows(
            d,
            after,
        ) && after.spread.pages.len() == 1,
{
    reveal(with_page);
    reveal(with_background);
    let fresh = with_page(d, page, number);
    lemma_numbers_grow(d.stories, d.n, fresh.n);
    assert(is_sound(fresh));
    lemma_page_ids(d, page, number);
    if let Some(text) = page.background_png_b64 {
        if let Some(image) = png_of(text) {
            lemma_image_is_sound(fresh, page_rect(page), image);
        }
    }
    if let Some(before) = with_background(fresh, page) {
        assert(is_sound(before) && follows(d, before) && before.spread.pages.len() == 1);
        lemma_frames_are_sound(before, page.frames, page.frames.len(), page.frames.len());
    }
}

proof fn lemma_built_is_sound(pages: Seq<PageIrView>, j: nat)
    requires
        j <= pages.len(),
        pages_ids(pages, pages.len()) <= u32::MAX,
    ensures
        built(pages, j) matches Some(b) ==> is_sound(b.draft) && b.spreads.len() == j && forall|
            i: int,
        |
            0 <= i < j ==> spread_is_sound(
                (#[trigger] b.spreads[i]).spread,
                b.draft.stories,
                b.draft.palette,
            ),
    decreases j,
{
    if j == 0 {
        assert(is_sound(built(pages, 0)->0.draft));
    } else {
        lemma_built_is_sound(pages, (j - 1) as nat);
        if let Some(before) = built(pages, (j - 1) as nat) {
            lemma_built_ids(pages, (j - 1) as nat);
            lemma_pages_ids_grow(pages, j, pages.len());
            lemma_page_is_sound(before.draft, pages[j - 1], j);
            if let Some(after) = with_whole_page(before.draft, pages[j - 1], j) {
                let b = built(pages, j)->0;
                assert(b.draft.stories == after.stories && b.draft.palette == after.palette);
                assert forall|i: int| 0 <= i < j implies spread_is_sound(
                    (#[trigger] b.spreads[i]).spread,
                    b.draft.stories,
                    b.draft.palette,
                ) by {
                    if i < j - 1 {
                        let spread = before.spreads[i].spread;
                        assert(b.spreads[i] == before.spreads[i]);
                        lemma_frames_still_show(spread, before.draft.stories, after.stories);
                        lemma_shapes_still_coloured(before.draft.palette, after.palette, spread);
                    }
                }
                assert(is_sound(b.draft));
            }
        }
    }
}

/// A document that was made of a reading has a spread for each page, with one
/// page on it. Every text frame shows a story of the document, and no two stories
/// have the same identifier. The order of a spread names as many items as it has,
/// and each of them. Every colour that text or a shape states is in the palette.
pub proof fn law_document_is_sound(ir: DocumentIrView)
    requires
        ids_needed(ir) <= u32::MAX,
        document_from(ir) is Some,
    ensures
        ({
            let document = document_from(ir)->0;
            &&& document.spreads.len() == ir.pages.len()
            &&& forall|i: int|
                0 <= i < document.spreads.len() ==> spread_is_sound(
                    (#[trigger] document.spreads[i]).spread,
                    document.stories,
                    document.palette,
                )
            &&& story_ids_differ(document.stories)
            &&& stories_are_coloured(document.palette, document.stories)
        }),
{
    lemma_built_is_sound(ir.pages, ir.pages.len());
}

/// The manifest of a document that was made of a reading lists all its spreads and
/// stories, in order, by the paths that they have.
pub proof fn law_manifest_lists_all(ir: DocumentIrView)
    requires
        document_from(ir) is Some,
    ensures
        ({
            let document = document_from(ir)->0;
            &&& document.designmap.spreads.len() == document.spreads.len()
            &&& document.designmap.stories.len() == document.stories.len()
            &&& forall|i: int|
                0 <= i < document.spreads.len() ==> (#[trigger] document.spreads[i]).src
                    == document.designmap.spreads[i].src
            &&& forall|i: int|
                0 <= i < document.stories.len() ==> (#[trigger] document.stories[i]).src
                    == document.designmap.stories[i].src
        }),
{
}

/// The image of a whole page is drawn first, below all frames of the page.
pub proof fn law_background_comes_first(d: DraftView, page: PageIrView, number: nat)
    requires
        page.background_png_b64 is Some,
        with_whole_page(d, page, number) is Some,
    ensures
        ({
            let spread = with_whole_page(d, page, number)->0.spread;
            &&& spread.frames_in_order.len() > 0
            &&& spread.frames_in_order[0] == FrameRef::Rectangle(0)
            &&& spread.rectangles.len() > 0
            &&& spread.rectangles[0].image_bytes == png_of(page.background_png_b64->0)
            &&& spread.rectangles[0].bounds == rect_bounds(page_rect(page))
        }),
{
    reveal(with_page);
    reveal(with_background);
    let before = with_background(with_page(d, page, number), page)->0;
    lemma_first_stays(before, page.frames, page.frames.len());
}

proof fn lemma_first_stays(d: DraftView, frames: Seq<FrameIrView>, k: nat)
    requires
        d.spread.frames_in_order.len() > 0,
        d.spread.rectangles.len() > 0,
    ensures
        with_frames(d, frames, k) matches Some(after) ==> after.spread.frames_in_order.len() > 0
            && after.spread.frames_in_order[0] == d.spread.frames_in_order[0]
            && after.spread.rectangles.len() > 0 && after.spread.rectangles[0]
            == d.spread.rectangles[0],
    decreases k,
{
    if k > 0 {
        lemma_first_stays(d, frames, (k - 1) as nat);
        reveal(with_frame);
    }
}

/// Whether a text is free of `c`.
spec fn is_free_of(s: Seq<char>, c: char) -> bool {
    forall|i: int| 0 <= i < s.len() ==> #[trigger] s[i] != c
}

proof fn lemma_decimal_is_plain(n: nat)
    ensures
        is_free_of(decimal(n), '_'),
    decreases n,
{
    if n >= 10 {
        lemma_decimal_is_plain(n / 10);
    }
}

/// A text that is split at the first `c` splits in one way only.
proof fn lemma_split_once(a: Seq<char>, b: Seq<char>, x: Seq<char>, y: Seq<char>, c: char)
    requires
        is_free_of(a, c),
        is_free_of(b, c),
        a + seq![c] + x == b + seq![c] + y,
    ensures
        a == b,
        x == y,
{
    let s = a + seq![c] + x;
    let t = b + seq![c] + y;
    assert(s[a.len() as int] == c);
    assert(t[b.len() as int] == c);
    if a.len() < b.len() {
        assert(t[a.len() as int] == b[a.len() as int]);
    }
    if b.len() < a.len() {
        assert(s[b.len() as int] == a[b.len() as int]);
    }
    assert(a =~= s.take(a.len() as int));
    assert(b =~= t.take(b.len() as int));
    assert(x =~= s.skip(a.len() as int + 1));
    assert(y =~= t.skip(b.len() as int + 1));
}

/// Two colours share a swatch just where they are the same in every channel.
pub proof fn law_colours_share_swatches(a: Rgb, b: Rgb)
    ensures
        color_name(a) == color_name(b) <==> channel(a.red) == channel(b.red) && channel(a.green)
            == channel(b.green) && channel(a.blue) == channel(b.blue),
{
    if color_name(a) == color_name(b) {
        let p = "Color/pdf_"@;
        reveal_strlit("_");
        assert("_"@ =~= seq!['_']);
        let ar = decimal(channel(a.red) as nat);
        let ag = decimal(channel(a.green) as nat);
        let ab = decimal(channel(a.blue) as nat);
        let br = decimal(channel(b.red) as nat);
        let bg = decimal(channel(b.green) as nat);
        let bb = decimal(channel(b.blue) as nat);
        lemma_decimal_is_plain(channel(a.red) as nat);
        lemma_decimal_is_plain(channel(b.red) as nat);
        lemma_decimal_is_plain(channel(a.green) as nat);
        lemma_decimal_is_plain(channel(b.green) as nat);
        assert(color_name(a).skip(p.len() as int) =~= ar + seq!['_'] + (ag + seq!['_'] + ab));
        assert(color_name(b).skip(p.len() as int) =~= br + seq!['_'] + (bg + seq!['_'] + bb));
        lemma_split_once(ar, br, ag + seq!['_'] + ab, bg + seq!['_'] + bb, '_');
        lemma_split_once(ag, bg, ab, bb, '_');
        law_decimal_is_injective(channel(a.red) as nat, channel(b.red) as nat);
        law_decimal_is_injective(channel(a.green) as nat, channel(b.green) as nat);
        law_decimal_is_injective(channel(a.blue) as nat, channel(b.blue) as nat);
    }
}

} // verus!
