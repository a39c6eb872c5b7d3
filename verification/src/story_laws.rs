//! What holds of every story that is read.
use crate::story::{
    after_anchored_tag, after_block_end, after_block_start, after_empty, after_end, after_event,
    after_events, after_flow_empty, after_flow_end, after_flow_start, after_path_point, after_start,
    after_variable, anchor_of, anchored_kind, current_source, flowed, is_silent, paragraph_of,
    story_of, with_paragraph, with_run_text, with_stop_of, FootnoteContextView, ProgressView,
    TableContextView,
};
use crate::story_model::{
    AnchoredFrameView, CharacterRunView, FootnoteView, ParagraphView, TableCellView, TableView,
};
use crate::xml::{law_names_differ, EventView, TagView};
use vstd::prelude::*;
use vstd::utf8::encode_utf8;

verus! {

/// `st` after a row of events.
pub open spec fn after_all(st: ProgressView, events: Seq<EventView>) -> ProgressView
    decreases events.len(),
{
    if events.len() == 0 {
        st
    } else {
        after_event(after_all(st, events.drop_last()), events.last())
    }
}

/// How many tags that the first `n` events open are still open behind them.
pub open spec fn nesting(events: Seq<EventView>, n: nat) -> int
    decreases n,
{
    if n == 0 {
        0
    } else {
        let before = nesting(events, (n - 1) as nat);
        match events[n - 1] {
            EventView::Open(tag) => if tag.empty {
                before
            } else {
                before + 1
            },
            EventView::End(_) => before - 1,
            _ => before,
        }
    }
}

/// Whether every tag that the events open is closed by them, and no other.
pub open spec fn is_balanced(events: Seq<EventView>) -> bool {
    &&& forall|n: nat| n <= events.len() ==> #[trigger] nesting(events, n) >= 0
    &&& nesting(events, events.len()) == 0
}

/// A tag whose content is silent is not that of an item.
proof fn lemma_silent_is_no_item(tag: TagView)
    requires
        is_silent(tag),
    ensures
        anchored_kind(tag.name) is None,
{
    reveal_strlit("HiddenText");
    reveal_strlit("Note");
    reveal_strlit("Index");
    reveal_strlit("IndexEntry");
    reveal_strlit("TextFrame");
    reveal_strlit("Rectangle");
    reveal_strlit("Group");
    assert("HiddenText"@.len() == 10 && "Note"@.len() == 4 && "Index"@.len() == 5
        && "IndexEntry"@.len() == 10 && "TextFrame"@.len() == 9 && "Rectangle"@.len() == 9
        && "Group"@.len() == 5);
    assert("Index"@[0] == 'I' && "Group"@[0] == 'G');
    if tag.is("HiddenText"@) {
        law_names_differ("HiddenText"@, "TextFrame"@);
        law_names_differ("HiddenText"@, "Rectangle"@);
        law_names_differ("HiddenText"@, "Group"@);
    }
    if tag.is("Note"@) {
        law_names_differ("Note"@, "TextFrame"@);
        law_names_differ("Note"@, "Rectangle"@);
        law_names_differ("Note"@, "Group"@);
    }
    if tag.is("Index"@) {
        law_names_differ("Index"@, "TextFrame"@);
        law_names_differ("Index"@, "Rectangle"@);
        law_names_differ("Index"@, "Group"@);
    }
    if tag.is("IndexEntry"@) {
        law_names_differ("IndexEntry"@, "TextFrame"@);
        law_names_differ("IndexEntry"@, "Rectangle"@);
        law_names_differ("IndexEntry"@, "Group"@);
    }
}

/// Where the content of a tag is silent, an event changes nothing but how deep it
/// leads.
pub proof fn law_silent_event_leaves_no_trace(st: ProgressView, event: EventView)
    requires
        st.suppress_depth > 0,
    ensures
        after_event(st, event) == (ProgressView {
            suppress_depth: after_event(st, event).suppress_depth,
            ..st
        }),
{
    reveal(after_event);
    reveal(after_start);
    reveal(after_empty);
    reveal(after_end);
}

proof fn lemma_silent_depth(st: ProgressView, events: Seq<EventView>, n: nat)
    requires
        st.suppress_depth > 0,
        n <= events.len(),
        forall|k: nat| k <= events.len() ==> #[trigger] nesting(events, k) >= 0,
        st.suppress_depth + events.len() <= u32::MAX,
    ensures
        nesting(events, n) <= n,
        after_all(st, events.take(n as int)) == (ProgressView {
            suppress_depth: (st.suppress_depth + nesting(events, n)) as u32,
            ..st
        }),
    decreases n,
{
    reveal(after_event);
    reveal(after_start);
    reveal(after_empty);
    reveal(after_end);
    if n > 0 {
        lemma_silent_depth(st, events, (n - 1) as nat);
        assert(events.take(n as int).drop_last() =~= events.take(n - 1));
        assert(events.take(n as int).last() == events[n - 1]);
        assert(nesting(events, (n - 1) as nat) >= 0);
        assert(nesting(events, n) >= 0);
    }
}

/// Hidden text, notes and the entries of an index leave no trace: whatever stands
/// between such a tag and the tag that closes it, everything is behind it as it
/// was before it.
pub proof fn law_silent_content_leaves_no_trace(
    st: ProgressView,
    tag: TagView,
    content: Seq<EventView>,
    name: Seq<u8>,
)
    requires
        st.suppress_depth == 0,
        st.anchored_depth == 0,
        is_silent(tag),
        !tag.empty,
        is_balanced(content),
        content.len() < u32::MAX,
    ensures
        after_all(st, seq![EventView::Open(tag)] + content + seq![EventView::End(name)]) == st,
{
    reveal(after_event);
    reveal(after_start);
    reveal(after_end);
    lemma_silent_is_no_item(tag);
    let all = seq![EventView::Open(tag)] + content + seq![EventView::End(name)];
    let inner = seq![EventView::Open(tag)] + content;
    assert(all.drop_last() =~= inner);
    let silent = ProgressView { suppress_depth: 1, ..st };
    assert(after_event(st, EventView::Open(tag)) == silent);
    lemma_after_first(st, EventView::Open(tag), content);
    lemma_silent_depth(silent, content, content.len());
    assert(content.take(content.len() as int) =~= content);
    assert(after_all(st, inner) == silent);
}

proof fn lemma_after_first(st: ProgressView, event: EventView, rest: Seq<EventView>)
    ensures
        after_all(st, seq![event] + rest) == after_all(after_event(st, event), rest),
    decreases rest.len(),
{
    let all = seq![event] + rest;
    if rest.len() == 0 {
        assert(all =~= seq![event]);
        assert(all.drop_last() =~= Seq::empty());
        assert(after_all(st, Seq::<EventView>::empty()) == st);
    } else {
        assert(all.drop_last() =~= seq![event] + rest.drop_last());
        assert(all.last() == rest.last());
        lemma_after_first(st, event, rest.drop_last());
    }
}

/// A box that the tag of an anchored item states is not changed by the points of
/// its path.
pub proof fn law_stated_box_stays(st: ProgressView, tag: TagView)
    requires
        st.anchored.len() > 0,
        st.anchored.last().bounds is Some,
        st.from_path.len() > 0,
        !st.from_path.last(),
    ensures
        after_path_point(st, tag).anchored.last().bounds == st.anchored.last().bounds,
        !after_path_point(st, tag).from_path.last(),
{
}

/// A box that the tag of an anchored item does not state holds the points of its
/// path, from the first on.
pub proof fn law_first_point_opens_box(st: ProgressView, tag: TagView)
    requires
        st.anchored.len() > 0,
        st.anchored.last().bounds is None,
        st.from_path.len() > 0,
        anchor_of(tag) is Some,
    ensures
        ({
            let p = anchor_of(tag)->0;
            let after = after_path_point(st, tag);
            &&& after.from_path.last()
            &&& after.anchored.last().bounds matches Some(b) && b.left == p.0 && b.right == p.0
                && b.top == p.1 && b.bottom == p.1
        }),
{
}

/// The tag that closes a footnote gives the text round it back: the run goes on as
/// it was, and so does the paragraph, with the footnote set into it.
pub proof fn law_footnote_gives_text_back(st: ProgressView, tag: TagView, inside: ProgressView)
    requires
        tag.is("Footnote"@),
        ({
            let opened = after_block_start(st, tag);
            &&& inside.footnotes.len() == opened.footnotes.len()
            &&& inside.footnotes.last().outer_paragraph
                == opened.footnotes.last().outer_paragraph
            &&& inside.footnotes.last().outer_run == opened.footnotes.last().outer_run
        }),
    ensures
        ({
            let after = after_block_end(inside, tag.name);
            &&& after.run == st.run
            &&& st.paragraph matches Some(p) ==> after.paragraph == Some(
                p.with_footnote(inside.footnotes.last().footnote),
            )
            &&& st.paragraph is None ==> after.paragraph is None
        }),
{
    reveal(after_block_start);
    reveal(after_block_end);
    lemma_block_names_differ();
    let ctx = after_block_start(st, tag).footnotes.last();
    assert(ctx.outer_paragraph == st.paragraph && ctx.outer_run == st.run);
}

/// The names of the three blocks are different.
proof fn lemma_block_names_differ()
    ensures
        encode_utf8("Footnote"@) != encode_utf8("Table"@),
        encode_utf8("Footnote"@) != encode_utf8("Cell"@),
        encode_utf8("Table"@) != encode_utf8("Cell"@),
{
    reveal_strlit("Footnote");
    reveal_strlit("Table");
    reveal_strlit("Cell");
    assert("Footnote"@.len() == 8 && "Table"@.len() == 5 && "Cell"@.len() == 4);
    law_names_differ("Footnote"@, "Table"@);
    law_names_differ("Footnote"@, "Cell"@);
    law_names_differ("Table"@, "Cell"@);
}

/// The tag that closes a cell gives the text round the table back, and puts the
/// cell behind the others of the table.
pub proof fn law_cell_gives_text_back(st: ProgressView, tag: TagView, inside: ProgressView)
    requires
        tag.is("Cell"@),
        st.tables.len() > 0,
        ({
            let opened = after_block_start(st, tag);
            &&& inside.tables == opened.tables
            &&& inside.cell is Some
        }),
    ensures
        ({
            let after = after_block_end(inside, tag.name);
            &&& after.paragraph == st.paragraph
            &&& after.run == st.run
            &&& after.cell is None
            &&& after.tables.len() == st.tables.len()
            &&& after.tables.last().table.cells == st.tables.last().table.cells.push(
                inside.cell->0,
            )
        }),
{
    reveal(after_block_start);
    reveal(after_block_end);
    lemma_block_names_differ();
}

/// The tag that closes a table sets it into the paragraph round it, and gives the
/// cell that was open before it back.
pub proof fn law_table_is_set_into_its_paragraph(
    st: ProgressView,
    tag: TagView,
    inside: ProgressView,
    p: ParagraphView,
)
    requires
        tag.is("Table"@),
        inside.tables == after_block_start(st, tag).tables,
        inside.paragraph == Some(p),
        inside.cell is None,
    ensures
        ({
            let after = after_block_end(inside, tag.name);
            &&& after.tables == st.tables
            &&& after.cell == st.cell
            &&& after.paragraph == Some(p.with_table(inside.tables.last().table))
        }),
{
    reveal(after_block_start);
    reveal(after_block_end);
    lemma_block_names_differ();
    assert(after_block_start(st, tag).tables.drop_last() =~= st.tables);
}

/// The text of runs, one behind the other.
pub open spec fn text_of(runs: Seq<CharacterRunView>) -> Seq<char>
    decreases runs.len(),
{
    if runs.len() == 0 {
        Seq::empty()
    } else {
        text_of(runs.drop_last()) + runs.last().text
    }
}

proof fn lemma_text_of_more(p: ParagraphView, run: CharacterRunView)
    ensures
        with_run_text(Some(p), run) matches Some(after) && text_of(after.runs) == text_of(p.runs)
            + run.text,
{
    if run.text.len() > 0 {
        assert(p.runs.push(run).drop_last() =~= p.runs);
    } else {
        assert(text_of(p.runs) + run.text =~= text_of(p.runs));
    }
}

/// The value of a text variable stands in the text where the variable does: behind
/// the text before it, and before all that follows.
pub proof fn law_variable_stands_in_its_place(
    st: ProgressView,
    p: ParagraphView,
    run: CharacterRunView,
    tag: TagView,
)
    requires
        st.paragraph == Some(p),
        st.run == Some(run),
    ensures
        ({
            let after = after_variable(st, tag);
            let value = tag.text("ResultText"@).unwrap_or(Seq::empty());
            &&& after.run matches Some(rest) && rest.text.len() == 0
            &&& after.paragraph matches Some(q) && text_of(q.runs) == text_of(p.runs) + run.text
                + value
        }),
{
    reveal(after_variable);
    let value = tag.text("ResultText"@).unwrap_or(Seq::empty());
    let plain = run.with_text_variable(None);
    lemma_text_of_more(p, plain);
    let before = with_run_text(Some(p), plain)->0;
    let rest = if run.text.len() > 0 {
        run.with_text(Seq::empty())
    } else {
        run
    };
    let shown = rest.with_text(value).with_text_variable(tag.text("AssociatedTextVariable"@));
    lemma_text_of_more(before, shown);
}

/// A run that opens belongs to the innermost source of a link that is open.
pub proof fn law_run_has_innermost_source(st: ProgressView, tag: TagView)
    requires
        tag.is("CharacterStyleRange"@),
        st.suppress_depth == 0,
        st.anchored_depth == 0,
    ensures
        after_start(st, tag).run matches Some(run) && run.hyperlink_source == current_source(
            st.sources,
        ),
{
    reveal(after_start);
    reveal(after_flow_start);
    reveal_strlit("CharacterStyleRange");
    reveal_strlit("TextFrame");
    reveal_strlit("Rectangle");
    reveal_strlit("Group");
    reveal_strlit("HiddenText");
    reveal_strlit("Note");
    reveal_strlit("Index");
    reveal_strlit("IndexEntry");
    reveal_strlit("Story");
    reveal_strlit("HyperlinkTextSource");
    reveal_strlit("CrossReferenceSource");
    reveal_strlit("StoryPreference");
    reveal_strlit("ParagraphStyleRange");
    reveal_strlit("Table");
    reveal_strlit("Footnote");
    reveal_strlit("Cell");
    reveal_strlit("TabStop");
    assert("CharacterStyleRange"@[0] == 'C' && "CharacterStyleRange"@.len() == 19);
    assert("HyperlinkTextSource"@[0] == 'H' && "ParagraphStyleRange"@[0] == 'P');
    law_names_differ("CharacterStyleRange"@, "TextFrame"@);
    law_names_differ("CharacterStyleRange"@, "Rectangle"@);
    law_names_differ("CharacterStyleRange"@, "Group"@);
    law_names_differ("CharacterStyleRange"@, "HiddenText"@);
    law_names_differ("CharacterStyleRange"@, "Note"@);
    law_names_differ("CharacterStyleRange"@, "Index"@);
    law_names_differ("CharacterStyleRange"@, "IndexEntry"@);
    law_names_differ("CharacterStyleRange"@, "Story"@);
    law_names_differ("CharacterStyleRange"@, "HyperlinkTextSource"@);
    law_names_differ("CharacterStyleRange"@, "CrossReferenceSource"@);
    law_names_differ("CharacterStyleRange"@, "StoryPreference"@);
    law_names_differ("CharacterStyleRange"@, "ParagraphStyleRange"@);
    law_names_differ("CharacterStyleRange"@, "Table"@);
    law_names_differ("CharacterStyleRange"@, "Footnote"@);
    law_names_differ("CharacterStyleRange"@, "Cell"@);
    law_names_differ("CharacterStyleRange"@, "TabStop"@);
}

/// Of two links, or two placings, that the image of an anchored item is given, the
/// first stands.
pub proof fn law_first_anchored_image_stands(frame: AnchoredFrameView, tag: TagView)
    ensures
        frame.image_link is Some ==> frame.with_image(tag).image_link == frame.image_link,
        frame.image_item_transform is Some ==> frame.with_image(tag).image_item_transform
            == frame.image_item_transform,
{
}

/// Text as it flows has no separators of lines or paragraphs left.
pub proof fn law_flowed_text_has_no_separators(s: Seq<char>)
    ensures
        flowed(s).len() == s.len(),
        forall|i: int|
            0 <= i < s.len() ==> (#[trigger] flowed(s)[i]) != '\u{2028}' && flowed(s)[i]
                != '\u{2029}',
{
}

/// Whether every run of a paragraph has text, and its table and its footnotes have
/// no paragraph that should have been dropped.
pub open spec fn is_worded(p: ParagraphView) -> bool
    decreases p,
{
    &&& forall|i: int| 0 <= i < p.runs.len() ==> (#[trigger] p.runs[i]).text.len() > 0
    &&& match p.table {
        None => true,
        Some(table) => table_is_kept(table),
    }
    &&& forall|i: int|
        0 <= i < p.footnotes.len() ==> footnote_is_kept(#[trigger] p.footnotes[i])
}

/// Whether this holds of the paragraphs of a footnote, and each has text or a
/// table.
pub open spec fn footnote_is_kept(footnote: FootnoteView) -> bool
    decreases footnote,
{
    forall|i: int|
        0 <= i < footnote.paragraphs.len() ==> is_worded(#[trigger] footnote.paragraphs[i])
            && has_content(footnote.paragraphs[i])
}

/// Whether this holds of the paragraphs of a cell.
pub open spec fn cell_is_kept(cell: TableCellView) -> bool
    decreases cell,
{
    forall|i: int|
        0 <= i < cell.paragraphs.len() ==> is_worded(#[trigger] cell.paragraphs[i])
            && has_content(cell.paragraphs[i])
}

/// Whether this holds of the cells of a table.
pub open spec fn table_is_kept(table: TableView) -> bool
    decreases table,
{
    forall|i: int| 0 <= i < table.cells.len() ==> cell_is_kept(#[trigger] table.cells[i])
}

/// Whether a paragraph has text or a table.
pub open spec fn has_content(p: ParagraphView) -> bool {
    p.runs.len() > 0 || p.table is Some
}

/// Whether every paragraph has text or a table, and every run has text; in the
/// cells of its tables and in its footnotes too, and in theirs, however deep.
pub open spec fn are_kept(paragraphs: Seq<ParagraphView>) -> bool {
    forall|i: int|
        0 <= i < paragraphs.len() ==> is_worded(#[trigger] paragraphs[i]) && has_content(
            paragraphs[i],
        )
}

spec fn may_be_worded(p: Option<ParagraphView>) -> bool {
    p matches Some(p) ==> is_worded(p)
}

spec fn may_be_kept(cell: Option<TableCellView>) -> bool {
    cell matches Some(cell) ==> cell_is_kept(cell)
}

spec fn table_is_tidy(ctx: TableContextView) -> bool {
    &&& may_be_worded(ctx.outer_paragraph)
    &&& may_be_kept(ctx.outer_cell)
    &&& table_is_kept(ctx.table)
}

spec fn footnote_is_tidy(ctx: FootnoteContextView) -> bool {
    &&& may_be_worded(ctx.outer_paragraph)
    &&& footnote_is_kept(ctx.footnote)
}

/// What holds of every story in the making.
#[verifier::opaque]
spec fn is_tidy(st: ProgressView) -> bool {
    &&& are_kept(st.out.paragraphs)
    &&& may_be_worded(st.paragraph)
    &&& may_be_kept(st.cell)
    &&& forall|i: int| 0 <= i < st.tables.len() ==> table_is_tidy(#[trigger] st.tables[i])
    &&& forall|i: int|
        0 <= i < st.footnotes.len() ==> footnote_is_tidy(#[trigger] st.footnotes[i])
}

proof fn lemma_paragraph_is_placed(st: ProgressView, p: ParagraphView)
    requires
        is_tidy(st),
        is_worded(p),
    ensures
        is_tidy(with_paragraph(st, p)),
{
    reveal(is_tidy);
    let after = with_paragraph(st, p);
    if p.runs.len() == 0 && p.table is None {
    } else if st.footnotes.len() > 0 {
        let ctx = st.footnotes.last();
        assert(footnote_is_tidy(ctx));
        assert(footnote_is_kept(ctx.with_paragraph(p).footnote));
        assert forall|i: int| 0 <= i < after.footnotes.len() implies footnote_is_tidy(
            #[trigger] after.footnotes[i],
        ) by {
            if i < st.footnotes.len() - 1 {
                assert(after.footnotes[i] == st.footnotes[i]);
            }
        }
    }
}

proof fn lemma_anchored_tag_is_tidy(st: ProgressView, tag: TagView)
    requires
        is_tidy(st),
    ensures
        is_tidy(after_anchored_tag(st, tag)),
{
    reveal(is_tidy);
    reveal(after_anchored_tag);
}

proof fn lemma_block_start_is_tidy(st: ProgressView, tag: TagView)
    requires
        is_tidy(st),
    ensures
        is_tidy(after_block_start(st, tag)),
{
    reveal(is_tidy);
    reveal(after_block_start);
    let after = after_block_start(st, tag);
    assert forall|i: int| 0 <= i < after.tables.len() implies table_is_tidy(
        #[trigger] after.tables[i],
    ) by {
        if i < st.tables.len() {
            assert(table_is_tidy(st.tables[i]));
        }
    }
    assert forall|i: int| 0 <= i < after.footnotes.len() implies footnote_is_tidy(
        #[trigger] after.footnotes[i],
    ) by {
        if i < st.footnotes.len() {
            assert(footnote_is_tidy(st.footnotes[i]));
        }
    }
}

proof fn lemma_block_end_is_tidy(st: ProgressView, name: Seq<u8>)
    requires
        is_tidy(st),
    ensures
        is_tidy(after_block_end(st, name)),
{
    reveal(is_tidy);
    reveal(after_block_end);
    let after = after_block_end(st, name);
    if st.tables.len() > 0 {
        assert(table_is_tidy(st.tables.last()));
    }
    if st.footnotes.len() > 0 {
        assert(footnote_is_tidy(st.footnotes.last()));
    }
    assert forall|i: int| 0 <= i < after.tables.len() implies table_is_tidy(
        #[trigger] after.tables[i],
    ) by {
        assert(table_is_tidy(st.tables[i]));
    }
    assert forall|i: int| 0 <= i < after.footnotes.len() implies footnote_is_tidy(
        #[trigger] after.footnotes[i],
    ) by {
        assert(footnote_is_tidy(st.footnotes[i]));
    }
}

proof fn lemma_tidy_stays(st: ProgressView, after: ProgressView)
    requires
        is_tidy(st),
        after.out.paragraphs == st.out.paragraphs,
        after.paragraph == st.paragraph || may_be_worded(after.paragraph),
        after.cell == st.cell,
        after.tables == st.tables,
        after.footnotes == st.footnotes,
    ensures
        is_tidy(after),
{
    reveal(is_tidy);
}

proof fn lemma_stop_is_added(p: Option<ParagraphView>, tag: TagView)
    requires
        may_be_worded(p),
    ensures
        may_be_worded(with_stop_of(p, tag)),
{
}

proof fn lemma_paragraph_is_open(st: ProgressView)
    requires
        is_tidy(st),
    ensures
        may_be_worded(st.paragraph),
{
    reveal(is_tidy);
}

proof fn lemma_flow_start_is_tidy(st: ProgressView, tag: TagView)
    requires
        is_tidy(st),
    ensures
        is_tidy(after_flow_start(st, tag)),
{
    let after = after_flow_start(st, tag);
    if tag.is("Table"@) || tag.is("Footnote"@) || tag.is("Cell"@) {
        lemma_block_start_is_tidy(st, tag);
    }
    lemma_paragraph_is_open(st);
    lemma_stop_is_added(st.paragraph, tag);
    assert(is_worded(paragraph_of(tag)));
    assert(is_tidy(after)) by {
        reveal(after_flow_start);
        if after == after_block_start(st, tag) && (tag.is("Table"@) || tag.is("Footnote"@)
            || tag.is("Cell"@)) {
        } else {
            lemma_tidy_stays(st, after);
        }
    }
}

proof fn lemma_flow_empty_is_tidy(st: ProgressView, tag: TagView)
    requires
        is_tidy(st),
    ensures
        is_tidy(after_flow_empty(st, tag)),
{
    reveal(is_tidy);
    reveal(after_flow_empty);
    reveal(after_variable);
    let after = after_flow_empty(st, tag);
    assert forall|i: int| 0 <= i < after.tables.len() implies table_is_tidy(
        #[trigger] after.tables[i],
    ) by {
        assert(table_is_tidy(st.tables[i]));
    }
}

proof fn lemma_flow_end_is_tidy(st: ProgressView, name: Seq<u8>)
    requires
        is_tidy(st),
    ensures
        is_tidy(after_flow_end(st, name)),
{
    reveal(is_tidy);
    reveal(after_flow_end);
    lemma_block_end_is_tidy(st, name);
    if let Some(p) = st.paragraph {
        lemma_paragraph_is_placed(ProgressView { paragraph: None, ..st }, p);
    }
}

proof fn lemma_event_is_tidy(st: ProgressView, event: EventView)
    requires
        is_tidy(st),
    ensures
        is_tidy(after_event(st, event)),
{
    reveal(is_tidy);
    reveal(after_event);
    match event {
        EventView::Open(tag) => {
            if tag.empty {
                reveal(after_empty);
                lemma_anchored_tag_is_tidy(st, tag);
                lemma_flow_empty_is_tidy(st, tag);
            } else {
                reveal(after_start);
                lemma_anchored_tag_is_tidy(st, tag);
                lemma_flow_start_is_tidy(st, tag);
            }
        },
        EventView::End(name) => {
            reveal(after_end);
            lemma_flow_end_is_tidy(st, name);
        },
        _ => {},
    }
}

proof fn lemma_events_are_tidy(events: Seq<EventView>, n: nat)
    ensures
        is_tidy(after_events(events, n)),
    decreases n,
{
    reveal(is_tidy);
    if n > 0 {
        lemma_events_are_tidy(events, (n - 1) as nat);
        lemma_event_is_tidy(after_events(events, (n - 1) as nat), events[n - 1]);
    }
}

/// Every paragraph of a story has text or a table, and every run of it has text;
/// and so do those in its cells and in its footnotes, however deep they stand.
pub proof fn law_story_has_no_empty_paragraph(events: Seq<EventView>)
    ensures
        are_kept(story_of(events).paragraphs),
{
    reveal(is_tidy);
    lemma_events_are_tidy(events, events.len());
}

} // verus!
