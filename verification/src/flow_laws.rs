//! How the text of a story gathers: what is read is added behind what was there,
//! and nothing that was there is lost.
use crate::decimal::written_number;
use crate::story::{
    after_anchored_tag, after_block_end, after_block_start, after_empty, after_end, after_event,
    after_flow_empty, after_flow_end, after_flow_start, after_start, after_variable, anchored_kind,
    column_of, flowed, is_marker, marker_of, row_of, ProgressView, PropertyHost,
};
use crate::story_model::{
    AnchoredFrameView, CharacterRunView, ParagraphView, TableCellView, TableView,
};
use crate::text::trimmed;
use crate::text_attrs::tab_stop_of;
use crate::xml::{law_names_differ, text_content, EventView, TagView};
use vstd::prelude::*;
use vstd::utf8::encode_utf8;

verus! {

/// Whether tags and text are part of the story: outside what is silent, and
/// outside anchored items.
pub open spec fn is_flowing(st: ProgressView) -> bool {
    st.suppress_depth == 0 && st.anchored_depth == 0
}

/// No other name is `Footnote`.
proof fn lemma_footnote_name()
    ensures
        encode_utf8("Footnote"@) != encode_utf8("Content"@),
        encode_utf8("Footnote"@) != encode_utf8("Properties"@),
        encode_utf8("Footnote"@) != encode_utf8("CharacterStyleRange"@),
        encode_utf8("Footnote"@) != encode_utf8("HyperlinkTextSource"@),
        encode_utf8("Footnote"@) != encode_utf8("CrossReferenceSource"@),
        encode_utf8("Footnote"@) != encode_utf8("ParagraphStyleRange"@),
        encode_utf8("Footnote"@) != encode_utf8("Cell"@),
        encode_utf8("Footnote"@) != encode_utf8("Table"@),
{
    reveal_strlit("Footnote");
    reveal_strlit("Content");
    reveal_strlit("Properties");
    reveal_strlit("CharacterStyleRange");
    reveal_strlit("HyperlinkTextSource");
    reveal_strlit("CrossReferenceSource");
    reveal_strlit("ParagraphStyleRange");
    reveal_strlit("Cell");
    reveal_strlit("Table");
    law_names_differ("Footnote"@, "Content"@);
    law_names_differ("Footnote"@, "Properties"@);
    law_names_differ("Footnote"@, "CharacterStyleRange"@);
    law_names_differ("Footnote"@, "HyperlinkTextSource"@);
    law_names_differ("Footnote"@, "CrossReferenceSource"@);
    law_names_differ("Footnote"@, "ParagraphStyleRange"@);
    law_names_differ("Footnote"@, "Cell"@);
    law_names_differ("Footnote"@, "Table"@);
}

/// No other name is `Table`.
proof fn lemma_table_name()
    ensures
        encode_utf8("Table"@) != encode_utf8("Content"@),
        encode_utf8("Table"@) != encode_utf8("Properties"@),
        encode_utf8("Table"@) != encode_utf8("CharacterStyleRange"@),
        encode_utf8("Table"@) != encode_utf8("HyperlinkTextSource"@),
        encode_utf8("Table"@) != encode_utf8("CrossReferenceSource"@),
        encode_utf8("Table"@) != encode_utf8("ParagraphStyleRange"@),
        encode_utf8("Table"@) != encode_utf8("Cell"@),
        encode_utf8("Table"@) != encode_utf8("Footnote"@),
{
    reveal_strlit("Table");
    reveal_strlit("Content");
    reveal_strlit("Properties");
    reveal_strlit("CharacterStyleRange");
    reveal_strlit("HyperlinkTextSource");
    reveal_strlit("CrossReferenceSource");
    reveal_strlit("ParagraphStyleRange");
    reveal_strlit("Cell");
    reveal_strlit("Footnote");
    law_names_differ("Table"@, "Content"@);
    law_names_differ("Table"@, "Properties"@);
    law_names_differ("Table"@, "CharacterStyleRange"@);
    law_names_differ("Table"@, "HyperlinkTextSource"@);
    law_names_differ("Table"@, "CrossReferenceSource"@);
    law_names_differ("Table"@, "ParagraphStyleRange"@);
    law_names_differ("Table"@, "Cell"@);
    law_names_differ("Table"@, "Footnote"@);
}

/// No other name is `Cell`.
proof fn lemma_cell_name()
    ensures
        encode_utf8("Cell"@) != encode_utf8("Content"@),
        encode_utf8("Cell"@) != encode_utf8("Properties"@),
        encode_utf8("Cell"@) != encode_utf8("CharacterStyleRange"@),
        encode_utf8("Cell"@) != encode_utf8("HyperlinkTextSource"@),
        encode_utf8("Cell"@) != encode_utf8("CrossReferenceSource"@),
        encode_utf8("Cell"@) != encode_utf8("ParagraphStyleRange"@),
        encode_utf8("Cell"@) != encode_utf8("Table"@),
        encode_utf8("Cell"@) != encode_utf8("Footnote"@),
{
    reveal_strlit("Cell");
    reveal_strlit("Content");
    reveal_strlit("Properties");
    reveal_strlit("CharacterStyleRange");
    reveal_strlit("HyperlinkTextSource");
    reveal_strlit("CrossReferenceSource");
    reveal_strlit("ParagraphStyleRange");
    reveal_strlit("Table");
    reveal_strlit("Footnote");
    law_names_differ("Cell"@, "Content"@);
    law_names_differ("Cell"@, "Properties"@);
    law_names_differ("Cell"@, "CharacterStyleRange"@);
    law_names_differ("Cell"@, "HyperlinkTextSource"@);
    law_names_differ("Cell"@, "CrossReferenceSource"@);
    law_names_differ("Cell"@, "ParagraphStyleRange"@);
    law_names_differ("Cell"@, "Table"@);
    law_names_differ("Cell"@, "Footnote"@);
}

/// No other name is `CharacterStyleRange`.
proof fn lemma_run_name()
    ensures
        encode_utf8("CharacterStyleRange"@) != encode_utf8("Content"@),
        encode_utf8("CharacterStyleRange"@) != encode_utf8("Properties"@),
        encode_utf8("CharacterStyleRange"@) != encode_utf8("HyperlinkTextSource"@),
        encode_utf8("CharacterStyleRange"@) != encode_utf8("CrossReferenceSource"@),
        encode_utf8("CharacterStyleRange"@) != encode_utf8("ParagraphStyleRange"@),
        encode_utf8("CharacterStyleRange"@) != encode_utf8("Cell"@),
        encode_utf8("CharacterStyleRange"@) != encode_utf8("Table"@),
        encode_utf8("CharacterStyleRange"@) != encode_utf8("Footnote"@),
        encode_utf8("CharacterStyleRange"@) != encode_utf8("Story"@),
        encode_utf8("CharacterStyleRange"@) != encode_utf8("StoryPreference"@),
        encode_utf8("CharacterStyleRange"@) != encode_utf8("TabStop"@),
        encode_utf8("CharacterStyleRange"@) != encode_utf8("TextFrame"@),
        encode_utf8("CharacterStyleRange"@) != encode_utf8("Rectangle"@),
        encode_utf8("CharacterStyleRange"@) != encode_utf8("Group"@),
        encode_utf8("CharacterStyleRange"@) != encode_utf8("HiddenText"@),
        encode_utf8("CharacterStyleRange"@) != encode_utf8("Note"@),
        encode_utf8("CharacterStyleRange"@) != encode_utf8("Index"@),
        encode_utf8("CharacterStyleRange"@) != encode_utf8("IndexEntry"@),
{
    reveal_strlit("CharacterStyleRange");
    reveal_strlit("Content");
    reveal_strlit("Properties");
    reveal_strlit("HyperlinkTextSource");
    reveal_strlit("CrossReferenceSource");
    reveal_strlit("ParagraphStyleRange");
    reveal_strlit("Cell");
    reveal_strlit("Table");
    reveal_strlit("Footnote");
    reveal_strlit("Story");
    reveal_strlit("StoryPreference");
    reveal_strlit("TabStop");
    reveal_strlit("TextFrame");
    reveal_strlit("Rectangle");
    reveal_strlit("Group");
    reveal_strlit("HiddenText");
    reveal_strlit("Note");
    reveal_strlit("Index");
    reveal_strlit("IndexEntry");
    law_names_differ("CharacterStyleRange"@, "Content"@);
    law_names_differ("CharacterStyleRange"@, "Properties"@);
    assert("CharacterStyleRange"@[0] != "HyperlinkTextSource"@[0]);
    law_names_differ("CharacterStyleRange"@, "HyperlinkTextSource"@);
    law_names_differ("CharacterStyleRange"@, "CrossReferenceSource"@);
    assert("CharacterStyleRange"@[0] != "ParagraphStyleRange"@[0]);
    law_names_differ("CharacterStyleRange"@, "ParagraphStyleRange"@);
    law_names_differ("CharacterStyleRange"@, "Cell"@);
    law_names_differ("CharacterStyleRange"@, "Table"@);
    law_names_differ("CharacterStyleRange"@, "Footnote"@);
    law_names_differ("CharacterStyleRange"@, "Story"@);
    law_names_differ("CharacterStyleRange"@, "StoryPreference"@);
    law_names_differ("CharacterStyleRange"@, "TabStop"@);
    law_names_differ("CharacterStyleRange"@, "TextFrame"@);
    law_names_differ("CharacterStyleRange"@, "Rectangle"@);
    law_names_differ("CharacterStyleRange"@, "Group"@);
    law_names_differ("CharacterStyleRange"@, "HiddenText"@);
    law_names_differ("CharacterStyleRange"@, "Note"@);
    law_names_differ("CharacterStyleRange"@, "Index"@);
    law_names_differ("CharacterStyleRange"@, "IndexEntry"@);
}

/// No other name is `ParagraphStyleRange`.
proof fn lemma_paragraph_name()
    ensures
        encode_utf8("ParagraphStyleRange"@) != encode_utf8("Content"@),
        encode_utf8("ParagraphStyleRange"@) != encode_utf8("Properties"@),
        encode_utf8("ParagraphStyleRange"@) != encode_utf8("CharacterStyleRange"@),
        encode_utf8("ParagraphStyleRange"@) != encode_utf8("HyperlinkTextSource"@),
        encode_utf8("ParagraphStyleRange"@) != encode_utf8("CrossReferenceSource"@),
        encode_utf8("ParagraphStyleRange"@) != encode_utf8("Cell"@),
        encode_utf8("ParagraphStyleRange"@) != encode_utf8("Table"@),
        encode_utf8("ParagraphStyleRange"@) != encode_utf8("Footnote"@),
        encode_utf8("ParagraphStyleRange"@) != encode_utf8("Story"@),
        encode_utf8("ParagraphStyleRange"@) != encode_utf8("StoryPreference"@),
        encode_utf8("ParagraphStyleRange"@) != encode_utf8("TabStop"@),
        encode_utf8("ParagraphStyleRange"@) != encode_utf8("TextFrame"@),
        encode_utf8("ParagraphStyleRange"@) != encode_utf8("Rectangle"@),
        encode_utf8("ParagraphStyleRange"@) != encode_utf8("Group"@),
        encode_utf8("ParagraphStyleRange"@) != encode_utf8("HiddenText"@),
        encode_utf8("ParagraphStyleRange"@) != encode_utf8("Note"@),
        encode_utf8("ParagraphStyleRange"@) != encode_utf8("Index"@),
        encode_utf8("ParagraphStyleRange"@) != encode_utf8("IndexEntry"@),
{
    reveal_strlit("ParagraphStyleRange");
    reveal_strlit("Content");
    reveal_strlit("Properties");
    reveal_strlit("CharacterStyleRange");
    reveal_strlit("HyperlinkTextSource");
    reveal_strlit("CrossReferenceSource");
    reveal_strlit("Cell");
    reveal_strlit("Table");
    reveal_strlit("Footnote");
    reveal_strlit("Story");
    reveal_strlit("StoryPreference");
    reveal_strlit("TabStop");
    reveal_strlit("TextFrame");
    reveal_strlit("Rectangle");
    reveal_strlit("Group");
    reveal_strlit("HiddenText");
    reveal_strlit("Note");
    reveal_strlit("Index");
    reveal_strlit("IndexEntry");
    law_names_differ("ParagraphStyleRange"@, "Content"@);
    law_names_differ("ParagraphStyleRange"@, "Properties"@);
    assert("ParagraphStyleRange"@[0] != "CharacterStyleRange"@[0]);
    law_names_differ("ParagraphStyleRange"@, "CharacterStyleRange"@);
    assert("ParagraphStyleRange"@[0] != "HyperlinkTextSource"@[0]);
    law_names_differ("ParagraphStyleRange"@, "HyperlinkTextSource"@);
    law_names_differ("ParagraphStyleRange"@, "CrossReferenceSource"@);
    law_names_differ("ParagraphStyleRange"@, "Cell"@);
    law_names_differ("ParagraphStyleRange"@, "Table"@);
    law_names_differ("ParagraphStyleRange"@, "Footnote"@);
    law_names_differ("ParagraphStyleRange"@, "Story"@);
    law_names_differ("ParagraphStyleRange"@, "StoryPreference"@);
    law_names_differ("ParagraphStyleRange"@, "TabStop"@);
    law_names_differ("ParagraphStyleRange"@, "TextFrame"@);
    law_names_differ("ParagraphStyleRange"@, "Rectangle"@);
    law_names_differ("ParagraphStyleRange"@, "Group"@);
    law_names_differ("ParagraphStyleRange"@, "HiddenText"@);
    law_names_differ("ParagraphStyleRange"@, "Note"@);
    law_names_differ("ParagraphStyleRange"@, "Index"@);
    law_names_differ("ParagraphStyleRange"@, "IndexEntry"@);
}

/// No other name is `TabStop`.
proof fn lemma_stop_name()
    ensures
        encode_utf8("TabStop"@) != encode_utf8("Story"@),
        encode_utf8("TabStop"@) != encode_utf8("HyperlinkTextSource"@),
        encode_utf8("TabStop"@) != encode_utf8("CrossReferenceSource"@),
        encode_utf8("TabStop"@) != encode_utf8("StoryPreference"@),
        encode_utf8("TabStop"@) != encode_utf8("ParagraphStyleRange"@),
        encode_utf8("TabStop"@) != encode_utf8("Table"@),
        encode_utf8("TabStop"@) != encode_utf8("Footnote"@),
        encode_utf8("TabStop"@) != encode_utf8("Cell"@),
        encode_utf8("TabStop"@) != encode_utf8("CharacterStyleRange"@),
        encode_utf8("TabStop"@) != encode_utf8("Content"@),
        encode_utf8("TabStop"@) != encode_utf8("Properties"@),
        encode_utf8("TabStop"@) != encode_utf8("TextFrame"@),
        encode_utf8("TabStop"@) != encode_utf8("Rectangle"@),
        encode_utf8("TabStop"@) != encode_utf8("Group"@),
        encode_utf8("TabStop"@) != encode_utf8("HiddenText"@),
        encode_utf8("TabStop"@) != encode_utf8("Note"@),
        encode_utf8("TabStop"@) != encode_utf8("Index"@),
        encode_utf8("TabStop"@) != encode_utf8("IndexEntry"@),
        encode_utf8("TabStop"@) != encode_utf8("PageReference"@),
        encode_utf8("TabStop"@) != encode_utf8("BulletChar"@),
        encode_utf8("TabStop"@) != encode_utf8("Br"@),
        encode_utf8("TabStop"@) != encode_utf8("TextVariableInstance"@),
        encode_utf8("TabStop"@) != encode_utf8("Tab"@),
        encode_utf8("TabStop"@) != encode_utf8("Row"@),
        encode_utf8("TabStop"@) != encode_utf8("Column"@),
{
    reveal_strlit("TabStop");
    reveal_strlit("Story");
    reveal_strlit("HyperlinkTextSource");
    reveal_strlit("CrossReferenceSource");
    reveal_strlit("StoryPreference");
    reveal_strlit("ParagraphStyleRange");
    reveal_strlit("Table");
    reveal_strlit("Footnote");
    reveal_strlit("Cell");
    reveal_strlit("CharacterStyleRange");
    reveal_strlit("Content");
    reveal_strlit("Properties");
    reveal_strlit("TextFrame");
    reveal_strlit("Rectangle");
    reveal_strlit("Group");
    reveal_strlit("HiddenText");
    reveal_strlit("Note");
    reveal_strlit("Index");
    reveal_strlit("IndexEntry");
    reveal_strlit("PageReference");
    reveal_strlit("BulletChar");
    reveal_strlit("Br");
    reveal_strlit("TextVariableInstance");
    reveal_strlit("Tab");
    reveal_strlit("Row");
    reveal_strlit("Column");
    law_names_differ("TabStop"@, "Story"@);
    law_names_differ("TabStop"@, "HyperlinkTextSource"@);
    law_names_differ("TabStop"@, "CrossReferenceSource"@);
    law_names_differ("TabStop"@, "StoryPreference"@);
    law_names_differ("TabStop"@, "ParagraphStyleRange"@);
    law_names_differ("TabStop"@, "Table"@);
    law_names_differ("TabStop"@, "Footnote"@);
    law_names_differ("TabStop"@, "Cell"@);
    law_names_differ("TabStop"@, "CharacterStyleRange"@);
    assert("TabStop"@[0] != "Content"@[0]);
    law_names_differ("TabStop"@, "Content"@);
    law_names_differ("TabStop"@, "Properties"@);
    law_names_differ("TabStop"@, "TextFrame"@);
    law_names_differ("TabStop"@, "Rectangle"@);
    law_names_differ("TabStop"@, "Group"@);
    law_names_differ("TabStop"@, "HiddenText"@);
    law_names_differ("TabStop"@, "Note"@);
    law_names_differ("TabStop"@, "Index"@);
    law_names_differ("TabStop"@, "IndexEntry"@);
    law_names_differ("TabStop"@, "PageReference"@);
    law_names_differ("TabStop"@, "BulletChar"@);
    law_names_differ("TabStop"@, "Br"@);
    law_names_differ("TabStop"@, "TextVariableInstance"@);
    law_names_differ("TabStop"@, "Tab"@);
    law_names_differ("TabStop"@, "Row"@);
    law_names_differ("TabStop"@, "Column"@);
}

/// No other name is `Row`.
proof fn lemma_row_name()
    ensures
        encode_utf8("Row"@) != encode_utf8("PageReference"@),
        encode_utf8("Row"@) != encode_utf8("StoryPreference"@),
        encode_utf8("Row"@) != encode_utf8("BulletChar"@),
        encode_utf8("Row"@) != encode_utf8("Br"@),
        encode_utf8("Row"@) != encode_utf8("TextVariableInstance"@),
        encode_utf8("Row"@) != encode_utf8("Tab"@),
        encode_utf8("Row"@) != encode_utf8("TabStop"@),
        encode_utf8("Row"@) != encode_utf8("Column"@),
        encode_utf8("Row"@) != encode_utf8("HiddenText"@),
        encode_utf8("Row"@) != encode_utf8("Note"@),
        encode_utf8("Row"@) != encode_utf8("Index"@),
        encode_utf8("Row"@) != encode_utf8("IndexEntry"@),
        encode_utf8("Row"@) != encode_utf8("TextFrame"@),
        encode_utf8("Row"@) != encode_utf8("Rectangle"@),
        encode_utf8("Row"@) != encode_utf8("Group"@),
{
    reveal_strlit("Row");
    reveal_strlit("PageReference");
    reveal_strlit("StoryPreference");
    reveal_strlit("BulletChar");
    reveal_strlit("Br");
    reveal_strlit("TextVariableInstance");
    reveal_strlit("Tab");
    reveal_strlit("TabStop");
    reveal_strlit("Column");
    reveal_strlit("HiddenText");
    reveal_strlit("Note");
    reveal_strlit("Index");
    reveal_strlit("IndexEntry");
    reveal_strlit("TextFrame");
    reveal_strlit("Rectangle");
    reveal_strlit("Group");
    law_names_differ("Row"@, "PageReference"@);
    law_names_differ("Row"@, "StoryPreference"@);
    law_names_differ("Row"@, "BulletChar"@);
    law_names_differ("Row"@, "Br"@);
    law_names_differ("Row"@, "TextVariableInstance"@);
    assert("Row"@[0] != "Tab"@[0]);
    law_names_differ("Row"@, "Tab"@);
    law_names_differ("Row"@, "TabStop"@);
    law_names_differ("Row"@, "Column"@);
    law_names_differ("Row"@, "HiddenText"@);
    law_names_differ("Row"@, "Note"@);
    law_names_differ("Row"@, "Index"@);
    law_names_differ("Row"@, "IndexEntry"@);
    law_names_differ("Row"@, "TextFrame"@);
    law_names_differ("Row"@, "Rectangle"@);
    law_names_differ("Row"@, "Group"@);
}

/// No other name is `Column`.
proof fn lemma_column_name()
    ensures
        encode_utf8("Column"@) != encode_utf8("PageReference"@),
        encode_utf8("Column"@) != encode_utf8("StoryPreference"@),
        encode_utf8("Column"@) != encode_utf8("BulletChar"@),
        encode_utf8("Column"@) != encode_utf8("Br"@),
        encode_utf8("Column"@) != encode_utf8("TextVariableInstance"@),
        encode_utf8("Column"@) != encode_utf8("Tab"@),
        encode_utf8("Column"@) != encode_utf8("TabStop"@),
        encode_utf8("Column"@) != encode_utf8("Row"@),
        encode_utf8("Column"@) != encode_utf8("HiddenText"@),
        encode_utf8("Column"@) != encode_utf8("Note"@),
        encode_utf8("Column"@) != encode_utf8("Index"@),
        encode_utf8("Column"@) != encode_utf8("IndexEntry"@),
        encode_utf8("Column"@) != encode_utf8("TextFrame"@),
        encode_utf8("Column"@) != encode_utf8("Rectangle"@),
        encode_utf8("Column"@) != encode_utf8("Group"@),
{
    reveal_strlit("Column");
    reveal_strlit("PageReference");
    reveal_strlit("StoryPreference");
    reveal_strlit("BulletChar");
    reveal_strlit("Br");
    reveal_strlit("TextVariableInstance");
    reveal_strlit("Tab");
    reveal_strlit("TabStop");
    reveal_strlit("Row");
    reveal_strlit("HiddenText");
    reveal_strlit("Note");
    reveal_strlit("Index");
    reveal_strlit("IndexEntry");
    reveal_strlit("TextFrame");
    reveal_strlit("Rectangle");
    reveal_strlit("Group");
    law_names_differ("Column"@, "PageReference"@);
    law_names_differ("Column"@, "StoryPreference"@);
    law_names_differ("Column"@, "BulletChar"@);
    law_names_differ("Column"@, "Br"@);
    law_names_differ("Column"@, "TextVariableInstance"@);
    law_names_differ("Column"@, "Tab"@);
    law_names_differ("Column"@, "TabStop"@);
    law_names_differ("Column"@, "Row"@);
    law_names_differ("Column"@, "HiddenText"@);
    law_names_differ("Column"@, "Note"@);
    law_names_differ("Column"@, "Index"@);
    law_names_differ("Column"@, "IndexEntry"@);
    law_names_differ("Column"@, "TextFrame"@);
    law_names_differ("Column"@, "Rectangle"@);
    law_names_differ("Column"@, "Group"@);
}

/// No other name is `Br`.
proof fn lemma_break_name()
    ensures
        encode_utf8("Br"@) != encode_utf8("PageReference"@),
        encode_utf8("Br"@) != encode_utf8("StoryPreference"@),
        encode_utf8("Br"@) != encode_utf8("BulletChar"@),
        encode_utf8("Br"@) != encode_utf8("TextVariableInstance"@),
        encode_utf8("Br"@) != encode_utf8("Tab"@),
        encode_utf8("Br"@) != encode_utf8("TabStop"@),
        encode_utf8("Br"@) != encode_utf8("Row"@),
        encode_utf8("Br"@) != encode_utf8("Column"@),
        encode_utf8("Br"@) != encode_utf8("HiddenText"@),
        encode_utf8("Br"@) != encode_utf8("Note"@),
        encode_utf8("Br"@) != encode_utf8("Index"@),
        encode_utf8("Br"@) != encode_utf8("IndexEntry"@),
        encode_utf8("Br"@) != encode_utf8("TextFrame"@),
        encode_utf8("Br"@) != encode_utf8("Rectangle"@),
        encode_utf8("Br"@) != encode_utf8("Group"@),
{
    reveal_strlit("Br");
    reveal_strlit("PageReference");
    reveal_strlit("StoryPreference");
    reveal_strlit("BulletChar");
    reveal_strlit("TextVariableInstance");
    reveal_strlit("Tab");
    reveal_strlit("TabStop");
    reveal_strlit("Row");
    reveal_strlit("Column");
    reveal_strlit("HiddenText");
    reveal_strlit("Note");
    reveal_strlit("Index");
    reveal_strlit("IndexEntry");
    reveal_strlit("TextFrame");
    reveal_strlit("Rectangle");
    reveal_strlit("Group");
    law_names_differ("Br"@, "PageReference"@);
    law_names_differ("Br"@, "StoryPreference"@);
    law_names_differ("Br"@, "BulletChar"@);
    law_names_differ("Br"@, "TextVariableInstance"@);
    law_names_differ("Br"@, "Tab"@);
    law_names_differ("Br"@, "TabStop"@);
    law_names_differ("Br"@, "Row"@);
    law_names_differ("Br"@, "Column"@);
    law_names_differ("Br"@, "HiddenText"@);
    law_names_differ("Br"@, "Note"@);
    law_names_differ("Br"@, "Index"@);
    law_names_differ("Br"@, "IndexEntry"@);
    law_names_differ("Br"@, "TextFrame"@);
    law_names_differ("Br"@, "Rectangle"@);
    law_names_differ("Br"@, "Group"@);
}

/// No other name is `Tab`.
proof fn lemma_tab_name()
    ensures
        encode_utf8("Tab"@) != encode_utf8("PageReference"@),
        encode_utf8("Tab"@) != encode_utf8("StoryPreference"@),
        encode_utf8("Tab"@) != encode_utf8("BulletChar"@),
        encode_utf8("Tab"@) != encode_utf8("Br"@),
        encode_utf8("Tab"@) != encode_utf8("TextVariableInstance"@),
        encode_utf8("Tab"@) != encode_utf8("TabStop"@),
        encode_utf8("Tab"@) != encode_utf8("Row"@),
        encode_utf8("Tab"@) != encode_utf8("Column"@),
        encode_utf8("Tab"@) != encode_utf8("HiddenText"@),
        encode_utf8("Tab"@) != encode_utf8("Note"@),
        encode_utf8("Tab"@) != encode_utf8("Index"@),
        encode_utf8("Tab"@) != encode_utf8("IndexEntry"@),
        encode_utf8("Tab"@) != encode_utf8("TextFrame"@),
        encode_utf8("Tab"@) != encode_utf8("Rectangle"@),
        encode_utf8("Tab"@) != encode_utf8("Group"@),
{
    reveal_strlit("Tab");
    reveal_strlit("PageReference");
    reveal_strlit("StoryPreference");
    reveal_strlit("BulletChar");
    reveal_strlit("Br");
    reveal_strlit("TextVariableInstance");
    reveal_strlit("TabStop");
    reveal_strlit("Row");
    reveal_strlit("Column");
    reveal_strlit("HiddenText");
    reveal_strlit("Note");
    reveal_strlit("Index");
    reveal_strlit("IndexEntry");
    reveal_strlit("TextFrame");
    reveal_strlit("Rectangle");
    reveal_strlit("Group");
    law_names_differ("Tab"@, "PageReference"@);
    law_names_differ("Tab"@, "StoryPreference"@);
    law_names_differ("Tab"@, "BulletChar"@);
    law_names_differ("Tab"@, "Br"@);
    law_names_differ("Tab"@, "TextVariableInstance"@);
    law_names_differ("Tab"@, "TabStop"@);
    assert("Tab"@[0] != "Row"@[0]);
    law_names_differ("Tab"@, "Row"@);
    law_names_differ("Tab"@, "Column"@);
    law_names_differ("Tab"@, "HiddenText"@);
    law_names_differ("Tab"@, "Note"@);
    law_names_differ("Tab"@, "Index"@);
    law_names_differ("Tab"@, "IndexEntry"@);
    law_names_differ("Tab"@, "TextFrame"@);
    law_names_differ("Tab"@, "Rectangle"@);
    law_names_differ("Tab"@, "Group"@);
}

/// No other name is `BulletChar`.
proof fn lemma_bullet_name()
    ensures
        encode_utf8("BulletChar"@) != encode_utf8("PageReference"@),
        encode_utf8("BulletChar"@) != encode_utf8("StoryPreference"@),
        encode_utf8("BulletChar"@) != encode_utf8("Br"@),
        encode_utf8("BulletChar"@) != encode_utf8("TextVariableInstance"@),
        encode_utf8("BulletChar"@) != encode_utf8("Tab"@),
        encode_utf8("BulletChar"@) != encode_utf8("TabStop"@),
        encode_utf8("BulletChar"@) != encode_utf8("Row"@),
        encode_utf8("BulletChar"@) != encode_utf8("Column"@),
        encode_utf8("BulletChar"@) != encode_utf8("HiddenText"@),
        encode_utf8("BulletChar"@) != encode_utf8("Note"@),
        encode_utf8("BulletChar"@) != encode_utf8("Index"@),
        encode_utf8("BulletChar"@) != encode_utf8("IndexEntry"@),
        encode_utf8("BulletChar"@) != encode_utf8("TextFrame"@),
        encode_utf8("BulletChar"@) != encode_utf8("Rectangle"@),
        encode_utf8("BulletChar"@) != encode_utf8("Group"@),
{
    reveal_strlit("BulletChar");
    reveal_strlit("PageReference");
    reveal_strlit("StoryPreference");
    reveal_strlit("Br");
    reveal_strlit("TextVariableInstance");
    reveal_strlit("Tab");
    reveal_strlit("TabStop");
    reveal_strlit("Row");
    reveal_strlit("Column");
    reveal_strlit("HiddenText");
    reveal_strlit("Note");
    reveal_strlit("Index");
    reveal_strlit("IndexEntry");
    reveal_strlit("TextFrame");
    reveal_strlit("Rectangle");
    reveal_strlit("Group");
    law_names_differ("BulletChar"@, "PageReference"@);
    law_names_differ("BulletChar"@, "StoryPreference"@);
    law_names_differ("BulletChar"@, "Br"@);
    law_names_differ("BulletChar"@, "TextVariableInstance"@);
    law_names_differ("BulletChar"@, "Tab"@);
    law_names_differ("BulletChar"@, "TabStop"@);
    law_names_differ("BulletChar"@, "Row"@);
    law_names_differ("BulletChar"@, "Column"@);
    assert("BulletChar"@[0] != "HiddenText"@[0]);
    law_names_differ("BulletChar"@, "HiddenText"@);
    law_names_differ("BulletChar"@, "Note"@);
    law_names_differ("BulletChar"@, "Index"@);
    assert("BulletChar"@[0] != "IndexEntry"@[0]);
    law_names_differ("BulletChar"@, "IndexEntry"@);
    law_names_differ("BulletChar"@, "TextFrame"@);
    law_names_differ("BulletChar"@, "Rectangle"@);
    law_names_differ("BulletChar"@, "Group"@);
}

/// No other name is `StoryPreference`.
proof fn lemma_preference_name()
    ensures
        encode_utf8("StoryPreference"@) != encode_utf8("PageReference"@),
        encode_utf8("StoryPreference"@) != encode_utf8("BulletChar"@),
        encode_utf8("StoryPreference"@) != encode_utf8("Br"@),
        encode_utf8("StoryPreference"@) != encode_utf8("TextVariableInstance"@),
        encode_utf8("StoryPreference"@) != encode_utf8("Tab"@),
        encode_utf8("StoryPreference"@) != encode_utf8("TabStop"@),
        encode_utf8("StoryPreference"@) != encode_utf8("Row"@),
        encode_utf8("StoryPreference"@) != encode_utf8("Column"@),
        encode_utf8("StoryPreference"@) != encode_utf8("HiddenText"@),
        encode_utf8("StoryPreference"@) != encode_utf8("Note"@),
        encode_utf8("StoryPreference"@) != encode_utf8("Index"@),
        encode_utf8("StoryPreference"@) != encode_utf8("IndexEntry"@),
        encode_utf8("StoryPreference"@) != encode_utf8("TextFrame"@),
        encode_utf8("StoryPreference"@) != encode_utf8("Rectangle"@),
        encode_utf8("StoryPreference"@) != encode_utf8("Group"@),
{
    reveal_strlit("StoryPreference");
    reveal_strlit("PageReference");
    reveal_strlit("BulletChar");
    reveal_strlit("Br");
    reveal_strlit("TextVariableInstance");
    reveal_strlit("Tab");
    reveal_strlit("TabStop");
    reveal_strlit("Row");
    reveal_strlit("Column");
    reveal_strlit("HiddenText");
    reveal_strlit("Note");
    reveal_strlit("Index");
    reveal_strlit("IndexEntry");
    reveal_strlit("TextFrame");
    reveal_strlit("Rectangle");
    reveal_strlit("Group");
    law_names_differ("StoryPreference"@, "PageReference"@);
    law_names_differ("StoryPreference"@, "BulletChar"@);
    law_names_differ("StoryPreference"@, "Br"@);
    law_names_differ("StoryPreference"@, "TextVariableInstance"@);
    law_names_differ("StoryPreference"@, "Tab"@);
    law_names_differ("StoryPreference"@, "TabStop"@);
    law_names_differ("StoryPreference"@, "Row"@);
    law_names_differ("StoryPreference"@, "Column"@);
    law_names_differ("StoryPreference"@, "HiddenText"@);
    law_names_differ("StoryPreference"@, "Note"@);
    law_names_differ("StoryPreference"@, "Index"@);
    law_names_differ("StoryPreference"@, "IndexEntry"@);
    law_names_differ("StoryPreference"@, "TextFrame"@);
    law_names_differ("StoryPreference"@, "Rectangle"@);
    law_names_differ("StoryPreference"@, "Group"@);
}

/// No other property is `AppliedFont`.
proof fn lemma_font_name()
    ensures
        encode_utf8("AppliedFont"@) != encode_utf8("Content"@),
        encode_utf8("AppliedFont"@) != encode_utf8("Properties"@),
        encode_utf8("AppliedFont"@) != encode_utf8("FontStyle"@),
        encode_utf8("AppliedFont"@) != encode_utf8("Leading"@),
{
    reveal_strlit("AppliedFont");
    reveal_strlit("Content");
    reveal_strlit("Properties");
    reveal_strlit("FontStyle");
    reveal_strlit("Leading");
    law_names_differ("AppliedFont"@, "Content"@);
    law_names_differ("AppliedFont"@, "Properties"@);
    law_names_differ("AppliedFont"@, "FontStyle"@);
    law_names_differ("AppliedFont"@, "Leading"@);
}

/// No other property is `FontStyle`.
proof fn lemma_font_style_name()
    ensures
        encode_utf8("FontStyle"@) != encode_utf8("Content"@),
        encode_utf8("FontStyle"@) != encode_utf8("Properties"@),
        encode_utf8("FontStyle"@) != encode_utf8("AppliedFont"@),
        encode_utf8("FontStyle"@) != encode_utf8("Leading"@),
{
    reveal_strlit("FontStyle");
    reveal_strlit("Content");
    reveal_strlit("Properties");
    reveal_strlit("AppliedFont");
    reveal_strlit("Leading");
    law_names_differ("FontStyle"@, "Content"@);
    law_names_differ("FontStyle"@, "Properties"@);
    law_names_differ("FontStyle"@, "AppliedFont"@);
    law_names_differ("FontStyle"@, "Leading"@);
}

/// No other property is `Leading`.
proof fn lemma_leading_name()
    ensures
        encode_utf8("Leading"@) != encode_utf8("Content"@),
        encode_utf8("Leading"@) != encode_utf8("Properties"@),
        encode_utf8("Leading"@) != encode_utf8("AppliedFont"@),
        encode_utf8("Leading"@) != encode_utf8("FontStyle"@),
{
    reveal_strlit("Leading");
    reveal_strlit("Content");
    reveal_strlit("Properties");
    reveal_strlit("AppliedFont");
    reveal_strlit("FontStyle");
    assert("Leading"@[0] != "Content"@[0]);
    law_names_differ("Leading"@, "Content"@);
    law_names_differ("Leading"@, "Properties"@);
    law_names_differ("Leading"@, "AppliedFont"@);
    law_names_differ("Leading"@, "FontStyle"@);
}

/// The tag that closes a footnote puts it behind the footnotes that the paragraph
/// round it had, all of which stay; the rest of the paragraph is as it was.
pub proof fn law_footnotes_gather(st: ProgressView, p: ParagraphView)
    requires
        is_flowing(st),
        st.properties == PropertyHost::Nothing,
        st.footnotes.len() > 0,
        st.footnotes.last().outer_paragraph == Some(p),
    ensures
        after_event(st, EventView::End(encode_utf8("Footnote"@))).paragraph matches Some(q) && {
            &&& q.footnotes.len() == p.footnotes.len() + 1
            &&& q.footnotes.take(p.footnotes.len() as int) == p.footnotes
            &&& q.footnotes.last() == st.footnotes.last().footnote
            &&& q == (ParagraphView { footnotes: q.footnotes, ..p })
        },
{
    reveal(after_event);
    reveal(after_end);
    reveal(after_flow_end);
    reveal(after_block_end);
    lemma_footnote_name();
    let note = st.footnotes.last().footnote;
    assert(p.footnotes.push(note).take(p.footnotes.len() as int) =~= p.footnotes);
}

/// The tag that closes a table sets it into the paragraph, whose rest is as it was.
pub proof fn law_table_leaves_the_rest(st: ProgressView, p: ParagraphView)
    requires
        is_flowing(st),
        st.properties == PropertyHost::Nothing,
        st.tables.len() > 0,
        st.paragraph == Some(p),
    ensures
        after_event(st, EventView::End(encode_utf8("Table"@))).paragraph == Some(
            ParagraphView { table: Some(st.tables.last().table), ..p },
        ),
{
    reveal(after_event);
    reveal(after_end);
    reveal(after_flow_end);
    reveal(after_block_end);
    lemma_table_name();
}

/// The tag that closes a cell puts it behind the cells that the table had, all of
/// which stay; the rest of the table is as it was.
pub proof fn law_cells_gather(st: ProgressView, cell: TableCellView)
    requires
        is_flowing(st),
        st.properties == PropertyHost::Nothing,
        st.tables.len() > 0,
        st.cell == Some(cell),
    ensures
        ({
            let after = after_event(st, EventView::End(encode_utf8("Cell"@)));
            let t = st.tables.last().table;
            let u = after.tables.last().table;
            &&& after.tables.len() == st.tables.len()
            &&& after.tables.drop_last() == st.tables.drop_last()
            &&& u.cells.len() == t.cells.len() + 1
            &&& u.cells.take(t.cells.len() as int) == t.cells
            &&& u.cells.last() == cell
            &&& u == (TableView { cells: u.cells, ..t })
        }),
{
    reveal(after_event);
    reveal(after_end);
    reveal(after_flow_end);
    reveal(after_block_end);
    lemma_cell_name();
    let after = after_event(st, EventView::End(encode_utf8("Cell"@)));
    let t = st.tables.last().table;
    assert(t.cells.push(cell).take(t.cells.len() as int) =~= t.cells);
    assert(after.tables.drop_last() =~= st.tables.drop_last());
}

/// The tag that closes a run puts it behind the runs that the paragraph had, all
/// of which stay, unless the run has no text; the rest of the paragraph is as it
/// was.
pub proof fn law_runs_gather(st: ProgressView, p: ParagraphView, run: CharacterRunView)
    requires
        is_flowing(st),
        st.properties == PropertyHost::Nothing,
        st.paragraph == Some(p),
        st.run == Some(run),
    ensures
        ({
            let after = after_event(st, EventView::End(encode_utf8("CharacterStyleRange"@)));
            &&& after.run is None
            &&& after.paragraph matches Some(q) && {
                &&& q == (ParagraphView { runs: q.runs, ..p })
                &&& q.runs.len() == p.runs.len() + if run.text.len() > 0 {
                    1int
                } else {
                    0int
                }
                &&& q.runs.take(p.runs.len() as int) == p.runs
                &&& run.text.len() > 0 ==> q.runs.last() == run
            }
        }),
{
    reveal(after_event);
    reveal(after_end);
    reveal(after_flow_end);
    lemma_run_name();
    assert(p.runs.push(run).take(p.runs.len() as int) =~= p.runs);
    assert(p.runs.take(p.runs.len() as int) =~= p.runs);
}

/// The tag that closes a paragraph puts it, where it has text or a table, behind
/// the paragraphs of the footnote that is open, else of the cell that is open,
/// else of the story; all that were there stay, and nothing else changes.
pub proof fn law_paragraphs_gather(st: ProgressView, p: ParagraphView)
    requires
        is_flowing(st),
        st.properties == PropertyHost::Nothing,
        st.paragraph == Some(p),
        p.runs.len() > 0 || p.table is Some,
    ensures
        ({
            let after = after_event(st, EventView::End(encode_utf8("ParagraphStyleRange"@)));
            &&& after.paragraph is None
            &&& after.run == st.run
            &&& after.tables == st.tables
            &&& if st.footnotes.len() > 0 {
                let f = st.footnotes.last().footnote;
                let g = after.footnotes.last().footnote;
                &&& after.out.paragraphs == st.out.paragraphs
                &&& after.cell == st.cell
                &&& after.footnotes.len() == st.footnotes.len()
                &&& after.footnotes.drop_last() == st.footnotes.drop_last()
                &&& g.self_id == f.self_id
                &&& g.paragraphs.len() == f.paragraphs.len() + 1
                &&& g.paragraphs.take(f.paragraphs.len() as int) == f.paragraphs
                &&& g.paragraphs.last() == p
            } else {
                &&& after.footnotes == st.footnotes
                &&& match st.cell {
                    Some(c) => {
                        &&& after.out.paragraphs == st.out.paragraphs
                        &&& after.cell matches Some(d) && {
                            &&& d == (TableCellView { paragraphs: d.paragraphs, ..c })
                            &&& d.paragraphs.len() == c.paragraphs.len() + 1
                            &&& d.paragraphs.take(c.paragraphs.len() as int) == c.paragraphs
                            &&& d.paragraphs.last() == p
                        }
                    },
                    None => {
                        let old_text = st.out.paragraphs;
                        let text = after.out.paragraphs;
                        &&& after.cell is None
                        &&& text.len() == old_text.len() + 1
                        &&& text.take(old_text.len() as int) == old_text
                        &&& text.last() == p
                    },
                }
            }
        }),
{
    reveal(after_event);
    reveal(after_end);
    reveal(after_flow_end);
    lemma_paragraph_name();
    let after = after_event(st, EventView::End(encode_utf8("ParagraphStyleRange"@)));
    if st.footnotes.len() > 0 {
        let f = st.footnotes.last().footnote.paragraphs;
        assert(f.push(p).take(f.len() as int) =~= f);
        assert(after.footnotes.drop_last() =~= st.footnotes.drop_last());
    } else {
        match st.cell {
            Some(c) => {
                assert(c.paragraphs.push(p).take(c.paragraphs.len() as int) =~= c.paragraphs);
            },
            None => {
                let t = st.out.paragraphs;
                assert(t.push(p).take(t.len() as int) =~= t);
            },
        }
    }
}

/// A paragraph that opens has nothing in it yet: no run, no table, no footnote, no
/// anchored item, no index mark and no tab stop; and a run that opens no text.
pub proof fn law_text_opens_empty(st: ProgressView, tag: TagView)
    requires
        is_flowing(st),
        !tag.empty,
    ensures
        tag.is("ParagraphStyleRange"@) ==> (after_event(
            st,
            EventView::Open(tag),
        ).paragraph matches Some(p) && {
            &&& p.runs.len() == 0
            &&& p.table is None
            &&& p.footnotes.len() == 0
            &&& p.anchored_frames.len() == 0
            &&& p.index_markers.len() == 0
            &&& p.tab_list.len() == 0
        }),
        tag.is("CharacterStyleRange"@) ==> (after_event(
            st,
            EventView::Open(tag),
        ).run matches Some(run) && run.text.len() == 0),
{
    reveal(after_event);
    reveal(after_start);
    reveal(after_flow_start);
    lemma_paragraph_name();
    lemma_run_name();
}

/// A tab stop that is stated inside a paragraph comes behind those it had, all of
/// which stay; the rest of the paragraph is as it was.
pub proof fn law_tab_stops_gather(st: ProgressView, p: ParagraphView, tag: TagView)
    requires
        is_flowing(st),
        st.paragraph == Some(p),
        tag.is("TabStop"@),
        tab_stop_of(tag) is Some,
    ensures
        after_event(st, EventView::Open(tag)).paragraph matches Some(q) && {
            &&& q.tab_list.len() == p.tab_list.len() + 1
            &&& q.tab_list.take(p.tab_list.len() as int) == p.tab_list
            &&& Some(q.tab_list.last()) == tab_stop_of(tag)
            &&& q == (ParagraphView { tab_list: q.tab_list, ..p })
        },
{
    reveal(after_event);
    reveal(after_start);
    reveal(after_empty);
    reveal(after_flow_start);
    reveal(after_flow_empty);
    lemma_stop_name();
    let stop = tab_stop_of(tag)->0;
    assert(p.tab_list.push(stop).take(p.tab_list.len() as int) =~= p.tab_list);
}

/// An index mark comes behind those that the paragraph had, all of which stay; the
/// rest of the paragraph is as it was.
pub proof fn law_index_marks_gather(st: ProgressView, p: ParagraphView, tag: TagView)
    requires
        is_flowing(st),
        st.paragraph == Some(p),
        tag.empty,
        is_marker(tag),
        !tag.is("HiddenText"@),
        !tag.is("Note"@),
        marker_of(tag) is Some,
    ensures
        after_event(st, EventView::Open(tag)).paragraph matches Some(q) && {
            &&& q.index_markers.len() == p.index_markers.len() + 1
            &&& q.index_markers.take(p.index_markers.len() as int) == p.index_markers
            &&& Some(q.index_markers.last()) == marker_of(tag)
            &&& q == (ParagraphView { index_markers: q.index_markers, ..p })
        },
{
    reveal(after_event);
    reveal(after_empty);
    let marker = marker_of(tag)->0;
    assert(p.index_markers.push(marker).take(p.index_markers.len() as int) =~= p.index_markers);
}

/// A row or a column that is stated inside a table comes behind those it had, all
/// of which stay; the rest of the table is as it was.
pub proof fn law_rows_and_columns_gather(st: ProgressView, tag: TagView)
    requires
        is_flowing(st),
        st.tables.len() > 0,
        tag.empty,
    ensures
        ({
            let after = after_event(st, EventView::Open(tag));
            let t = st.tables.last().table;
            let u = after.tables.last().table;
            &&& tag.is("Row"@) ==> {
                &&& after.tables.len() == st.tables.len()
                &&& u.rows.len() == t.rows.len() + 1
                &&& u.rows.take(t.rows.len() as int) == t.rows
                &&& u.rows.last() == row_of(tag)
                &&& u == (TableView { rows: u.rows, ..t })
            }
            &&& tag.is("Column"@) ==> {
                &&& after.tables.len() == st.tables.len()
                &&& u.columns.len() == t.columns.len() + 1
                &&& u.columns.take(t.columns.len() as int) == t.columns
                &&& u.columns.last() == column_of(tag)
                &&& u == (TableView { columns: u.columns, ..t })
            }
        }),
{
    reveal(after_event);
    reveal(after_empty);
    reveal(after_flow_empty);
    lemma_row_name();
    lemma_column_name();
    let t = st.tables.last().table;
    assert(t.rows.push(row_of(tag)).take(t.rows.len() as int) =~= t.rows);
    assert(t.columns.push(column_of(tag)).take(t.columns.len() as int) =~= t.columns);
}

/// Text inside `Content` comes behind the text of the open run, all of which
/// stays, and is as long as what was written; the rest of the run is as it was.
/// So does a line break, and so does a tab.
pub proof fn law_text_gathers(st: ProgressView, run: CharacterRunView, raw: Seq<u8>)
    requires
        is_flowing(st),
        st.in_content,
        st.run == Some(run),
    ensures
        after_event(st, EventView::Text(raw)).run matches Some(after) && {
            let more = text_content(raw);
            &&& after.text.len() == run.text.len() + more.len()
            &&& after.text.take(run.text.len() as int) == run.text
            &&& forall|i: int|
                0 <= i < more.len() ==> #[trigger] after.text[run.text.len() + i] == if more[i]
                    == '\u{2028}' || more[i] == '\u{2029}' {
                    '\n'
                } else {
                    more[i]
                }
            &&& after == (CharacterRunView { text: after.text, ..run })
        },
        after_event(st, EventView::Text(raw)).paragraph == st.paragraph,
{
    reveal(after_event);
    let more = text_content(raw);
    let after = after_event(st, EventView::Text(raw)).run->0;
    assert(after.text == run.text + flowed(more));
    assert(after.text.take(run.text.len() as int) =~= run.text);
}

/// A line break adds a line feed, and a tab a tab, behind the text of the open run,
/// all of which stays.
pub proof fn law_breaks_and_tabs_gather(st: ProgressView, run: CharacterRunView, tag: TagView)
    requires
        is_flowing(st),
        st.run == Some(run),
        tag.empty,
    ensures
        tag.is("Br"@) ==> after_event(st, EventView::Open(tag)).run == Some(
            CharacterRunView { text: run.text.push('\n'), ..run },
        ),
        tag.is("Tab"@) ==> after_event(st, EventView::Open(tag)).run == Some(
            CharacterRunView { text: run.text.push('\t'), ..run },
        ),
{
    reveal(after_event);
    reveal(after_empty);
    reveal(after_flow_empty);
    lemma_break_name();
    lemma_tab_name();
}

/// The tag that closes an anchored item puts it behind the others that the item
/// round it holds, or, where there is none, behind those of the paragraph; all that
/// were there stay.
pub proof fn law_anchored_items_gather(st: ProgressView, p: ParagraphView, name: Seq<u8>)
    requires
        st.suppress_depth == 0,
        st.anchored_depth > 0,
        st.anchored.len() > 0,
        st.paragraph == Some(p),
        anchored_kind(name) is Some,
    ensures
        ({
            let after = after_event(st, EventView::End(name));
            let frame = st.anchored.last();
            let k = st.anchored.len();
            &&& after.anchored.len() == k - 1
            &&& if k > 1 {
                let host = st.anchored[k - 2];
                let grown = after.anchored.last();
                &&& after.paragraph == st.paragraph
                &&& grown.children.len() == host.children.len() + 1
                &&& grown.children.take(host.children.len() as int) == host.children
                &&& grown.children.last() == frame
                &&& grown == (AnchoredFrameView { children: grown.children, ..host })
            } else {
                &&& after.paragraph matches Some(q) && {
                    &&& q.anchored_frames.len() == p.anchored_frames.len() + 1
                    &&& q.anchored_frames.take(p.anchored_frames.len() as int)
                        == p.anchored_frames
                    &&& q.anchored_frames.last() == frame
                    &&& q == (ParagraphView { anchored_frames: q.anchored_frames, ..p })
                }
            }
        }),
{
    reveal(after_event);
    reveal(after_end);
    let frame = st.anchored.last();
    let k = st.anchored.len();
    if k > 1 {
        let host = st.anchored[k - 2];
        assert(st.anchored.drop_last().last() == host);
        assert(host.children.push(frame).take(host.children.len() as int) =~= host.children);
    } else {
        let a = p.anchored_frames;
        assert(a.push(frame).take(a.len() as int) =~= a);
    }
}

proof fn lemma_block_keeps_text(st: ProgressView, name: Seq<u8>)
    ensures
        after_block_end(st, name).out == st.out,
{
    reveal(after_block_end);
}

proof fn lemma_anchored_keeps_text(st: ProgressView, tag: TagView)
    ensures
        after_anchored_tag(st, tag).out == st.out,
{
    reveal(after_anchored_tag);
}

proof fn lemma_block_start_keeps_text(st: ProgressView, tag: TagView)
    ensures
        after_block_start(st, tag).out == st.out,
{
    reveal(after_block_start);
}

proof fn lemma_variable_keeps_text(st: ProgressView, tag: TagView)
    ensures
        after_variable(st, tag).out == st.out,
{
    reveal(after_variable);
}

proof fn lemma_flow_start_keeps_text(st: ProgressView, tag: TagView)
    ensures
        after_flow_start(st, tag).out.paragraphs == st.out.paragraphs,
{
    lemma_block_start_keeps_text(st, tag);
    reveal(after_flow_start);
}

proof fn lemma_flow_empty_keeps_text(st: ProgressView, tag: TagView)
    ensures
        after_flow_empty(st, tag).out.paragraphs == st.out.paragraphs,
{
    lemma_variable_keeps_text(st, tag);
    reveal(after_flow_empty);
}

proof fn lemma_open_keeps_text(st: ProgressView, tag: TagView)
    ensures
        after_event(st, EventView::Open(tag)).out.paragraphs == st.out.paragraphs,
{
    lemma_anchored_keeps_text(st, tag);
    lemma_flow_start_keeps_text(st, tag);
    lemma_flow_empty_keeps_text(st, tag);
    reveal(after_event);
    reveal(after_start);
    reveal(after_empty);
}

proof fn lemma_end_only_grows(st: ProgressView, name: Seq<u8>)
    ensures
        ({
            let text = st.out.paragraphs;
            let after = after_event(st, EventView::End(name)).out.paragraphs;
            after == text || (st.paragraph matches Some(p) && after == text.push(p))
        }),
{
    lemma_block_keeps_text(st, name);
    reveal(after_event);
    reveal(after_end);
    reveal(after_flow_end);
}

/// No event loses or changes a paragraph that the story has already, and none adds
/// more than one.
pub proof fn law_story_only_grows(st: ProgressView, event: EventView)
    ensures
        ({
            let text = st.out.paragraphs;
            let after = after_event(st, event).out.paragraphs;
            &&& text.len() <= after.len() <= text.len() + 1
            &&& after.take(text.len() as int) == text
        }),
{
    let text = st.out.paragraphs;
    assert(text.take(text.len() as int) =~= text);
    match event {
        EventView::Open(tag) => lemma_open_keeps_text(st, tag),
        EventView::End(name) => {
            lemma_end_only_grows(st, name);
            if let Some(p) = st.paragraph {
                assert(text.push(p).take(text.len() as int) =~= text);
            }
        },
        _ => {
            reveal(after_event);
        },
    }
}

/// A bullet that a paragraph states is the one that it has; the rest of the paragraph
/// is as it was.
pub proof fn law_bullet_is_given_to_its_paragraph(
    st: ProgressView,
    p: ParagraphView,
    tag: TagView,
    bullet: u32,
)
    requires
        is_flowing(st),
        st.properties == PropertyHost::Paragraph,
        st.paragraph == Some(p),
        tag.empty,
        tag.is("BulletChar"@),
        tag.count("BulletCharacterValue"@) == Some(bullet),
    ensures
        after_event(st, EventView::Open(tag)).paragraph == Some(
            ParagraphView { bullet_character: Some(bullet), ..p },
        ),
{
    reveal(after_event);
    reveal(after_empty);
    reveal(after_flow_empty);
    lemma_bullet_name();
}

/// A preference of the story that is stated stands; one that is not stays as it was,
/// and so does the text.
pub proof fn law_preference_is_given_to_its_story(st: ProgressView, tag: TagView)
    requires
        is_flowing(st),
        tag.empty,
        tag.is("StoryPreference"@),
    ensures
        ({
            let after = after_event(st, EventView::Open(tag)).out;
            &&& after.optical_margin_alignment == if tag.flag("OpticalMarginAlignment"@) is Some {
                tag.flag("OpticalMarginAlignment"@)->0
            } else {
                st.out.optical_margin_alignment
            }
            &&& after.optical_margin_size == if tag.num("OpticalMarginSize"@) is Some {
                tag.num("OpticalMarginSize"@)->0
            } else {
                st.out.optical_margin_size
            }
            &&& after.paragraphs == st.out.paragraphs
        }),
{
    reveal(after_event);
    reveal(after_empty);
    reveal(after_flow_empty);
    lemma_preference_name();
}

/// The property that an element states inside a run is the one that the run has, once
/// the element closes: its font, its font style or its leading. What is left empty, or
/// is no number where one is due, changes nothing, and the text of the run stays.
pub proof fn law_property_is_given_to_its_run(st: ProgressView, r: CharacterRunView, name: Seq<u8>)
    requires
        is_flowing(st),
        st.properties == PropertyHost::Run,
        st.field == Some(name),
        st.run == Some(r),
        name == encode_utf8("AppliedFont"@) || name == encode_utf8("FontStyle"@) || name
            == encode_utf8("Leading"@),
    ensures
        after_event(st, EventView::End(name)).run matches Some(q) && {
            let value = trimmed(st.field_text);
            &&& q.font == if name == encode_utf8("AppliedFont"@) && value.len() > 0 {
                Some(value)
            } else {
                r.font
            }
            &&& q.font_style == if name == encode_utf8("FontStyle"@) && value.len() > 0 {
                Some(value)
            } else {
                r.font_style
            }
            &&& q.leading == if name == encode_utf8("Leading"@) && written_number(value) is Some {
                written_number(value)
            } else {
                r.leading
            }
            &&& q == (CharacterRunView {
                font: q.font,
                font_style: q.font_style,
                leading: q.leading,
                ..r
            })
        },
{
    reveal(after_event);
    reveal(after_end);
    reveal(after_flow_end);
    lemma_font_name();
    lemma_font_style_name();
    lemma_leading_name();
}

} // verus!
