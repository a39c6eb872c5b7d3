//! What a manifest lists: everything that its tags state, in their order.
use crate::designmap::{
    after_event, after_events, article_of, bookmark_of, cross_reference_of, designmap_of,
    hyperlink_of, index_topic_of, page_destination_of, section_of, text_destination_of,
    text_variable_of, url_destination_of, ArticleView, BookmarkView, CrossReferenceView,
    DesignMapView, HyperlinkDestinationView, HyperlinkView, IndexTopicView, ProgressView,
    SectionView, TextVariableView,
};
use crate::place_laws::has_one_more;
use crate::xml::{law_names_differ, EventView, TagView};
use vstd::prelude::*;
use vstd::utf8::encode_utf8;

verus! {

/// What the opening tags among the first `n` events state, in order, each as `read`
/// has it.
pub open spec fn stated<T>(
    events: Seq<EventView>,
    n: nat,
    read: spec_fn(TagView) -> Option<T>,
) -> Seq<T>
    decreases n,
{
    if n == 0 {
        Seq::empty()
    } else {
        let before = stated(events, (n - 1) as nat, read);
        match events[n - 1] {
            EventView::Open(tag) => match read(tag) {
                Some(x) => before.push(x),
                None => before,
            },
            _ => before,
        }
    }
}

/// No other name is `Layer`.
proof fn lemma_layer_name()
    ensures
        encode_utf8("Layer"@) != encode_utf8("TextVariable"@),
        encode_utf8("Layer"@) != encode_utf8("TextVariablePreference"@),
        encode_utf8("Layer"@) != encode_utf8("Document"@),
        encode_utf8("Layer"@) != encode_utf8("DocumentPreference"@),
        encode_utf8("Layer"@) != encode_utf8("FootnoteOption"@),
        encode_utf8("Layer"@) != encode_utf8("GridPreference"@),
        encode_utf8("Layer"@) != encode_utf8("HyperlinkURLDestination"@),
        encode_utf8("Layer"@) != encode_utf8("HyperlinkPageDestination"@),
        encode_utf8("Layer"@) != encode_utf8("HyperlinkTextDestination"@),
        encode_utf8("Layer"@) != encode_utf8("Section"@),
        encode_utf8("Layer"@) != encode_utf8("Article"@),
        encode_utf8("Layer"@) != encode_utf8("Hyperlink"@),
        encode_utf8("Layer"@) != encode_utf8("Bookmark"@),
        encode_utf8("Layer"@) != encode_utf8("CrossReferenceSource"@),
        encode_utf8("Layer"@) != encode_utf8("Topic"@),
        encode_utf8("Layer"@) != encode_utf8("idPkg:Spread"@),
        encode_utf8("Layer"@) != encode_utf8("idPkg:Story"@),
        encode_utf8("Layer"@) != encode_utf8("idPkg:MasterSpread"@),
{
    reveal_strlit("Layer");
    reveal_strlit("TextVariable");
    reveal_strlit("TextVariablePreference");
    reveal_strlit("Document");
    reveal_strlit("DocumentPreference");
    reveal_strlit("FootnoteOption");
    reveal_strlit("GridPreference");
    reveal_strlit("HyperlinkURLDestination");
    reveal_strlit("HyperlinkPageDestination");
    reveal_strlit("HyperlinkTextDestination");
    reveal_strlit("Section");
    reveal_strlit("Article");
    reveal_strlit("Hyperlink");
    reveal_strlit("Bookmark");
    reveal_strlit("CrossReferenceSource");
    reveal_strlit("Topic");
    reveal_strlit("idPkg:Spread");
    reveal_strlit("idPkg:Story");
    reveal_strlit("idPkg:MasterSpread");
    law_names_differ("Layer"@, "TextVariable"@);
    law_names_differ("Layer"@, "TextVariablePreference"@);
    law_names_differ("Layer"@, "Document"@);
    law_names_differ("Layer"@, "DocumentPreference"@);
    law_names_differ("Layer"@, "FootnoteOption"@);
    law_names_differ("Layer"@, "GridPreference"@);
    law_names_differ("Layer"@, "HyperlinkURLDestination"@);
    law_names_differ("Layer"@, "HyperlinkPageDestination"@);
    law_names_differ("Layer"@, "HyperlinkTextDestination"@);
    law_names_differ("Layer"@, "Section"@);
    law_names_differ("Layer"@, "Article"@);
    law_names_differ("Layer"@, "Hyperlink"@);
    law_names_differ("Layer"@, "Bookmark"@);
    law_names_differ("Layer"@, "CrossReferenceSource"@);
    assert("Layer"@[0] != "Topic"@[0]);
    law_names_differ("Layer"@, "Topic"@);
    law_names_differ("Layer"@, "idPkg:Spread"@);
    law_names_differ("Layer"@, "idPkg:Story"@);
    law_names_differ("Layer"@, "idPkg:MasterSpread"@);
}

/// No other name is `TextVariable`.
proof fn lemma_variable_name()
    ensures
        encode_utf8("TextVariable"@) != encode_utf8("Layer"@),
        encode_utf8("TextVariable"@) != encode_utf8("TextVariablePreference"@),
        encode_utf8("TextVariable"@) != encode_utf8("Document"@),
        encode_utf8("TextVariable"@) != encode_utf8("DocumentPreference"@),
        encode_utf8("TextVariable"@) != encode_utf8("FootnoteOption"@),
        encode_utf8("TextVariable"@) != encode_utf8("GridPreference"@),
        encode_utf8("TextVariable"@) != encode_utf8("HyperlinkURLDestination"@),
        encode_utf8("TextVariable"@) != encode_utf8("HyperlinkPageDestination"@),
        encode_utf8("TextVariable"@) != encode_utf8("HyperlinkTextDestination"@),
        encode_utf8("TextVariable"@) != encode_utf8("Section"@),
        encode_utf8("TextVariable"@) != encode_utf8("Article"@),
        encode_utf8("TextVariable"@) != encode_utf8("Hyperlink"@),
        encode_utf8("TextVariable"@) != encode_utf8("Bookmark"@),
        encode_utf8("TextVariable"@) != encode_utf8("CrossReferenceSource"@),
        encode_utf8("TextVariable"@) != encode_utf8("Topic"@),
        encode_utf8("TextVariable"@) != encode_utf8("idPkg:Spread"@),
        encode_utf8("TextVariable"@) != encode_utf8("idPkg:Story"@),
        encode_utf8("TextVariable"@) != encode_utf8("idPkg:MasterSpread"@),
{
    reveal_strlit("TextVariable");
    reveal_strlit("Layer");
    reveal_strlit("TextVariablePreference");
    reveal_strlit("Document");
    reveal_strlit("DocumentPreference");
    reveal_strlit("FootnoteOption");
    reveal_strlit("GridPreference");
    reveal_strlit("HyperlinkURLDestination");
    reveal_strlit("HyperlinkPageDestination");
    reveal_strlit("HyperlinkTextDestination");
    reveal_strlit("Section");
    reveal_strlit("Article");
    reveal_strlit("Hyperlink");
    reveal_strlit("Bookmark");
    reveal_strlit("CrossReferenceSource");
    reveal_strlit("Topic");
    reveal_strlit("idPkg:Spread");
    reveal_strlit("idPkg:Story");
    reveal_strlit("idPkg:MasterSpread");
    law_names_differ("TextVariable"@, "Layer"@);
    law_names_differ("TextVariable"@, "TextVariablePreference"@);
    law_names_differ("TextVariable"@, "Document"@);
    law_names_differ("TextVariable"@, "DocumentPreference"@);
    law_names_differ("TextVariable"@, "FootnoteOption"@);
    law_names_differ("TextVariable"@, "GridPreference"@);
    law_names_differ("TextVariable"@, "HyperlinkURLDestination"@);
    law_names_differ("TextVariable"@, "HyperlinkPageDestination"@);
    law_names_differ("TextVariable"@, "HyperlinkTextDestination"@);
    law_names_differ("TextVariable"@, "Section"@);
    law_names_differ("TextVariable"@, "Article"@);
    law_names_differ("TextVariable"@, "Hyperlink"@);
    law_names_differ("TextVariable"@, "Bookmark"@);
    law_names_differ("TextVariable"@, "CrossReferenceSource"@);
    law_names_differ("TextVariable"@, "Topic"@);
    assert("TextVariable"@[0] != "idPkg:Spread"@[0]);
    law_names_differ("TextVariable"@, "idPkg:Spread"@);
    law_names_differ("TextVariable"@, "idPkg:Story"@);
    law_names_differ("TextVariable"@, "idPkg:MasterSpread"@);
}

/// No other name is `TextVariablePreference`.
proof fn lemma_variable_preference_name()
    ensures
        encode_utf8("TextVariablePreference"@) != encode_utf8("Layer"@),
        encode_utf8("TextVariablePreference"@) != encode_utf8("TextVariable"@),
        encode_utf8("TextVariablePreference"@) != encode_utf8("Document"@),
        encode_utf8("TextVariablePreference"@) != encode_utf8("DocumentPreference"@),
        encode_utf8("TextVariablePreference"@) != encode_utf8("FootnoteOption"@),
        encode_utf8("TextVariablePreference"@) != encode_utf8("GridPreference"@),
        encode_utf8("TextVariablePreference"@) != encode_utf8("HyperlinkURLDestination"@),
        encode_utf8("TextVariablePreference"@) != encode_utf8("HyperlinkPageDestination"@),
        encode_utf8("TextVariablePreference"@) != encode_utf8("HyperlinkTextDestination"@),
        encode_utf8("TextVariablePreference"@) != encode_utf8("Section"@),
        encode_utf8("TextVariablePreference"@) != encode_utf8("Article"@),
        encode_utf8("TextVariablePreference"@) != encode_utf8("Hyperlink"@),
        encode_utf8("TextVariablePreference"@) != encode_utf8("Bookmark"@),
        encode_utf8("TextVariablePreference"@) != encode_utf8("CrossReferenceSource"@),
        encode_utf8("TextVariablePreference"@) != encode_utf8("Topic"@),
        encode_utf8("TextVariablePreference"@) != encode_utf8("idPkg:Spread"@),
        encode_utf8("TextVariablePreference"@) != encode_utf8("idPkg:Story"@),
        encode_utf8("TextVariablePreference"@) != encode_utf8("idPkg:MasterSpread"@),
{
    reveal_strlit("TextVariablePreference");
    reveal_strlit("Layer");
    reveal_strlit("TextVariable");
    reveal_strlit("Document");
    reveal_strlit("DocumentPreference");
    reveal_strlit("FootnoteOption");
    reveal_strlit("GridPreference");
    reveal_strlit("HyperlinkURLDestination");
    reveal_strlit("HyperlinkPageDestination");
    reveal_strlit("HyperlinkTextDestination");
    reveal_strlit("Section");
    reveal_strlit("Article");
    reveal_strlit("Hyperlink");
    reveal_strlit("Bookmark");
    reveal_strlit("CrossReferenceSource");
    reveal_strlit("Topic");
    reveal_strlit("idPkg:Spread");
    reveal_strlit("idPkg:Story");
    reveal_strlit("idPkg:MasterSpread");
    law_names_differ("TextVariablePreference"@, "Layer"@);
    law_names_differ("TextVariablePreference"@, "TextVariable"@);
    law_names_differ("TextVariablePreference"@, "Document"@);
    law_names_differ("TextVariablePreference"@, "DocumentPreference"@);
    law_names_differ("TextVariablePreference"@, "FootnoteOption"@);
    law_names_differ("TextVariablePreference"@, "GridPreference"@);
    law_names_differ("TextVariablePreference"@, "HyperlinkURLDestination"@);
    law_names_differ("TextVariablePreference"@, "HyperlinkPageDestination"@);
    law_names_differ("TextVariablePreference"@, "HyperlinkTextDestination"@);
    law_names_differ("TextVariablePreference"@, "Section"@);
    law_names_differ("TextVariablePreference"@, "Article"@);
    law_names_differ("TextVariablePreference"@, "Hyperlink"@);
    law_names_differ("TextVariablePreference"@, "Bookmark"@);
    law_names_differ("TextVariablePreference"@, "CrossReferenceSource"@);
    law_names_differ("TextVariablePreference"@, "Topic"@);
    law_names_differ("TextVariablePreference"@, "idPkg:Spread"@);
    law_names_differ("TextVariablePreference"@, "idPkg:Story"@);
    law_names_differ("TextVariablePreference"@, "idPkg:MasterSpread"@);
}

/// No other name is `HyperlinkURLDestination`.
proof fn lemma_url_destination_name()
    ensures
        encode_utf8("HyperlinkURLDestination"@) != encode_utf8("Layer"@),
        encode_utf8("HyperlinkURLDestination"@) != encode_utf8("TextVariable"@),
        encode_utf8("HyperlinkURLDestination"@) != encode_utf8("TextVariablePreference"@),
        encode_utf8("HyperlinkURLDestination"@) != encode_utf8("Document"@),
        encode_utf8("HyperlinkURLDestination"@) != encode_utf8("DocumentPreference"@),
        encode_utf8("HyperlinkURLDestination"@) != encode_utf8("FootnoteOption"@),
        encode_utf8("HyperlinkURLDestination"@) != encode_utf8("GridPreference"@),
        encode_utf8("HyperlinkURLDestination"@) != encode_utf8("HyperlinkPageDestination"@),
        encode_utf8("HyperlinkURLDestination"@) != encode_utf8("HyperlinkTextDestination"@),
        encode_utf8("HyperlinkURLDestination"@) != encode_utf8("Section"@),
        encode_utf8("HyperlinkURLDestination"@) != encode_utf8("Article"@),
        encode_utf8("HyperlinkURLDestination"@) != encode_utf8("Hyperlink"@),
        encode_utf8("HyperlinkURLDestination"@) != encode_utf8("Bookmark"@),
        encode_utf8("HyperlinkURLDestination"@) != encode_utf8("CrossReferenceSource"@),
        encode_utf8("HyperlinkURLDestination"@) != encode_utf8("Topic"@),
        encode_utf8("HyperlinkURLDestination"@) != encode_utf8("idPkg:Spread"@),
        encode_utf8("HyperlinkURLDestination"@) != encode_utf8("idPkg:Story"@),
        encode_utf8("HyperlinkURLDestination"@) != encode_utf8("idPkg:MasterSpread"@),
{
    reveal_strlit("HyperlinkURLDestination");
    reveal_strlit("Layer");
    reveal_strlit("TextVariable");
    reveal_strlit("TextVariablePreference");
    reveal_strlit("Document");
    reveal_strlit("DocumentPreference");
    reveal_strlit("FootnoteOption");
    reveal_strlit("GridPreference");
    reveal_strlit("HyperlinkPageDestination");
    reveal_strlit("HyperlinkTextDestination");
    reveal_strlit("Section");
    reveal_strlit("Article");
    reveal_strlit("Hyperlink");
    reveal_strlit("Bookmark");
    reveal_strlit("CrossReferenceSource");
    reveal_strlit("Topic");
    reveal_strlit("idPkg:Spread");
    reveal_strlit("idPkg:Story");
    reveal_strlit("idPkg:MasterSpread");
    law_names_differ("HyperlinkURLDestination"@, "Layer"@);
    law_names_differ("HyperlinkURLDestination"@, "TextVariable"@);
    law_names_differ("HyperlinkURLDestination"@, "TextVariablePreference"@);
    law_names_differ("HyperlinkURLDestination"@, "Document"@);
    law_names_differ("HyperlinkURLDestination"@, "DocumentPreference"@);
    law_names_differ("HyperlinkURLDestination"@, "FootnoteOption"@);
    law_names_differ("HyperlinkURLDestination"@, "GridPreference"@);
    law_names_differ("HyperlinkURLDestination"@, "HyperlinkPageDestination"@);
    law_names_differ("HyperlinkURLDestination"@, "HyperlinkTextDestination"@);
    law_names_differ("HyperlinkURLDestination"@, "Section"@);
    law_names_differ("HyperlinkURLDestination"@, "Article"@);
    law_names_differ("HyperlinkURLDestination"@, "Hyperlink"@);
    law_names_differ("HyperlinkURLDestination"@, "Bookmark"@);
    law_names_differ("HyperlinkURLDestination"@, "CrossReferenceSource"@);
    law_names_differ("HyperlinkURLDestination"@, "Topic"@);
    law_names_differ("HyperlinkURLDestination"@, "idPkg:Spread"@);
    law_names_differ("HyperlinkURLDestination"@, "idPkg:Story"@);
    law_names_differ("HyperlinkURLDestination"@, "idPkg:MasterSpread"@);
}

/// No other name is `HyperlinkPageDestination`.
proof fn lemma_page_destination_name()
    ensures
        encode_utf8("HyperlinkPageDestination"@) != encode_utf8("Layer"@),
        encode_utf8("HyperlinkPageDestination"@) != encode_utf8("TextVariable"@),
        encode_utf8("HyperlinkPageDestination"@) != encode_utf8("TextVariablePreference"@),
        encode_utf8("HyperlinkPageDestination"@) != encode_utf8("Document"@),
        encode_utf8("HyperlinkPageDestination"@) != encode_utf8("DocumentPreference"@),
        encode_utf8("HyperlinkPageDestination"@) != encode_utf8("FootnoteOption"@),
        encode_utf8("HyperlinkPageDestination"@) != encode_utf8("GridPreference"@),
        encode_utf8("HyperlinkPageDestination"@) != encode_utf8("HyperlinkURLDestination"@),
        encode_utf8("HyperlinkPageDestination"@) != encode_utf8("HyperlinkTextDestination"@),
        encode_utf8("HyperlinkPageDestination"@) != encode_utf8("Section"@),
        encode_utf8("HyperlinkPageDestination"@) != encode_utf8("Article"@),
        encode_utf8("HyperlinkPageDestination"@) != encode_utf8("Hyperlink"@),
        encode_utf8("HyperlinkPageDestination"@) != encode_utf8("Bookmark"@),
        encode_utf8("HyperlinkPageDestination"@) != encode_utf8("CrossReferenceSource"@),
        encode_utf8("HyperlinkPageDestination"@) != encode_utf8("Topic"@),
        encode_utf8("HyperlinkPageDestination"@) != encode_utf8("idPkg:Spread"@),
        encode_utf8("HyperlinkPageDestination"@) != encode_utf8("idPkg:Story"@),
        encode_utf8("HyperlinkPageDestination"@) != encode_utf8("idPkg:MasterSpread"@),
{
    reveal_strlit("HyperlinkPageDestination");
    reveal_strlit("Layer");
    reveal_strlit("TextVariable");
    reveal_strlit("TextVariablePreference");
    reveal_strlit("Document");
    reveal_strlit("DocumentPreference");
    reveal_strlit("FootnoteOption");
    reveal_strlit("GridPreference");
    reveal_strlit("HyperlinkURLDestination");
    reveal_strlit("HyperlinkTextDestination");
    reveal_strlit("Section");
    reveal_strlit("Article");
    reveal_strlit("Hyperlink");
    reveal_strlit("Bookmark");
    reveal_strlit("CrossReferenceSource");
    reveal_strlit("Topic");
    reveal_strlit("idPkg:Spread");
    reveal_strlit("idPkg:Story");
    reveal_strlit("idPkg:MasterSpread");
    law_names_differ("HyperlinkPageDestination"@, "Layer"@);
    law_names_differ("HyperlinkPageDestination"@, "TextVariable"@);
    law_names_differ("HyperlinkPageDestination"@, "TextVariablePreference"@);
    law_names_differ("HyperlinkPageDestination"@, "Document"@);
    law_names_differ("HyperlinkPageDestination"@, "DocumentPreference"@);
    law_names_differ("HyperlinkPageDestination"@, "FootnoteOption"@);
    law_names_differ("HyperlinkPageDestination"@, "GridPreference"@);
    law_names_differ("HyperlinkPageDestination"@, "HyperlinkURLDestination"@);
    assert("HyperlinkPageDestination"@[9] != "HyperlinkTextDestination"@[9]);
    law_names_differ("HyperlinkPageDestination"@, "HyperlinkTextDestination"@);
    law_names_differ("HyperlinkPageDestination"@, "Section"@);
    law_names_differ("HyperlinkPageDestination"@, "Article"@);
    law_names_differ("HyperlinkPageDestination"@, "Hyperlink"@);
    law_names_differ("HyperlinkPageDestination"@, "Bookmark"@);
    law_names_differ("HyperlinkPageDestination"@, "CrossReferenceSource"@);
    law_names_differ("HyperlinkPageDestination"@, "Topic"@);
    law_names_differ("HyperlinkPageDestination"@, "idPkg:Spread"@);
    law_names_differ("HyperlinkPageDestination"@, "idPkg:Story"@);
    law_names_differ("HyperlinkPageDestination"@, "idPkg:MasterSpread"@);
}

/// No other name is `HyperlinkTextDestination`.
proof fn lemma_text_destination_name()
    ensures
        encode_utf8("HyperlinkTextDestination"@) != encode_utf8("Layer"@),
        encode_utf8("HyperlinkTextDestination"@) != encode_utf8("TextVariable"@),
        encode_utf8("HyperlinkTextDestination"@) != encode_utf8("TextVariablePreference"@),
        encode_utf8("HyperlinkTextDestination"@) != encode_utf8("Document"@),
        encode_utf8("HyperlinkTextDestination"@) != encode_utf8("DocumentPreference"@),
        encode_utf8("HyperlinkTextDestination"@) != encode_utf8("FootnoteOption"@),
        encode_utf8("HyperlinkTextDestination"@) != encode_utf8("GridPreference"@),
        encode_utf8("HyperlinkTextDestination"@) != encode_utf8("HyperlinkURLDestination"@),
        encode_utf8("HyperlinkTextDestination"@) != encode_utf8("HyperlinkPageDestination"@),
        encode_utf8("HyperlinkTextDestination"@) != encode_utf8("Section"@),
        encode_utf8("HyperlinkTextDestination"@) != encode_utf8("Article"@),
        encode_utf8("HyperlinkTextDestination"@) != encode_utf8("Hyperlink"@),
        encode_utf8("HyperlinkTextDestination"@) != encode_utf8("Bookmark"@),
        encode_utf8("HyperlinkTextDestination"@) != encode_utf8("CrossReferenceSource"@),
        encode_utf8("HyperlinkTextDestination"@) != encode_utf8("Topic"@),
        encode_utf8("HyperlinkTextDestination"@) != encode_utf8("idPkg:Spread"@),
        encode_utf8("HyperlinkTextDestination"@) != encode_utf8("idPkg:Story"@),
        encode_utf8("HyperlinkTextDestination"@) != encode_utf8("idPkg:MasterSpread"@),
{
    reveal_strlit("HyperlinkTextDestination");
    reveal_strlit("Layer");
    reveal_strlit("TextVariable");
    reveal_strlit("TextVariablePreference");
    reveal_strlit("Document");
    reveal_strlit("DocumentPreference");
    reveal_strlit("FootnoteOption");
    reveal_strlit("GridPreference");
    reveal_strlit("HyperlinkURLDestination");
    reveal_strlit("HyperlinkPageDestination");
    reveal_strlit("Section");
    reveal_strlit("Article");
    reveal_strlit("Hyperlink");
    reveal_strlit("Bookmark");
    reveal_strlit("CrossReferenceSource");
    reveal_strlit("Topic");
    reveal_strlit("idPkg:Spread");
    reveal_strlit("idPkg:Story");
    reveal_strlit("idPkg:MasterSpread");
    law_names_differ("HyperlinkTextDestination"@, "Layer"@);
    law_names_differ("HyperlinkTextDestination"@, "TextVariable"@);
    law_names_differ("HyperlinkTextDestination"@, "TextVariablePreference"@);
    law_names_differ("HyperlinkTextDestination"@, "Document"@);
    law_names_differ("HyperlinkTextDestination"@, "DocumentPreference"@);
    law_names_differ("HyperlinkTextDestination"@, "FootnoteOption"@);
    law_names_differ("HyperlinkTextDestination"@, "GridPreference"@);
    law_names_differ("HyperlinkTextDestination"@, "HyperlinkURLDestination"@);
    assert("HyperlinkTextDestination"@[9] != "HyperlinkPageDestination"@[9]);
    law_names_differ("HyperlinkTextDestination"@, "HyperlinkPageDestination"@);
    law_names_differ("HyperlinkTextDestination"@, "Section"@);
    law_names_differ("HyperlinkTextDestination"@, "Article"@);
    law_names_differ("HyperlinkTextDestination"@, "Hyperlink"@);
    law_names_differ("HyperlinkTextDestination"@, "Bookmark"@);
    law_names_differ("HyperlinkTextDestination"@, "CrossReferenceSource"@);
    law_names_differ("HyperlinkTextDestination"@, "Topic"@);
    law_names_differ("HyperlinkTextDestination"@, "idPkg:Spread"@);
    law_names_differ("HyperlinkTextDestination"@, "idPkg:Story"@);
    law_names_differ("HyperlinkTextDestination"@, "idPkg:MasterSpread"@);
}

/// No other name is `Section`.
proof fn lemma_section_name()
    ensures
        encode_utf8("Section"@) != encode_utf8("Layer"@),
        encode_utf8("Section"@) != encode_utf8("TextVariable"@),
        encode_utf8("Section"@) != encode_utf8("TextVariablePreference"@),
        encode_utf8("Section"@) != encode_utf8("Document"@),
        encode_utf8("Section"@) != encode_utf8("DocumentPreference"@),
        encode_utf8("Section"@) != encode_utf8("FootnoteOption"@),
        encode_utf8("Section"@) != encode_utf8("GridPreference"@),
        encode_utf8("Section"@) != encode_utf8("HyperlinkURLDestination"@),
        encode_utf8("Section"@) != encode_utf8("HyperlinkPageDestination"@),
        encode_utf8("Section"@) != encode_utf8("HyperlinkTextDestination"@),
        encode_utf8("Section"@) != encode_utf8("Article"@),
        encode_utf8("Section"@) != encode_utf8("Hyperlink"@),
        encode_utf8("Section"@) != encode_utf8("Bookmark"@),
        encode_utf8("Section"@) != encode_utf8("CrossReferenceSource"@),
        encode_utf8("Section"@) != encode_utf8("Topic"@),
        encode_utf8("Section"@) != encode_utf8("idPkg:Spread"@),
        encode_utf8("Section"@) != encode_utf8("idPkg:Story"@),
        encode_utf8("Section"@) != encode_utf8("idPkg:MasterSpread"@),
{
    reveal_strlit("Section");
    reveal_strlit("Layer");
    reveal_strlit("TextVariable");
    reveal_strlit("TextVariablePreference");
    reveal_strlit("Document");
    reveal_strlit("DocumentPreference");
    reveal_strlit("FootnoteOption");
    reveal_strlit("GridPreference");
    reveal_strlit("HyperlinkURLDestination");
    reveal_strlit("HyperlinkPageDestination");
    reveal_strlit("HyperlinkTextDestination");
    reveal_strlit("Article");
    reveal_strlit("Hyperlink");
    reveal_strlit("Bookmark");
    reveal_strlit("CrossReferenceSource");
    reveal_strlit("Topic");
    reveal_strlit("idPkg:Spread");
    reveal_strlit("idPkg:Story");
    reveal_strlit("idPkg:MasterSpread");
    law_names_differ("Section"@, "Layer"@);
    law_names_differ("Section"@, "TextVariable"@);
    law_names_differ("Section"@, "TextVariablePreference"@);
    law_names_differ("Section"@, "Document"@);
    law_names_differ("Section"@, "DocumentPreference"@);
    law_names_differ("Section"@, "FootnoteOption"@);
    law_names_differ("Section"@, "GridPreference"@);
    law_names_differ("Section"@, "HyperlinkURLDestination"@);
    law_names_differ("Section"@, "HyperlinkPageDestination"@);
    law_names_differ("Section"@, "HyperlinkTextDestination"@);
    assert("Section"@[0] != "Article"@[0]);
    law_names_differ("Section"@, "Article"@);
    law_names_differ("Section"@, "Hyperlink"@);
    law_names_differ("Section"@, "Bookmark"@);
    law_names_differ("Section"@, "CrossReferenceSource"@);
    law_names_differ("Section"@, "Topic"@);
    law_names_differ("Section"@, "idPkg:Spread"@);
    law_names_differ("Section"@, "idPkg:Story"@);
    law_names_differ("Section"@, "idPkg:MasterSpread"@);
}

/// No other name is `Article`.
proof fn lemma_article_name()
    ensures
        encode_utf8("Article"@) != encode_utf8("Layer"@),
        encode_utf8("Article"@) != encode_utf8("TextVariable"@),
        encode_utf8("Article"@) != encode_utf8("TextVariablePreference"@),
        encode_utf8("Article"@) != encode_utf8("Document"@),
        encode_utf8("Article"@) != encode_utf8("DocumentPreference"@),
        encode_utf8("Article"@) != encode_utf8("FootnoteOption"@),
        encode_utf8("Article"@) != encode_utf8("GridPreference"@),
        encode_utf8("Article"@) != encode_utf8("HyperlinkURLDestination"@),
        encode_utf8("Article"@) != encode_utf8("HyperlinkPageDestination"@),
        encode_utf8("Article"@) != encode_utf8("HyperlinkTextDestination"@),
        encode_utf8("Article"@) != encode_utf8("Section"@),
        encode_utf8("Article"@) != encode_utf8("Hyperlink"@),
        encode_utf8("Article"@) != encode_utf8("Bookmark"@),
        encode_utf8("Article"@) != encode_utf8("CrossReferenceSource"@),
        encode_utf8("Article"@) != encode_utf8("Topic"@),
        encode_utf8("Article"@) != encode_utf8("idPkg:Spread"@),
        encode_utf8("Article"@) != encode_utf8("idPkg:Story"@),
        encode_utf8("Article"@) != encode_utf8("idPkg:MasterSpread"@),
{
    reveal_strlit("Article");
    reveal_strlit("Layer");
    reveal_strlit("TextVariable");
    reveal_strlit("TextVariablePreference");
    reveal_strlit("Document");
    reveal_strlit("DocumentPreference");
    reveal_strlit("FootnoteOption");
    reveal_strlit("GridPreference");
    reveal_strlit("HyperlinkURLDestination");
    reveal_strlit("HyperlinkPageDestination");
    reveal_strlit("HyperlinkTextDestination");
    reveal_strlit("Section");
    reveal_strlit("Hyperlink");
    reveal_strlit("Bookmark");
    reveal_strlit("CrossReferenceSource");
    reveal_strlit("Topic");
    reveal_strlit("idPkg:Spread");
    reveal_strlit("idPkg:Story");
    reveal_strlit("idPkg:MasterSpread");
    law_names_differ("Article"@, "Layer"@);
    law_names_differ("Article"@, "TextVariable"@);
    law_names_differ("Article"@, "TextVariablePreference"@);
    law_names_differ("Article"@, "Document"@);
    law_names_differ("Article"@, "DocumentPreference"@);
    law_names_differ("Article"@, "FootnoteOption"@);
    law_names_differ("Article"@, "GridPreference"@);
    law_names_differ("Article"@, "HyperlinkURLDestination"@);
    law_names_differ("Article"@, "HyperlinkPageDestination"@);
    law_names_differ("Article"@, "HyperlinkTextDestination"@);
    assert("Article"@[0] != "Section"@[0]);
    law_names_differ("Article"@, "Section"@);
    law_names_differ("Article"@, "Hyperlink"@);
    law_names_differ("Article"@, "Bookmark"@);
    law_names_differ("Article"@, "CrossReferenceSource"@);
    law_names_differ("Article"@, "Topic"@);
    law_names_differ("Article"@, "idPkg:Spread"@);
    law_names_differ("Article"@, "idPkg:Story"@);
    law_names_differ("Article"@, "idPkg:MasterSpread"@);
}

/// No other name is `Hyperlink`.
proof fn lemma_hyperlink_name()
    ensures
        encode_utf8("Hyperlink"@) != encode_utf8("Layer"@),
        encode_utf8("Hyperlink"@) != encode_utf8("TextVariable"@),
        encode_utf8("Hyperlink"@) != encode_utf8("TextVariablePreference"@),
        encode_utf8("Hyperlink"@) != encode_utf8("Document"@),
        encode_utf8("Hyperlink"@) != encode_utf8("DocumentPreference"@),
        encode_utf8("Hyperlink"@) != encode_utf8("FootnoteOption"@),
        encode_utf8("Hyperlink"@) != encode_utf8("GridPreference"@),
        encode_utf8("Hyperlink"@) != encode_utf8("HyperlinkURLDestination"@),
        encode_utf8("Hyperlink"@) != encode_utf8("HyperlinkPageDestination"@),
        encode_utf8("Hyperlink"@) != encode_utf8("HyperlinkTextDestination"@),
        encode_utf8("Hyperlink"@) != encode_utf8("Section"@),
        encode_utf8("Hyperlink"@) != encode_utf8("Article"@),
        encode_utf8("Hyperlink"@) != encode_utf8("Bookmark"@),
        encode_utf8("Hyperlink"@) != encode_utf8("CrossReferenceSource"@),
        encode_utf8("Hyperlink"@) != encode_utf8("Topic"@),
        encode_utf8("Hyperlink"@) != encode_utf8("idPkg:Spread"@),
        encode_utf8("Hyperlink"@) != encode_utf8("idPkg:Story"@),
        encode_utf8("Hyperlink"@) != encode_utf8("idPkg:MasterSpread"@),
{
    reveal_strlit("Hyperlink");
    reveal_strlit("Layer");
    reveal_strlit("TextVariable");
    reveal_strlit("TextVariablePreference");
    reveal_strlit("Document");
    reveal_strlit("DocumentPreference");
    reveal_strlit("FootnoteOption");
    reveal_strlit("GridPreference");
    reveal_strlit("HyperlinkURLDestination");
    reveal_strlit("HyperlinkPageDestination");
    reveal_strlit("HyperlinkTextDestination");
    reveal_strlit("Section");
    reveal_strlit("Article");
    reveal_strlit("Bookmark");
    reveal_strlit("CrossReferenceSource");
    reveal_strlit("Topic");
    reveal_strlit("idPkg:Spread");
    reveal_strlit("idPkg:Story");
    reveal_strlit("idPkg:MasterSpread");
    law_names_differ("Hyperlink"@, "Layer"@);
    law_names_differ("Hyperlink"@, "TextVariable"@);
    law_names_differ("Hyperlink"@, "TextVariablePreference"@);
    law_names_differ("Hyperlink"@, "Document"@);
    law_names_differ("Hyperlink"@, "DocumentPreference"@);
    law_names_differ("Hyperlink"@, "FootnoteOption"@);
    law_names_differ("Hyperlink"@, "GridPreference"@);
    law_names_differ("Hyperlink"@, "HyperlinkURLDestination"@);
    law_names_differ("Hyperlink"@, "HyperlinkPageDestination"@);
    law_names_differ("Hyperlink"@, "HyperlinkTextDestination"@);
    law_names_differ("Hyperlink"@, "Section"@);
    law_names_differ("Hyperlink"@, "Article"@);
    law_names_differ("Hyperlink"@, "Bookmark"@);
    law_names_differ("Hyperlink"@, "CrossReferenceSource"@);
    law_names_differ("Hyperlink"@, "Topic"@);
    law_names_differ("Hyperlink"@, "idPkg:Spread"@);
    law_names_differ("Hyperlink"@, "idPkg:Story"@);
    law_names_differ("Hyperlink"@, "idPkg:MasterSpread"@);
}

/// No other name is `Bookmark`.
proof fn lemma_bookmark_name()
    ensures
        encode_utf8("Bookmark"@) != encode_utf8("Layer"@),
        encode_utf8("Bookmark"@) != encode_utf8("TextVariable"@),
        encode_utf8("Bookmark"@) != encode_utf8("TextVariablePreference"@),
        encode_utf8("Bookmark"@) != encode_utf8("Document"@),
        encode_utf8("Bookmark"@) != encode_utf8("DocumentPreference"@),
        encode_utf8("Bookmark"@) != encode_utf8("FootnoteOption"@),
        encode_utf8("Bookmark"@) != encode_utf8("GridPreference"@),
        encode_utf8("Bookmark"@) != encode_utf8("HyperlinkURLDestination"@),
        encode_utf8("Bookmark"@) != encode_utf8("HyperlinkPageDestination"@),
        encode_utf8("Bookmark"@) != encode_utf8("HyperlinkTextDestination"@),
        encode_utf8("Bookmark"@) != encode_utf8("Section"@),
        encode_utf8("Bookmark"@) != encode_utf8("Article"@),
        encode_utf8("Bookmark"@) != encode_utf8("Hyperlink"@),
        encode_utf8("Bookmark"@) != encode_utf8("CrossReferenceSource"@),
        encode_utf8("Bookmark"@) != encode_utf8("Topic"@),
        encode_utf8("Bookmark"@) != encode_utf8("idPkg:Spread"@),
        encode_utf8("Bookmark"@) != encode_utf8("idPkg:Story"@),
        encode_utf8("Bookmark"@) != encode_utf8("idPkg:MasterSpread"@),
{
    reveal_strlit("Bookmark");
    reveal_strlit("Layer");
    reveal_strlit("TextVariable");
    reveal_strlit("TextVariablePreference");
    reveal_strlit("Document");
    reveal_strlit("DocumentPreference");
    reveal_strlit("FootnoteOption");
    reveal_strlit("GridPreference");
    reveal_strlit("HyperlinkURLDestination");
    reveal_strlit("HyperlinkPageDestination");
    reveal_strlit("HyperlinkTextDestination");
    reveal_strlit("Section");
    reveal_strlit("Article");
    reveal_strlit("Hyperlink");
    reveal_strlit("CrossReferenceSource");
    reveal_strlit("Topic");
    reveal_strlit("idPkg:Spread");
    reveal_strlit("idPkg:Story");
    reveal_strlit("idPkg:MasterSpread");
    law_names_differ("Bookmark"@, "Layer"@);
    law_names_differ("Bookmark"@, "TextVariable"@);
    law_names_differ("Bookmark"@, "TextVariablePreference"@);
    assert("Bookmark"@[0] != "Document"@[0]);
    law_names_differ("Bookmark"@, "Document"@);
    law_names_differ("Bookmark"@, "DocumentPreference"@);
    law_names_differ("Bookmark"@, "FootnoteOption"@);
    law_names_differ("Bookmark"@, "GridPreference"@);
    law_names_differ("Bookmark"@, "HyperlinkURLDestination"@);
    law_names_differ("Bookmark"@, "HyperlinkPageDestination"@);
    law_names_differ("Bookmark"@, "HyperlinkTextDestination"@);
    law_names_differ("Bookmark"@, "Section"@);
    law_names_differ("Bookmark"@, "Article"@);
    law_names_differ("Bookmark"@, "Hyperlink"@);
    law_names_differ("Bookmark"@, "CrossReferenceSource"@);
    law_names_differ("Bookmark"@, "Topic"@);
    law_names_differ("Bookmark"@, "idPkg:Spread"@);
    law_names_differ("Bookmark"@, "idPkg:Story"@);
    law_names_differ("Bookmark"@, "idPkg:MasterSpread"@);
}

/// No other name is `CrossReferenceSource`.
proof fn lemma_source_name()
    ensures
        encode_utf8("CrossReferenceSource"@) != encode_utf8("Layer"@),
        encode_utf8("CrossReferenceSource"@) != encode_utf8("TextVariable"@),
        encode_utf8("CrossReferenceSource"@) != encode_utf8("TextVariablePreference"@),
        encode_utf8("CrossReferenceSource"@) != encode_utf8("Document"@),
        encode_utf8("CrossReferenceSource"@) != encode_utf8("DocumentPreference"@),
        encode_utf8("CrossReferenceSource"@) != encode_utf8("FootnoteOption"@),
        encode_utf8("CrossReferenceSource"@) != encode_utf8("GridPreference"@),
        encode_utf8("CrossReferenceSource"@) != encode_utf8("HyperlinkURLDestination"@),
        encode_utf8("CrossReferenceSource"@) != encode_utf8("HyperlinkPageDestination"@),
        encode_utf8("CrossReferenceSource"@) != encode_utf8("HyperlinkTextDestination"@),
        encode_utf8("CrossReferenceSource"@) != encode_utf8("Section"@),
        encode_utf8("CrossReferenceSource"@) != encode_utf8("Article"@),
        encode_utf8("CrossReferenceSource"@) != encode_utf8("Hyperlink"@),
        encode_utf8("CrossReferenceSource"@) != encode_utf8("Bookmark"@),
        encode_utf8("CrossReferenceSource"@) != encode_utf8("Topic"@),
        encode_utf8("CrossReferenceSource"@) != encode_utf8("idPkg:Spread"@),
        encode_utf8("CrossReferenceSource"@) != encode_utf8("idPkg:Story"@),
        encode_utf8("CrossReferenceSource"@) != encode_utf8("idPkg:MasterSpread"@),
{
    reveal_strlit("CrossReferenceSource");
    reveal_strlit("Layer");
    reveal_strlit("TextVariable");
    reveal_strlit("TextVariablePreference");
    reveal_strlit("Document");
    reveal_strlit("DocumentPreference");
    reveal_strlit("FootnoteOption");
    reveal_strlit("GridPreference");
    reveal_strlit("HyperlinkURLDestination");
    reveal_strlit("HyperlinkPageDestination");
    reveal_strlit("HyperlinkTextDestination");
    reveal_strlit("Section");
    reveal_strlit("Article");
    reveal_strlit("Hyperlink");
    reveal_strlit("Bookmark");
    reveal_strlit("Topic");
    reveal_strlit("idPkg:Spread");
    reveal_strlit("idPkg:Story");
    reveal_strlit("idPkg:MasterSpread");
    law_names_differ("CrossReferenceSource"@, "Layer"@);
    law_names_differ("CrossReferenceSource"@, "TextVariable"@);
    law_names_differ("CrossReferenceSource"@, "TextVariablePreference"@);
    law_names_differ("CrossReferenceSource"@, "Document"@);
    law_names_differ("CrossReferenceSource"@, "DocumentPreference"@);
    law_names_differ("CrossReferenceSource"@, "FootnoteOption"@);
    law_names_differ("CrossReferenceSource"@, "GridPreference"@);
    law_names_differ("CrossReferenceSource"@, "HyperlinkURLDestination"@);
    law_names_differ("CrossReferenceSource"@, "HyperlinkPageDestination"@);
    law_names_differ("CrossReferenceSource"@, "HyperlinkTextDestination"@);
    law_names_differ("CrossReferenceSource"@, "Section"@);
    law_names_differ("CrossReferenceSource"@, "Article"@);
    law_names_differ("CrossReferenceSource"@, "Hyperlink"@);
    law_names_differ("CrossReferenceSource"@, "Bookmark"@);
    law_names_differ("CrossReferenceSource"@, "Topic"@);
    law_names_differ("CrossReferenceSource"@, "idPkg:Spread"@);
    law_names_differ("CrossReferenceSource"@, "idPkg:Story"@);
    law_names_differ("CrossReferenceSource"@, "idPkg:MasterSpread"@);
}

/// No other name is `Topic`.
proof fn lemma_topic_name()
    ensures
        encode_utf8("Topic"@) != encode_utf8("Layer"@),
        encode_utf8("Topic"@) != encode_utf8("TextVariable"@),
        encode_utf8("Topic"@) != encode_utf8("TextVariablePreference"@),
        encode_utf8("Topic"@) != encode_utf8("Document"@),
        encode_utf8("Topic"@) != encode_utf8("DocumentPreference"@),
        encode_utf8("Topic"@) != encode_utf8("FootnoteOption"@),
        encode_utf8("Topic"@) != encode_utf8("GridPreference"@),
        encode_utf8("Topic"@) != encode_utf8("HyperlinkURLDestination"@),
        encode_utf8("Topic"@) != encode_utf8("HyperlinkPageDestination"@),
        encode_utf8("Topic"@) != encode_utf8("HyperlinkTextDestination"@),
        encode_utf8("Topic"@) != encode_utf8("Section"@),
        encode_utf8("Topic"@) != encode_utf8("Article"@),
        encode_utf8("Topic"@) != encode_utf8("Hyperlink"@),
        encode_utf8("Topic"@) != encode_utf8("Bookmark"@),
        encode_utf8("Topic"@) != encode_utf8("CrossReferenceSource"@),
        encode_utf8("Topic"@) != encode_utf8("idPkg:Spread"@),
        encode_utf8("Topic"@) != encode_utf8("idPkg:Story"@),
        encode_utf8("Topic"@) != encode_utf8("idPkg:MasterSpread"@),
{
    reveal_strlit("Topic");
    reveal_strlit("Layer");
    reveal_strlit("TextVariable");
    reveal_strlit("TextVariablePreference");
    reveal_strlit("Document");
    reveal_strlit("DocumentPreference");
    reveal_strlit("FootnoteOption");
    reveal_strlit("GridPreference");
    reveal_strlit("HyperlinkURLDestination");
    reveal_strlit("HyperlinkPageDestination");
    reveal_strlit("HyperlinkTextDestination");
    reveal_strlit("Section");
    reveal_strlit("Article");
    reveal_strlit("Hyperlink");
    reveal_strlit("Bookmark");
    reveal_strlit("CrossReferenceSource");
    reveal_strlit("idPkg:Spread");
    reveal_strlit("idPkg:Story");
    reveal_strlit("idPkg:MasterSpread");
    assert("Topic"@[0] != "Layer"@[0]);
    law_names_differ("Topic"@, "Layer"@);
    law_names_differ("Topic"@, "TextVariable"@);
    law_names_differ("Topic"@, "TextVariablePreference"@);
    law_names_differ("Topic"@, "Document"@);
    law_names_differ("Topic"@, "DocumentPreference"@);
    law_names_differ("Topic"@, "FootnoteOption"@);
    law_names_differ("Topic"@, "GridPreference"@);
    law_names_differ("Topic"@, "HyperlinkURLDestination"@);
    law_names_differ("Topic"@, "HyperlinkPageDestination"@);
    law_names_differ("Topic"@, "HyperlinkTextDestination"@);
    law_names_differ("Topic"@, "Section"@);
    law_names_differ("Topic"@, "Article"@);
    law_names_differ("Topic"@, "Hyperlink"@);
    law_names_differ("Topic"@, "Bookmark"@);
    law_names_differ("Topic"@, "CrossReferenceSource"@);
    law_names_differ("Topic"@, "idPkg:Spread"@);
    law_names_differ("Topic"@, "idPkg:Story"@);
    law_names_differ("Topic"@, "idPkg:MasterSpread"@);
}

/// No other name is `idPkg:Spread`.
proof fn lemma_spread_name()
    ensures
        encode_utf8("idPkg:Spread"@) != encode_utf8("Layer"@),
        encode_utf8("idPkg:Spread"@) != encode_utf8("TextVariable"@),
        encode_utf8("idPkg:Spread"@) != encode_utf8("TextVariablePreference"@),
        encode_utf8("idPkg:Spread"@) != encode_utf8("Document"@),
        encode_utf8("idPkg:Spread"@) != encode_utf8("DocumentPreference"@),
        encode_utf8("idPkg:Spread"@) != encode_utf8("FootnoteOption"@),
        encode_utf8("idPkg:Spread"@) != encode_utf8("GridPreference"@),
        encode_utf8("idPkg:Spread"@) != encode_utf8("HyperlinkURLDestination"@),
        encode_utf8("idPkg:Spread"@) != encode_utf8("HyperlinkPageDestination"@),
        encode_utf8("idPkg:Spread"@) != encode_utf8("HyperlinkTextDestination"@),
        encode_utf8("idPkg:Spread"@) != encode_utf8("Section"@),
        encode_utf8("idPkg:Spread"@) != encode_utf8("Article"@),
        encode_utf8("idPkg:Spread"@) != encode_utf8("Hyperlink"@),
        encode_utf8("idPkg:Spread"@) != encode_utf8("Bookmark"@),
        encode_utf8("idPkg:Spread"@) != encode_utf8("CrossReferenceSource"@),
        encode_utf8("idPkg:Spread"@) != encode_utf8("Topic"@),
        encode_utf8("idPkg:Spread"@) != encode_utf8("idPkg:Story"@),
        encode_utf8("idPkg:Spread"@) != encode_utf8("idPkg:MasterSpread"@),
{
    reveal_strlit("idPkg:Spread");
    reveal_strlit("Layer");
    reveal_strlit("TextVariable");
    reveal_strlit("TextVariablePreference");
    reveal_strlit("Document");
    reveal_strlit("DocumentPreference");
    reveal_strlit("FootnoteOption");
    reveal_strlit("GridPreference");
    reveal_strlit("HyperlinkURLDestination");
    reveal_strlit("HyperlinkPageDestination");
    reveal_strlit("HyperlinkTextDestination");
    reveal_strlit("Section");
    reveal_strlit("Article");
    reveal_strlit("Hyperlink");
    reveal_strlit("Bookmark");
    reveal_strlit("CrossReferenceSource");
    reveal_strlit("Topic");
    reveal_strlit("idPkg:Story");
    reveal_strlit("idPkg:MasterSpread");
    law_names_differ("idPkg:Spread"@, "Layer"@);
    assert("idPkg:Spread"@[0] != "TextVariable"@[0]);
    law_names_differ("idPkg:Spread"@, "TextVariable"@);
    law_names_differ("idPkg:Spread"@, "TextVariablePreference"@);
    law_names_differ("idPkg:Spread"@, "Document"@);
    law_names_differ("idPkg:Spread"@, "DocumentPreference"@);
    law_names_differ("idPkg:Spread"@, "FootnoteOption"@);
    law_names_differ("idPkg:Spread"@, "GridPreference"@);
    law_names_differ("idPkg:Spread"@, "HyperlinkURLDestination"@);
    law_names_differ("idPkg:Spread"@, "HyperlinkPageDestination"@);
    law_names_differ("idPkg:Spread"@, "HyperlinkTextDestination"@);
    law_names_differ("idPkg:Spread"@, "Section"@);
    law_names_differ("idPkg:Spread"@, "Article"@);
    law_names_differ("idPkg:Spread"@, "Hyperlink"@);
    law_names_differ("idPkg:Spread"@, "Bookmark"@);
    law_names_differ("idPkg:Spread"@, "CrossReferenceSource"@);
    law_names_differ("idPkg:Spread"@, "Topic"@);
    law_names_differ("idPkg:Spread"@, "idPkg:Story"@);
    law_names_differ("idPkg:Spread"@, "idPkg:MasterSpread"@);
}

/// No other name is `idPkg:Story`.
proof fn lemma_story_name()
    ensures
        encode_utf8("idPkg:Story"@) != encode_utf8("Layer"@),
        encode_utf8("idPkg:Story"@) != encode_utf8("TextVariable"@),
        encode_utf8("idPkg:Story"@) != encode_utf8("TextVariablePreference"@),
        encode_utf8("idPkg:Story"@) != encode_utf8("Document"@),
        encode_utf8("idPkg:Story"@) != encode_utf8("DocumentPreference"@),
        encode_utf8("idPkg:Story"@) != encode_utf8("FootnoteOption"@),
        encode_utf8("idPkg:Story"@) != encode_utf8("GridPreference"@),
        encode_utf8("idPkg:Story"@) != encode_utf8("HyperlinkURLDestination"@),
        encode_utf8("idPkg:Story"@) != encode_utf8("HyperlinkPageDestination"@),
        encode_utf8("idPkg:Story"@) != encode_utf8("HyperlinkTextDestination"@),
        encode_utf8("idPkg:Story"@) != encode_utf8("Section"@),
        encode_utf8("idPkg:Story"@) != encode_utf8("Article"@),
        encode_utf8("idPkg:Story"@) != encode_utf8("Hyperlink"@),
        encode_utf8("idPkg:Story"@) != encode_utf8("Bookmark"@),
        encode_utf8("idPkg:Story"@) != encode_utf8("CrossReferenceSource"@),
        encode_utf8("idPkg:Story"@) != encode_utf8("Topic"@),
        encode_utf8("idPkg:Story"@) != encode_utf8("idPkg:Spread"@),
        encode_utf8("idPkg:Story"@) != encode_utf8("idPkg:MasterSpread"@),
{
    reveal_strlit("idPkg:Story");
    reveal_strlit("Layer");
    reveal_strlit("TextVariable");
    reveal_strlit("TextVariablePreference");
    reveal_strlit("Document");
    reveal_strlit("DocumentPreference");
    reveal_strlit("FootnoteOption");
    reveal_strlit("GridPreference");
    reveal_strlit("HyperlinkURLDestination");
    reveal_strlit("HyperlinkPageDestination");
    reveal_strlit("HyperlinkTextDestination");
    reveal_strlit("Section");
    reveal_strlit("Article");
    reveal_strlit("Hyperlink");
    reveal_strlit("Bookmark");
    reveal_strlit("CrossReferenceSource");
    reveal_strlit("Topic");
    reveal_strlit("idPkg:Spread");
    reveal_strlit("idPkg:MasterSpread");
    law_names_differ("idPkg:Story"@, "Layer"@);
    law_names_differ("idPkg:Story"@, "TextVariable"@);
    law_names_differ("idPkg:Story"@, "TextVariablePreference"@);
    law_names_differ("idPkg:Story"@, "Document"@);
    law_names_differ("idPkg:Story"@, "DocumentPreference"@);
    law_names_differ("idPkg:Story"@, "FootnoteOption"@);
    law_names_differ("idPkg:Story"@, "GridPreference"@);
    law_names_differ("idPkg:Story"@, "HyperlinkURLDestination"@);
    law_names_differ("idPkg:Story"@, "HyperlinkPageDestination"@);
    law_names_differ("idPkg:Story"@, "HyperlinkTextDestination"@);
    law_names_differ("idPkg:Story"@, "Section"@);
    law_names_differ("idPkg:Story"@, "Article"@);
    law_names_differ("idPkg:Story"@, "Hyperlink"@);
    law_names_differ("idPkg:Story"@, "Bookmark"@);
    law_names_differ("idPkg:Story"@, "CrossReferenceSource"@);
    law_names_differ("idPkg:Story"@, "Topic"@);
    law_names_differ("idPkg:Story"@, "idPkg:Spread"@);
    law_names_differ("idPkg:Story"@, "idPkg:MasterSpread"@);
}

/// No other name is `idPkg:MasterSpread`.
proof fn lemma_master_name()
    ensures
        encode_utf8("idPkg:MasterSpread"@) != encode_utf8("Layer"@),
        encode_utf8("idPkg:MasterSpread"@) != encode_utf8("TextVariable"@),
        encode_utf8("idPkg:MasterSpread"@) != encode_utf8("TextVariablePreference"@),
        encode_utf8("idPkg:MasterSpread"@) != encode_utf8("Document"@),
        encode_utf8("idPkg:MasterSpread"@) != encode_utf8("DocumentPreference"@),
        encode_utf8("idPkg:MasterSpread"@) != encode_utf8("FootnoteOption"@),
        encode_utf8("idPkg:MasterSpread"@) != encode_utf8("GridPreference"@),
        encode_utf8("idPkg:MasterSpread"@) != encode_utf8("HyperlinkURLDestination"@),
        encode_utf8("idPkg:MasterSpread"@) != encode_utf8("HyperlinkPageDestination"@),
        encode_utf8("idPkg:MasterSpread"@) != encode_utf8("HyperlinkTextDestination"@),
        encode_utf8("idPkg:MasterSpread"@) != encode_utf8("Section"@),
        encode_utf8("idPkg:MasterSpread"@) != encode_utf8("Article"@),
        encode_utf8("idPkg:MasterSpread"@) != encode_utf8("Hyperlink"@),
        encode_utf8("idPkg:MasterSpread"@) != encode_utf8("Bookmark"@),
        encode_utf8("idPkg:MasterSpread"@) != encode_utf8("CrossReferenceSource"@),
        encode_utf8("idPkg:MasterSpread"@) != encode_utf8("Topic"@),
        encode_utf8("idPkg:MasterSpread"@) != encode_utf8("idPkg:Spread"@),
        encode_utf8("idPkg:MasterSpread"@) != encode_utf8("idPkg:Story"@),
{
    reveal_strlit("idPkg:MasterSpread");
    reveal_strlit("Layer");
    reveal_strlit("TextVariable");
    reveal_strlit("TextVariablePreference");
    reveal_strlit("Document");
    reveal_strlit("DocumentPreference");
    reveal_strlit("FootnoteOption");
    reveal_strlit("GridPreference");
    reveal_strlit("HyperlinkURLDestination");
    reveal_strlit("HyperlinkPageDestination");
    reveal_strlit("HyperlinkTextDestination");
    reveal_strlit("Section");
    reveal_strlit("Article");
    reveal_strlit("Hyperlink");
    reveal_strlit("Bookmark");
    reveal_strlit("CrossReferenceSource");
    reveal_strlit("Topic");
    reveal_strlit("idPkg:Spread");
    reveal_strlit("idPkg:Story");
    law_names_differ("idPkg:MasterSpread"@, "Layer"@);
    law_names_differ("idPkg:MasterSpread"@, "TextVariable"@);
    law_names_differ("idPkg:MasterSpread"@, "TextVariablePreference"@);
    law_names_differ("idPkg:MasterSpread"@, "Document"@);
    assert("idPkg:MasterSpread"@[0] != "DocumentPreference"@[0]);
    law_names_differ("idPkg:MasterSpread"@, "DocumentPreference"@);
    law_names_differ("idPkg:MasterSpread"@, "FootnoteOption"@);
    law_names_differ("idPkg:MasterSpread"@, "GridPreference"@);
    law_names_differ("idPkg:MasterSpread"@, "HyperlinkURLDestination"@);
    law_names_differ("idPkg:MasterSpread"@, "HyperlinkPageDestination"@);
    law_names_differ("idPkg:MasterSpread"@, "HyperlinkTextDestination"@);
    law_names_differ("idPkg:MasterSpread"@, "Section"@);
    law_names_differ("idPkg:MasterSpread"@, "Article"@);
    law_names_differ("idPkg:MasterSpread"@, "Hyperlink"@);
    law_names_differ("idPkg:MasterSpread"@, "Bookmark"@);
    law_names_differ("idPkg:MasterSpread"@, "CrossReferenceSource"@);
    law_names_differ("idPkg:MasterSpread"@, "Topic"@);
    law_names_differ("idPkg:MasterSpread"@, "idPkg:Spread"@);
    law_names_differ("idPkg:MasterSpread"@, "idPkg:Story"@);
}

/// How a tag states one of the sections.
pub open spec fn states_sections() -> spec_fn(TagView) -> Option<SectionView> {
    |tag: TagView|
        if tag.is("Section"@) {
            section_of(tag)
        } else {
            None
        }
}

/// The sections of a manifest are all that are stated, in order.
pub proof fn law_sections_are_as_stated(events: Seq<EventView>, n: nat)
    ensures
        after_events(events, n).out.sections == stated(events, n, states_sections()),
    decreases n,
{
    if n > 0 {
        law_sections_are_as_stated(events, (n - 1) as nat);
        if let EventView::Open(tag) = events[n - 1] {
            if tag.is("Section"@) {
                lemma_section_name();
            }
        }
    }
}

/// How a tag states one of the articles.
pub open spec fn states_articles() -> spec_fn(TagView) -> Option<ArticleView> {
    |tag: TagView|
        if tag.is("Article"@) {
            article_of(tag)
        } else {
            None
        }
}

/// The articles of a manifest are all that are stated, in order.
pub proof fn law_articles_are_as_stated(events: Seq<EventView>, n: nat)
    ensures
        after_events(events, n).out.articles == stated(events, n, states_articles()),
    decreases n,
{
    if n > 0 {
        law_articles_are_as_stated(events, (n - 1) as nat);
        if let EventView::Open(tag) = events[n - 1] {
            if tag.is("Article"@) {
                lemma_article_name();
            }
        }
    }
}

/// How a tag states one of the hyperlinks.
pub open spec fn states_hyperlinks() -> spec_fn(TagView) -> Option<HyperlinkView> {
    |tag: TagView|
        if tag.is("Hyperlink"@) {
            hyperlink_of(tag)
        } else {
            None
        }
}

/// The hyperlinks of a manifest are all that are stated, in order.
pub proof fn law_hyperlinks_are_as_stated(events: Seq<EventView>, n: nat)
    ensures
        after_events(events, n).out.hyperlinks == stated(events, n, states_hyperlinks()),
    decreases n,
{
    if n > 0 {
        law_hyperlinks_are_as_stated(events, (n - 1) as nat);
        if let EventView::Open(tag) = events[n - 1] {
            if tag.is("Hyperlink"@) {
                lemma_hyperlink_name();
            }
        }
    }
}

/// How a tag states one of the bookmarks.
pub open spec fn states_bookmarks() -> spec_fn(TagView) -> Option<BookmarkView> {
    |tag: TagView|
        if tag.is("Bookmark"@) {
            bookmark_of(tag)
        } else {
            None
        }
}

/// The bookmarks of a manifest are all that are stated, in order.
pub proof fn law_bookmarks_are_as_stated(events: Seq<EventView>, n: nat)
    ensures
        after_events(events, n).out.bookmarks == stated(events, n, states_bookmarks()),
    decreases n,
{
    if n > 0 {
        law_bookmarks_are_as_stated(events, (n - 1) as nat);
        if let EventView::Open(tag) = events[n - 1] {
            if tag.is("Bookmark"@) {
                lemma_bookmark_name();
            }
        }
    }
}

/// How a tag states one of the cross-references.
pub open spec fn states_cross_references() -> spec_fn(TagView) -> Option<CrossReferenceView> {
    |tag: TagView|
        if tag.is("CrossReferenceSource"@) {
            cross_reference_of(tag)
        } else {
            None
        }
}

/// The cross-references of a manifest are all that are stated, in order.
pub proof fn law_cross_references_are_as_stated(events: Seq<EventView>, n: nat)
    ensures
        after_events(events, n).out.cross_references == stated(
            events,
            n,
            states_cross_references(),
        ),
    decreases n,
{
    if n > 0 {
        law_cross_references_are_as_stated(events, (n - 1) as nat);
        if let EventView::Open(tag) = events[n - 1] {
            if tag.is("CrossReferenceSource"@) {
                lemma_source_name();
            }
        }
    }
}

/// How a tag states one of the topics of the index.
pub open spec fn states_index_topics() -> spec_fn(TagView) -> Option<IndexTopicView> {
    |tag: TagView|
        if tag.is("Topic"@) {
            index_topic_of(tag)
        } else {
            None
        }
}

/// The topics of the index of a manifest are all that are stated, in order.
pub proof fn law_index_topics_are_as_stated(events: Seq<EventView>, n: nat)
    ensures
        after_events(events, n).out.index_topics == stated(events, n, states_index_topics()),
    decreases n,
{
    if n > 0 {
        law_index_topics_are_as_stated(events, (n - 1) as nat);
        if let EventView::Open(tag) = events[n - 1] {
            if tag.is("Topic"@) {
                lemma_topic_name();
            }
        }
    }
}

/// The paths of the spreads that a tag names.
pub open spec fn names_spreads() -> spec_fn(TagView) -> Option<Seq<char>> {
    |tag: TagView|
        if tag.is("idPkg:Spread"@) {
            tag.text("src"@)
        } else {
            None
        }
}

/// The spreads of a manifest are all that are named, in order.
pub proof fn law_spreads_are_as_named(events: Seq<EventView>, n: nat)
    ensures
        ({
            let listed = after_events(events, n).out.spreads;
            let named = stated(events, n, names_spreads());
            &&& listed.len() == named.len()
            &&& forall|i: int|
                0 <= i < listed.len() ==> (#[trigger] listed[i]).src == named[i]
        }),
    decreases n,
{
    if n > 0 {
        law_spreads_are_as_named(events, (n - 1) as nat);
        if let EventView::Open(tag) = events[n - 1] {
            if tag.is("idPkg:Spread"@) {
                lemma_spread_name();
            }
        }
    }
}

/// The paths of the stories that a tag names.
pub open spec fn names_stories() -> spec_fn(TagView) -> Option<Seq<char>> {
    |tag: TagView|
        if tag.is("idPkg:Story"@) {
            tag.text("src"@)
        } else {
            None
        }
}

/// The stories of a manifest are all that are named, in order.
pub proof fn law_stories_are_as_named(events: Seq<EventView>, n: nat)
    ensures
        ({
            let listed = after_events(events, n).out.stories;
            let named = stated(events, n, names_stories());
            &&& listed.len() == named.len()
            &&& forall|i: int|
                0 <= i < listed.len() ==> (#[trigger] listed[i]).src == named[i]
        }),
    decreases n,
{
    if n > 0 {
        law_stories_are_as_named(events, (n - 1) as nat);
        if let EventView::Open(tag) = events[n - 1] {
            if tag.is("idPkg:Story"@) {
                lemma_story_name();
            }
        }
    }
}

/// The paths of the master spreads that a tag names.
pub open spec fn names_master_spreads() -> spec_fn(TagView) -> Option<Seq<char>> {
    |tag: TagView|
        if tag.is("idPkg:MasterSpread"@) {
            tag.text("src"@)
        } else {
            None
        }
}

/// The master spreads of a manifest are all that are named, in order.
pub proof fn law_master_spreads_are_as_named(events: Seq<EventView>, n: nat)
    ensures
        ({
            let listed = after_events(events, n).out.master_spreads;
            let named = stated(events, n, names_master_spreads());
            &&& listed.len() == named.len()
            &&& forall|i: int|
                0 <= i < listed.len() ==> (#[trigger] listed[i]) == named[i]
        }),
    decreases n,
{
    if n > 0 {
        law_master_spreads_are_as_named(events, (n - 1) as nat);
        if let EventView::Open(tag) = events[n - 1] {
            if tag.is("idPkg:MasterSpread"@) {
                lemma_master_name();
            }
        }
    }
}

/// How a tag states a destination.
pub open spec fn states_destinations() -> spec_fn(TagView) -> Option<HyperlinkDestinationView> {
    |tag: TagView|
        if tag.is("HyperlinkURLDestination"@) {
            url_destination_of(tag)
        } else if tag.is("HyperlinkPageDestination"@) {
            page_destination_of(tag)
        } else if tag.is("HyperlinkTextDestination"@) {
            text_destination_of(tag)
        } else {
            None
        }
}

/// The destinations of a manifest are all that are stated, in order.
pub proof fn law_destinations_are_as_stated(events: Seq<EventView>, n: nat)
    ensures
        after_events(events, n).out.hyperlink_destinations == stated(
            events,
            n,
            states_destinations(),
        ),
    decreases n,
{
    if n > 0 {
        law_destinations_are_as_stated(events, (n - 1) as nat);
        if let EventView::Open(tag) = events[n - 1] {
            if tag.is("HyperlinkURLDestination"@) {
                lemma_url_destination_name();
            }
            if tag.is("HyperlinkPageDestination"@) {
                lemma_page_destination_name();
            }
            if tag.is("HyperlinkTextDestination"@) {
                lemma_text_destination_name();
            }
        }
    }
}

/// The identifier of the layer that a tag states.
pub open spec fn names_layers() -> spec_fn(TagView) -> Option<Seq<char>> {
    |tag: TagView|
        if tag.is("Layer"@) {
            tag.text("Self"@)
        } else {
            None
        }
}

/// The layers of a manifest are all that are stated, in order.
pub proof fn law_layers_are_as_stated(events: Seq<EventView>, n: nat)
    ensures
        ({
            let layers = after_events(events, n).out.layers;
            let ids = stated(events, n, names_layers());
            &&& layers.len() == ids.len()
            &&& forall|i: int|
                0 <= i < layers.len() ==> (#[trigger] layers[i]).self_id == ids[i]
        }),
    decreases n,
{
    if n > 0 {
        law_layers_are_as_stated(events, (n - 1) as nat);
        if let EventView::Open(tag) = events[n - 1] {
            if tag.is("Layer"@) {
                lemma_layer_name();
            }
        }
    }
}

/// A layer is listed behind those that were there, all of which stay, under the
/// layer that is open.
pub proof fn law_layers_gather(st: ProgressView, tag: TagView)
    requires
        tag.is("Layer"@),
        tag.text("Self"@) is Some,
    ensures
        ({
            let after = after_event(st, EventView::Open(tag));
            &&& has_one_more(st.out.layers, after.out.layers)
            &&& after.out.layers.last().parent_id == if st.layer_stack.len() > 0 {
                Some(st.layer_stack.last())
            } else {
                None
            }
            &&& after.out == (DesignMapView { layers: after.out.layers, ..st.out })
            &&& tag.empty ==> after.layer_stack == st.layer_stack
            &&& !tag.empty ==> has_one_more(st.layer_stack, after.layer_stack)
                && after.layer_stack.last() == after.out.layers.last().self_id
        }),
{
    lemma_layer_name();
    let after = after_event(st, EventView::Open(tag));
    assert(after.out.layers.drop_last() =~= st.out.layers);
    if !tag.empty {
        assert(after.layer_stack.drop_last() =~= st.layer_stack);
    }
}

/// A text variable is listed behind those that were there, all of which stay: at
/// its tag, where that closes itself, else at the tag that closes it, with all that
/// was stated in between.
pub proof fn law_text_variables_gather(st: ProgressView, tag: TagView, var: TextVariableView)
    requires
        tag.is("TextVariable"@),
        text_variable_of(tag) == Some(var),
    ensures
        ({
            let after = after_event(st, EventView::Open(tag));
            if tag.empty {
                &&& has_one_more(st.out.text_variables, after.out.text_variables)
                &&& after.out.text_variables.last() == var
                &&& after.variable == st.variable
            } else {
                &&& after.out == st.out
                &&& after.variable == Some(var)
            }
        }),
        st.variable matches Some(open) ==> ({
            let after = after_event(st, EventView::End(encode_utf8("TextVariable"@)));
            &&& has_one_more(st.out.text_variables, after.out.text_variables)
            &&& after.out.text_variables.last() == open
            &&& after.variable is None
        }),
{
    lemma_variable_name();
    let n = st.out.text_variables;
    assert(n.push(var).drop_last() =~= n);
    if let Some(open) = st.variable {
        assert(n.push(open).drop_last() =~= n);
    }
}

/// What a preference states of the open text variable stands; what it does not
/// state stays as it was.
pub proof fn law_preference_adds_to_its_variable(
    st: ProgressView,
    tag: TagView,
    var: TextVariableView,
)
    requires
        tag.is("TextVariablePreference"@),
        st.variable == Some(var),
    ensures
        after_event(st, EventView::Open(tag)).variable matches Some(after) && {
            &&& after.self_id == var.self_id
            &&& after.name == var.name
            &&& after.variable_type == var.variable_type
            &&& after.contents == if tag.text("Contents"@) is Some {
                tag.text("Contents"@)
            } else {
                var.contents
            }
            &&& after.date_format == if tag.text("Format"@) is Some {
                tag.text("Format"@)
            } else {
                var.date_format
            }
            &&& after.text_before == if tag.text("TextBefore"@) is Some {
                tag.text("TextBefore"@)
            } else {
                var.text_before
            }
            &&& after.text_after == if tag.text("TextAfter"@) is Some {
                tag.text("TextAfter"@)
            } else {
                var.text_after
            }
        },
        after_event(st, EventView::Open(tag)).out == st.out,
{
    lemma_variable_preference_name();
}

/// A manifest lists the parts of the package that it names, in order.
pub proof fn law_manifest_names_its_parts(events: Seq<EventView>, i: int)
    ensures
        ({
            let map = designmap_of(events);
            let n = events.len();
            &&& map.spreads.len() == stated(events, n, names_spreads()).len()
            &&& map.stories.len() == stated(events, n, names_stories()).len()
            &&& map.master_spreads.len() == stated(events, n, names_master_spreads()).len()
            &&& 0 <= i < map.spreads.len() ==> map.spreads[i].src == stated(
                events,
                n,
                names_spreads(),
            )[i]
            &&& 0 <= i < map.stories.len() ==> map.stories[i].src == stated(
                events,
                n,
                names_stories(),
            )[i]
            &&& 0 <= i < map.master_spreads.len() ==> map.master_spreads[i] == stated(
                events,
                n,
                names_master_spreads(),
            )[i]
        }),
{
    law_spreads_are_as_named(events, events.len());
    law_stories_are_as_named(events, events.len());
    law_master_spreads_are_as_named(events, events.len());
}

} // verus!
