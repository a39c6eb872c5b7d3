//! The document as a whole: the parts that the manifest of a package lists, read
//! and put together.
use crate::archive::{
    as_slice, open_source_archive, package_of, states, zip_directory, SourceArchive,
    SourceArchiveView,
};
use crate::designmap::{designmap_of, parse_designmap, DesignMap, DesignMapView};
use crate::error::OpenError;
use crate::graphic::{graphic_of, no_swatches, parse_graphic, Graphic, GraphicView};
use crate::idmap::IdMap;
use crate::page_items::{Spread, SpreadView};
use crate::spread::{parse_spread, spread_of};
use crate::story::{parse_story, story_of};
use crate::story_model::{Story, StoryView};
use crate::styles::{no_styles, parse_stylesheet, stylesheet_of, StyleSheet, StyleSheetView};
use crate::util::push_item;
use crate::xml::xml_events;
use vstd::prelude::*;

verus! {

/// A spread, and the path of its part.
#[derive(Debug)]
pub struct ParsedSpread {
    pub src: String,
    pub spread: Spread,
}

/// What a [`ParsedSpread`] holds.
#[verifier::ext_equal]
pub struct ParsedSpreadView {
    pub src: Seq<char>,
    pub spread: SpreadView,
}

impl DeepView for ParsedSpread {
    type V = ParsedSpreadView;

    open spec fn deep_view(&self) -> ParsedSpreadView {
        ParsedSpreadView {
            src: self.src@,
            spread: self.spread.deep_view(),
        }
    }
}

/// A master spread, the path of its part and its identifier.
#[derive(Debug)]
pub struct ParsedMasterSpread {
    pub src: String,
    pub self_id: String,
    pub spread: Spread,
}

/// What a [`ParsedMasterSpread`] holds.
#[verifier::ext_equal]
pub struct ParsedMasterSpreadView {
    pub src: Seq<char>,
    pub self_id: Seq<char>,
    pub spread: SpreadView,
}

impl DeepView for ParsedMasterSpread {
    type V = ParsedMasterSpreadView;

    open spec fn deep_view(&self) -> ParsedMasterSpreadView {
        ParsedMasterSpreadView {
            src: self.src@,
            self_id: self.self_id@,
            spread: self.spread.deep_view(),
        }
    }
}

/// A story, and the path of its part.
#[derive(Debug)]
pub struct ReadStory {
    pub src: String,
    pub story: Story,
}

/// What a [`ReadStory`] holds.
#[verifier::ext_equal]
pub struct ReadStoryView {
    pub src: Seq<char>,
    pub story: StoryView,
}

impl DeepView for ReadStory {
    type V = ReadStoryView;

    open spec fn deep_view(&self) -> ReadStoryView {
        ReadStoryView {
            src: self.src@,
            story: self.story.deep_view(),
        }
    }
}

/// A story, the path of its part and its identifier.
#[derive(Debug)]
pub struct ParsedStory {
    pub src: String,
    pub self_id: String,
    pub story: Story,
}

/// What a [`ParsedStory`] holds.
#[verifier::ext_equal]
pub struct ParsedStoryView {
    pub src: Seq<char>,
    pub self_id: Seq<char>,
    pub story: StoryView,
}

impl DeepView for ParsedStory {
    type V = ParsedStoryView;

    open spec fn deep_view(&self) -> ParsedStoryView {
        ParsedStoryView {
            src: self.src@,
            self_id: self.self_id@,
            story: self.story.deep_view(),
        }
    }
}

/// What a package holds, as far as its manifest lists it.
#[derive(Debug)]
pub struct Parts {
    pub designmap: DesignMap,
    pub palette: Graphic,
    pub styles: StyleSheet,
    /// The master spreads, in the order of the manifest.
    pub master_spreads: Vec<ParsedSpread>,
    /// The spreads, in the order of the manifest.
    pub spreads: Vec<ParsedSpread>,
    /// The stories, in the order of the manifest.
    pub stories: Vec<ReadStory>,
}

/// What a [`Parts`] holds.
#[verifier::ext_equal]
pub struct PartsView {
    pub designmap: DesignMapView,
    pub palette: GraphicView,
    pub styles: StyleSheetView,
    pub master_spreads: Seq<ParsedSpreadView>,
    pub spreads: Seq<ParsedSpreadView>,
    pub stories: Seq<ReadStoryView>,
}

impl DeepView for Parts {
    type V = PartsView;

    open spec fn deep_view(&self) -> PartsView {
        PartsView {
            designmap: self.designmap.deep_view(),
            palette: self.palette.deep_view(),
            styles: self.styles.deep_view(),
            master_spreads: self.master_spreads.deep_view(),
            spreads: self.spreads.deep_view(),
            stories: self.stories.deep_view(),
        }
    }
}

/// A document: its parts, the master spreads and stories with their
/// identifiers.
#[derive(Debug)]
pub struct Document {
    pub designmap: DesignMap,
    pub palette: Graphic,
    pub spreads: Vec<ParsedSpread>,
    pub stories: Vec<ParsedStory>,
    /// The master spreads, by their identifiers.
    pub master_spreads: IdMap<ParsedMasterSpread>,
    pub styles: StyleSheet,
}

/// What a [`Document`] holds.
#[verifier::ext_equal]
pub struct DocumentView {
    pub designmap: DesignMapView,
    pub palette: GraphicView,
    pub spreads: Seq<ParsedSpreadView>,
    pub stories: Seq<ParsedStoryView>,
    pub master_spreads: Map<Seq<char>, ParsedMasterSpreadView>,
    pub styles: StyleSheetView,
}

impl DeepView for Document {
    type V = DocumentView;

    open spec fn deep_view(&self) -> DocumentView {
        DocumentView {
            designmap: self.designmap.deep_view(),
            palette: self.palette.deep_view(),
            spreads: self.spreads.deep_view(),
            stories: self.stories.deep_view(),
            master_spreads: self.master_spreads.deep_view(),
            styles: self.styles.deep_view(),
        }
    }
}

/// Why the parts of a package do not make a document.
pub ghost enum Shortfall {
    /// The manifest lists an entry that is not there.
    Missing(Seq<char>),
    /// A part is not well-formed.
    Malformed,
}

/// Whether `e` states the shortfall `why`.
pub open spec fn tells(e: OpenError, why: Shortfall) -> bool {
    match why {
        Shortfall::Missing(name) => e matches OpenError::MissingEntry(n) && n@ == name,
        Shortfall::Malformed => e matches OpenError::Parse(p) && p is Xml,
    }
}

/// The spread in the part `src`.
pub open spec fn spread_part(entries: Map<Seq<char>, Seq<u8>>, src: Seq<char>) -> Result<
    ParsedSpreadView,
    Shortfall,
> {
    if !entries.dom().contains(src) {
        Err(Shortfall::Missing(src))
    } else {
        match xml_events(entries[src], true) {
            None => Err(Shortfall::Malformed),
            Some(events) => Ok(ParsedSpreadView { src, spread: spread_of(events) }),
        }
    }
}

/// The spreads in the first `n` of the parts `sources`; the first part that
/// falls short decides.
pub open spec fn spread_parts(
    entries: Map<Seq<char>, Seq<u8>>,
    sources: Seq<Seq<char>>,
    n: nat,
) -> Result<Seq<ParsedSpreadView>, Shortfall>
    decreases n,
{
    if n == 0 {
        Ok(Seq::empty())
    } else {
        match spread_parts(entries, sources, (n - 1) as nat) {
            Err(why) => Err(why),
            Ok(read) => match spread_part(entries, sources[n - 1]) {
                Err(why) => Err(why),
                Ok(spread) => Ok(read.push(spread)),
            },
        }
    }
}

/// The spreads in the parts `sources`; the first part that falls short decides.
#[verifier::opaque]
pub open spec fn all_spreads(entries: Map<Seq<char>, Seq<u8>>, sources: Seq<Seq<char>>) -> Result<
    Seq<ParsedSpreadView>,
    Shortfall,
> {
    spread_parts(entries, sources, sources.len())
}

/// The story in the part `src`.
pub open spec fn story_part(entries: Map<Seq<char>, Seq<u8>>, src: Seq<char>) -> Result<
    ReadStoryView,
    Shortfall,
> {
    if !entries.dom().contains(src) {
        Err(Shortfall::Missing(src))
    } else {
        match xml_events(entries[src], false) {
            None => Err(Shortfall::Malformed),
            Some(events) => Ok(ReadStoryView { src, story: story_of(events) }),
        }
    }
}

/// The stories in the first `n` of the parts `sources`; the first part that
/// falls short decides.
pub open spec fn story_parts(
    entries: Map<Seq<char>, Seq<u8>>,
    sources: Seq<Seq<char>>,
    n: nat,
) -> Result<Seq<ReadStoryView>, Shortfall>
    decreases n,
{
    if n == 0 {
        Ok(Seq::empty())
    } else {
        match story_parts(entries, sources, (n - 1) as nat) {
            Err(why) => Err(why),
            Ok(read) => match story_part(entries, sources[n - 1]) {
                Err(why) => Err(why),
                Ok(story) => Ok(read.push(story)),
            },
        }
    }
}

/// The stories in the parts `sources`; the first part that falls short decides.
#[verifier::opaque]
pub open spec fn all_stories(entries: Map<Seq<char>, Seq<u8>>, sources: Seq<Seq<char>>) -> Result<
    Seq<ReadStoryView>,
    Shortfall,
> {
    story_parts(entries, sources, sources.len())
}

/// The palette of a package: an empty one where it has no part for it.
#[verifier::opaque]
pub open spec fn palette_part(entries: Map<Seq<char>, Seq<u8>>) -> Result<GraphicView, Shortfall> {
    if !entries.dom().contains("Resources/Graphic.xml"@) {
        Ok(no_swatches())
    } else {
        match xml_events(entries["Resources/Graphic.xml"@], true) {
            None => Err(Shortfall::Malformed),
            Some(events) => Ok(graphic_of(events)),
        }
    }
}

/// The styles of a package: none where it has no part for them.
#[verifier::opaque]
pub open spec fn styles_part(entries: Map<Seq<char>, Seq<u8>>) -> Result<
    StyleSheetView,
    Shortfall,
> {
    if !entries.dom().contains("Resources/Styles.xml"@) {
        Ok(no_styles())
    } else {
        match xml_events(entries["Resources/Styles.xml"@], true) {
            None => Err(Shortfall::Malformed),
            Some(events) => Ok(stylesheet_of(events)),
        }
    }
}

/// The paths of the spreads' parts.
pub open spec fn spread_sources(map: DesignMapView) -> Seq<Seq<char>> {
    Seq::new(map.spreads.len(), |i: int| map.spreads[i].src)
}

/// The paths of the stories' parts.
pub open spec fn story_sources(map: DesignMapView) -> Seq<Seq<char>> {
    Seq::new(map.stories.len(), |i: int| map.stories[i].src)
}

/// What the manifest `map` lists.
pub open spec fn listed_parts(map: DesignMapView, entries: Map<Seq<char>, Seq<u8>>) -> Result<
    PartsView,
    Shortfall,
> {
    match palette_part(entries) {
        Err(why) => Err(why),
        Ok(palette) => match styles_part(entries) {
            Err(why) => Err(why),
            Ok(styles) => match all_spreads(entries, map.master_spreads) {
                Err(why) => Err(why),
                Ok(master_spreads) => match all_spreads(entries, spread_sources(map)) {
                    Err(why) => Err(why),
                    Ok(spreads) => match all_stories(entries, story_sources(map)) {
                        Err(why) => Err(why),
                        Ok(stories) => Ok(
                            PartsView {
                                designmap: map,
                                palette,
                                styles,
                                master_spreads,
                                spreads,
                                stories,
                            },
                        ),
                    },
                },
            },
        },
    }
}

/// What a package holds.
pub open spec fn parts_of(archive: SourceArchiveView) -> Result<PartsView, Shortfall> {
    match xml_events(archive.designmap_raw, false) {
        None => Err(Shortfall::Malformed),
        Some(events) => listed_parts(designmap_of(events), archive.entries),
    }
}

/// Whether the result of reading the parts is the one that is due.
pub open spec fn imports_as(
    r: Result<Parts, OpenError>,
    due: Result<PartsView, Shortfall>,
) -> bool {
    match (r, due) {
        (Ok(parts), Ok(view)) => parts.deep_view() == view,
        (Err(e), Err(why)) => tells(e, why),
        _ => false,
    }
}

/// If one of the first `n` parts falls short, the first that does decides for
/// any more of them.
proof fn lemma_spread_shortfall(
    entries: Map<Seq<char>, Seq<u8>>,
    sources: Seq<Seq<char>>,
    n: nat,
    m: nat,
)
    requires
        n <= m,
        spread_parts(entries, sources, n) is Err,
    ensures
        spread_parts(entries, sources, m) == spread_parts(entries, sources, n),
    decreases m,
{
    if n < m {
        lemma_spread_shortfall(entries, sources, n, (m - 1) as nat);
    }
}

fn read_spread_part(archive: &SourceArchive, src: &str) -> (r: Result<ParsedSpread, OpenError>)
    ensures
        match (r, spread_part(archive.deep_view().entries, src@)) {
            (Ok(x), Ok(view)) => x.deep_view() == view,
            (Err(e), Err(why)) => tells(e, why),
            _ => false,
        },
{
    match archive.entry(src) {
        None => Err(OpenError::MissingEntry(src.to_string())),
        Some(raw) => match parse_spread(as_slice(raw)) {
            Err(e) => Err(OpenError::Parse(e)),
            Ok(spread) => Ok(ParsedSpread { src: src.to_string(), spread }),
        },
    }
}

fn read_spread_parts(archive: &SourceArchive, sources: &Vec<String>) -> (r: Result<
    Vec<ParsedSpread>,
    OpenError,
>)
    ensures
        match (r, all_spreads(archive.deep_view().entries, sources.deep_view())) {
            (Ok(x), Ok(view)) => x.deep_view() == view,
            (Err(e), Err(why)) => tells(e, why),
            _ => false,
        },
{
    proof {
        reveal(all_spreads);
    }
    let ghost entries = archive.deep_view().entries;
    let ghost named = sources.deep_view();
    let mut read: Vec<ParsedSpread> = Vec::new();
    assert(read.deep_view() =~= Seq::empty());
    let mut i: usize = 0;
    while i < sources.len()
        invariant
            i <= sources@.len(),
            entries == archive.deep_view().entries,
            named == sources.deep_view(),
            spread_parts(entries, named, i as nat) == Ok::<Seq<ParsedSpreadView>, Shortfall>(
                read.deep_view(),
            ),
        decreases sources@.len() - i,
    {
        proof {
            reveal(all_spreads);
        }
        assert(named[i as int] == sources@[i as int]@);
        match read_spread_part(archive, sources[i].as_str()) {
            Err(e) => {
                proof {
                    lemma_spread_shortfall(entries, named, (i + 1) as nat, sources@.len());
                }
                return Err(e);
            },
            Ok(part) => push_item(&mut read, part),
        }
        i = i + 1;
    }
    Ok(read)
}

/// If one of the first `n` parts falls short, the first that does decides for
/// any more of them.
proof fn lemma_story_shortfall(
    entries: Map<Seq<char>, Seq<u8>>,
    sources: Seq<Seq<char>>,
    n: nat,
    m: nat,
)
    requires
        n <= m,
        story_parts(entries, sources, n) is Err,
    ensures
        story_parts(entries, sources, m) == story_parts(entries, sources, n),
    decreases m,
{
    if n < m {
        lemma_story_shortfall(entries, sources, n, (m - 1) as nat);
    }
}

fn read_story_part(archive: &SourceArchive, src: &str) -> (r: Result<ReadStory, OpenError>)
    ensures
        match (r, story_part(archive.deep_view().entries, src@)) {
            (Ok(x), Ok(view)) => x.deep_view() == view,
            (Err(e), Err(why)) => tells(e, why),
            _ => false,
        },
{
    match archive.entry(src) {
        None => Err(OpenError::MissingEntry(src.to_string())),
        Some(raw) => match parse_story(as_slice(raw)) {
            Err(e) => Err(OpenError::Parse(e)),
            Ok(story) => Ok(ReadStory { src: src.to_string(), story }),
        },
    }
}

fn read_story_parts(archive: &SourceArchive, sources: &Vec<String>) -> (r: Result<
    Vec<ReadStory>,
    OpenError,
>)
    ensures
        match (r, all_stories(archive.deep_view().entries, sources.deep_view())) {
            (Ok(x), Ok(view)) => x.deep_view() == view,
            (Err(e), Err(why)) => tells(e, why),
            _ => false,
        },
{
    proof {
        reveal(all_stories);
    }
    let ghost entries = archive.deep_view().entries;
    let ghost named = sources.deep_view();
    let mut read: Vec<ReadStory> = Vec::new();
    assert(read.deep_view() =~= Seq::empty());
    let mut i: usize = 0;
    while i < sources.len()
        invariant
            i <= sources@.len(),
            entries == archive.deep_view().entries,
            named == sources.deep_view(),
            story_parts(entries, named, i as nat) == Ok::<Seq<ReadStoryView>, Shortfall>(
                read.deep_view(),
            ),
        decreases sources@.len() - i,
    {
        proof {
            reveal(all_stories);
        }
        assert(named[i as int] == sources@[i as int]@);
        match read_story_part(archive, sources[i].as_str()) {
            Err(e) => {
                proof {
                    lemma_story_shortfall(entries, named, (i + 1) as nat, sources@.len());
                }
                return Err(e);
            },
            Ok(part) => push_item(&mut read, part),
        }
        i = i + 1;
    }
    Ok(read)
}

fn list_spread_sources(map: &DesignMap) -> (r: Vec<String>)
    ensures
        r.deep_view() == spread_sources(map.deep_view()),
{
    let mut r: Vec<String> = Vec::new();
    let mut i: usize = 0;
    while i < map.spreads.len()
        invariant
            i <= map.spreads@.len(),
            r.deep_view() == spread_sources(map.deep_view()).take(i as int),
        decreases map.spreads@.len() - i,
    {
        push_item(&mut r, map.spreads[i].src.clone());
        assert(r.deep_view() =~= spread_sources(map.deep_view()).take(i + 1));
        i = i + 1;
    }
    assert(r.deep_view() =~= spread_sources(map.deep_view()));
    r
}

fn list_story_sources(map: &DesignMap) -> (r: Vec<String>)
    ensures
        r.deep_view() == story_sources(map.deep_view()),
{
    let mut r: Vec<String> = Vec::new();
    let mut i: usize = 0;
    while i < map.stories.len()
        invariant
            i <= map.stories@.len(),
            r.deep_view() == story_sources(map.deep_view()).take(i as int),
        decreases map.stories@.len() - i,
    {
        push_item(&mut r, map.stories[i].src.clone());
        assert(r.deep_view() =~= story_sources(map.deep_view()).take(i + 1));
        i = i + 1;
    }
    assert(r.deep_view() =~= story_sources(map.deep_view()));
    r
}

fn read_palette(archive: &SourceArchive) -> (r: Result<Graphic, OpenError>)
    ensures
        match (r, palette_part(archive.deep_view().entries)) {
            (Ok(x), Ok(view)) => x.deep_view() == view,
            (Err(e), Err(why)) => tells(e, why),
            _ => false,
        },
{
    proof {
        reveal(palette_part);
    }
    match archive.entry("Resources/Graphic.xml") {
        None => Ok(Graphic::default()),
        Some(raw) => match parse_graphic(as_slice(raw)) {
            Err(e) => Err(OpenError::Parse(e)),
            Ok(palette) => Ok(palette),
        },
    }
}

fn read_styles(archive: &SourceArchive) -> (r: Result<StyleSheet, OpenError>)
    ensures
        match (r, styles_part(archive.deep_view().entries)) {
            (Ok(x), Ok(view)) => x.deep_view() == view,
            (Err(e), Err(why)) => tells(e, why),
            _ => false,
        },
{
    proof {
        reveal(styles_part);
    }
    match archive.entry("Resources/Styles.xml") {
        None => Ok(StyleSheet::default()),
        Some(raw) => match parse_stylesheet(as_slice(raw)) {
            Err(e) => Err(OpenError::Parse(e)),
            Ok(styles) => Ok(styles),
        },
    }
}

/// Reads the parts that the manifest lists.
pub fn read_listed_parts(designmap: DesignMap, archive: &SourceArchive) -> (r: Result<
    Parts,
    OpenError,
>)
    ensures
        imports_as(r, listed_parts(designmap.deep_view(), archive.deep_view().entries)),
{
    let palette: Graphic = match read_palette(archive) {
        Err(e) => {
            return Err(e);
        },
        Ok(x) => x,
    };
    let styles: StyleSheet = match read_styles(archive) {
        Err(e) => {
            return Err(e);
        },
        Ok(x) => x,
    };
    let master_spreads: Vec<ParsedSpread> = match read_spread_parts(
        archive,
        &designmap.master_spreads,
    ) {
        Err(e) => {
            return Err(e);
        },
        Ok(x) => x,
    };
    let spreads: Vec<ParsedSpread> = match read_spread_parts(
        archive,
        &list_spread_sources(&designmap),
    ) {
        Err(e) => {
            return Err(e);
        },
        Ok(x) => x,
    };
    let stories: Vec<ReadStory> = match read_story_parts(
        archive,
        &list_story_sources(&designmap),
    ) {
        Err(e) => {
            return Err(e);
        },
        Ok(x) => x,
    };
    Ok(Parts { designmap, palette, styles, master_spreads, spreads, stories })
}

/// Reads the manifest of a package that was opened, and the parts that it lists.
pub fn import_idml_archive(archive: &SourceArchive) -> (r: Result<Parts, OpenError>)
    ensures
        imports_as(r, parts_of(archive.deep_view())),
{
    match parse_designmap(as_slice(&archive.designmap_raw)) {
        Err(e) => Err(OpenError::Parse(e)),
        Ok(designmap) => read_listed_parts(designmap, archive),
    }
}

/// Opens a package and reads what it holds. The package is handed out too: it
/// still has the entries as they are.
pub fn import_idml(bytes: &[u8]) -> (r: Result<(Parts, SourceArchive), OpenError>)
    ensures
        match package_of(zip_directory(bytes@)) {
            Err(why) => r matches Err(OpenError::Parse(e)) && states(e, why),
            Ok(view) => match r {
                Ok((parts, archive)) => archive.deep_view() == view && imports_as(
                    Ok(parts),
                    parts_of(view),
                ),
                Err(e) => imports_as(Err(e), parts_of(view)),
            },
        },
{
    match open_source_archive(bytes) {
        Err(e) => Err(OpenError::Parse(e)),
        Ok(archive) => match import_idml_archive(&archive) {
            Err(e) => Err(e),
            Ok(parts) => Ok((parts, archive)),
        },
    }
}

/// Opens a package and reads what it holds.
pub fn import_idml_doc(bytes: &[u8]) -> (r: Result<Parts, OpenError>)
    ensures
        match package_of(zip_directory(bytes@)) {
            Err(why) => r matches Err(OpenError::Parse(e)) && states(e, why),
            Ok(view) => imports_as(r, parts_of(view)),
        },
{
    match import_idml(bytes) {
        Err(e) => Err(e),
        Ok((parts, archive)) => Ok(parts),
    }
}

/// The first `n` master spreads by their identifiers; where an identifier comes
/// twice, the later master spread stands.
pub open spec fn masters_by_id(
    masters: Seq<ParsedSpreadView>,
    ids: Seq<Seq<char>>,
    n: nat,
) -> Map<Seq<char>, ParsedMasterSpreadView>
    decreases n,
{
    if n == 0 {
        Map::empty()
    } else {
        masters_by_id(masters, ids, (n - 1) as nat).insert(
            ids[n - 1],
            ParsedMasterSpreadView {
                src: masters[n - 1].src,
                self_id: ids[n - 1],
                spread: masters[n - 1].spread,
            },
        )
    }
}

/// The stories with their identifiers.
pub open spec fn stories_with_ids(stories: Seq<ReadStoryView>, ids: Seq<Seq<char>>) -> Seq<
    ParsedStoryView,
> {
    Seq::new(
        stories.len(),
        |i: int|
            ParsedStoryView { src: stories[i].src, self_id: ids[i], story: stories[i].story },
    )
}

/// The document that these parts make, given the identifiers of its master
/// spreads and of its stories.
pub open spec fn document_of(
    parts: PartsView,
    master_ids: Seq<Seq<char>>,
    story_ids: Seq<Seq<char>>,
) -> DocumentView {
    DocumentView {
        designmap: parts.designmap,
        palette: parts.palette,
        spreads: parts.spreads,
        stories: stories_with_ids(parts.stories, story_ids),
        master_spreads: masters_by_id(
            parts.master_spreads,
            master_ids,
            parts.master_spreads.len(),
        ),
        styles: parts.styles,
    }
}

fn key_masters(masters: Vec<ParsedSpread>, ids: &Vec<String>) -> (r: IdMap<ParsedMasterSpread>)
    requires
        masters@.len() == ids@.len(),
    ensures
        r.deep_view() == masters_by_id(masters.deep_view(), ids.deep_view(), masters@.len()),
{
    let ghost all = masters.deep_view();
    let ghost named = ids.deep_view();
    let mut rest: Vec<ParsedSpread> = masters;
    let n: usize = rest.len();
    let mut r: IdMap<ParsedMasterSpread> = IdMap::new();
    let mut i: usize = 0;
    assert(all.skip(0) =~= all);
    while i < n
        invariant
            i <= n,
            n == all.len(),
            n == ids@.len(),
            named == ids.deep_view(),
            rest.deep_view() == all.skip(i as int),
            r.deep_view() == masters_by_id(all, named, i as nat),
        decreases n - i,
    {
        let ghost before = rest.deep_view();
        let ghost held = rest@;
        assert(before.len() == n - i);
        let master: ParsedSpread = rest.remove(0);
        assert(master.deep_view() == before[0]);
        assert(rest.deep_view() =~= before.skip(1));
        assert(all.skip(i as int).skip(1) =~= all.skip(i + 1));
        assert(named[i as int] == ids@[i as int]@);
        let id: String = ids[i].clone();
        r.insert(
            id.clone(),
            ParsedMasterSpread { src: master.src, self_id: id, spread: master.spread },
        );
        i = i + 1;
    }
    r
}

fn name_stories(stories: Vec<ReadStory>, ids: &Vec<String>) -> (r: Vec<ParsedStory>)
    requires
        stories@.len() == ids@.len(),
    ensures
        r.deep_view() == stories_with_ids(stories.deep_view(), ids.deep_view()),
{
    let ghost all = stories.deep_view();
    let ghost named = ids.deep_view();
    let mut rest: Vec<ReadStory> = stories;
    let n: usize = rest.len();
    let mut r: Vec<ParsedStory> = Vec::new();
    let mut i: usize = 0;
    assert(all.skip(0) =~= all);
    while i < n
        invariant
            i <= n,
            n == all.len(),
            n == ids@.len(),
            named == ids.deep_view(),
            rest.deep_view() == all.skip(i as int),
            r.deep_view() == stories_with_ids(all, named).take(i as int),
        decreases n - i,
    {
        let ghost before = rest.deep_view();
        assert(before.len() == n - i);
        let read: ReadStory = rest.remove(0);
        assert(read.deep_view() == before[0]);
        assert(rest.deep_view() =~= before.skip(1));
        assert(all.skip(i as int).skip(1) =~= all.skip(i + 1));
        assert(named[i as int] == ids@[i as int]@);
        push_item(
            &mut r,
            ParsedStory { src: read.src, self_id: ids[i].clone(), story: read.story },
        );
        assert(r.deep_view() =~= stories_with_ids(all, named).take(i + 1));
        i = i + 1;
    }
    assert(r.deep_view() =~= stories_with_ids(all, named));
    r
}

/// Makes a document of the parts, given the identifiers of the master spreads
/// and of the stories, one for each.
pub fn assemble(parts: Parts, master_ids: &Vec<String>, story_ids: &Vec<String>) -> (r: Document)
    requires
        parts.master_spreads@.len() == master_ids@.len(),
        parts.stories@.len() == story_ids@.len(),
    ensures
        r.deep_view() == document_of(
            parts.deep_view(),
            master_ids.deep_view(),
            story_ids.deep_view(),
        ),
{
    let master_spreads: IdMap<ParsedMasterSpread> = key_masters(parts.master_spreads, master_ids);
    let stories: Vec<ParsedStory> = name_stories(parts.stories, story_ids);
    Document {
        designmap: parts.designmap,
        palette: parts.palette,
        spreads: parts.spreads,
        stories,
        master_spreads,
        styles: parts.styles,
    }
}

} // verus!
