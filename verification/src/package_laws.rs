//! What holds of every package that is opened and read as a whole.
use crate::archive::{gathered, is_folder, package_of, SlotView, SourceArchiveView, MIME};
use crate::designmap::designmap_of;
use crate::graphic::{graphic_of, no_swatches};
use crate::import::{
    all_spreads, all_stories, document_of, masters_by_id, palette_part, parts_of, spread_parts,
    spread_sources, story_parts, story_sources, styles_part, ParsedSpreadView, PartsView,
};
use crate::spread::spread_of;
use crate::story::story_of;
use crate::styles::{no_styles, stylesheet_of};
use crate::text::trimmed;
use crate::xml::{decoded, xml_events};
use vstd::prelude::*;

verus! {

proof fn lemma_spreads(entries: Map<Seq<char>, Seq<u8>>, sources: Seq<Seq<char>>, n: nat)
    requires
        n <= sources.len(),
    ensures
        match spread_parts(entries, sources, n) {
            Ok(read) => read.len() == n && forall|i: int|
                0 <= i < n ==> (#[trigger] read[i]).src == sources[i] && entries.dom().contains(
                    sources[i],
                ) && Some(read[i].spread) == (match xml_events(entries[sources[i]], true) {
                    None => None,
                    Some(events) => Some(spread_of(events)),
                }),
            Err(_) => exists|i: int|
                0 <= i < n && (!entries.dom().contains(#[trigger] sources[i]) || xml_events(
                    entries[sources[i]],
                    true,
                ) is None),
        },
    decreases n,
{
    if n > 0 {
        lemma_spreads(entries, sources, (n - 1) as nat);
        let _ = sources[n - 1];
    }
}

proof fn lemma_stories(entries: Map<Seq<char>, Seq<u8>>, sources: Seq<Seq<char>>, n: nat)
    requires
        n <= sources.len(),
    ensures
        match story_parts(entries, sources, n) {
            Ok(read) => read.len() == n && forall|i: int|
                0 <= i < n ==> (#[trigger] read[i]).src == sources[i] && entries.dom().contains(
                    sources[i],
                ) && Some(read[i].story) == (match xml_events(entries[sources[i]], false) {
                    None => None,
                    Some(events) => Some(story_of(events)),
                }),
            Err(_) => exists|i: int|
                0 <= i < n && (!entries.dom().contains(#[trigger] sources[i]) || xml_events(
                    entries[sources[i]],
                    false,
                ) is None),
        },
    decreases n,
{
    if n > 0 {
        lemma_stories(entries, sources, (n - 1) as nat);
        let _ = sources[n - 1];
    }
}

/// Every spread, master spread and story of what is read of a package, each in the
/// place that the manifest gives it, is what its own entry states; and so are the
/// palette and the styles, which are empty where the package has no entry for them.
pub proof fn law_parts_come_from_their_entries(archive: SourceArchiveView)
    ensures
        parts_of(archive) matches Ok(parts) ==> {
            let map = parts.designmap;
            &&& xml_events(archive.designmap_raw, false) matches Some(events) && map
                == designmap_of(events)
            &&& forall|i: int|
                0 <= i < map.spreads.len() ==> (xml_events(
                    archive.entries[map.spreads[i].src],
                    true,
                ) matches Some(events) && (#[trigger] parts.spreads[i]).spread == spread_of(events))
            &&& forall|i: int|
                0 <= i < map.master_spreads.len() ==> (xml_events(
                    archive.entries[map.master_spreads[i]],
                    true,
                ) matches Some(events) && (#[trigger] parts.master_spreads[i]).spread == spread_of(
                    events,
                ))
            &&& forall|i: int|
                0 <= i < map.stories.len() ==> (xml_events(
                    archive.entries[map.stories[i].src],
                    false,
                ) matches Some(events) && (#[trigger] parts.stories[i]).story == story_of(events))
            &&& if archive.entries.dom().contains("Resources/Graphic.xml"@) {
                xml_events(archive.entries["Resources/Graphic.xml"@], true) matches Some(events)
                    && parts.palette == graphic_of(events)
            } else {
                parts.palette == no_swatches()
            }
            &&& if archive.entries.dom().contains("Resources/Styles.xml"@) {
                xml_events(archive.entries["Resources/Styles.xml"@], true) matches Some(events)
                    && parts.styles == stylesheet_of(events)
            } else {
                parts.styles == no_styles()
            }
        },
{
    if let Ok(parts) = parts_of(archive) {
        reveal(all_spreads);
        reveal(all_stories);
        reveal(palette_part);
        reveal(styles_part);
        let map = parts.designmap;
        lemma_spreads(archive.entries, map.master_spreads, map.master_spreads.len());
        lemma_spreads(archive.entries, spread_sources(map), map.spreads.len());
        lemma_stories(archive.entries, story_sources(map), map.stories.len());
        assert forall|i: int| 0 <= i < map.spreads.len() implies (xml_events(
            archive.entries[map.spreads[i].src],
            true,
        ) matches Some(events) && (#[trigger] parts.spreads[i]).spread == spread_of(events)) by {
            assert(spread_sources(map)[i] == map.spreads[i].src);
        }
        assert forall|i: int| 0 <= i < map.stories.len() implies (xml_events(
            archive.entries[map.stories[i].src],
            false,
        ) matches Some(events) && (#[trigger] parts.stories[i]).story == story_of(events)) by {
            assert(story_sources(map)[i] == map.stories[i].src);
        }
    }
}

/// Whether a part is there and is well-formed.
pub open spec fn is_readable(archive: SourceArchiveView, src: Seq<char>, trim: bool) -> bool {
    archive.entries.dom().contains(src) && xml_events(archive.entries[src], trim) is Some
}

/// Where the manifest is well-formed, everything it lists is there and well-formed,
/// and the palette and the styles, where they are there, are well-formed, the
/// package is read.
pub proof fn law_whole_package_is_read(archive: SourceArchiveView)
    requires
        xml_events(archive.designmap_raw, false) is Some,
        ({
            let map = designmap_of(xml_events(archive.designmap_raw, false)->0);
            &&& forall|i: int|
                0 <= i < map.spreads.len() ==> is_readable(
                    archive,
                    (#[trigger] map.spreads[i]).src,
                    true,
                )
            &&& forall|i: int|
                0 <= i < map.master_spreads.len() ==> is_readable(
                    archive,
                    #[trigger] map.master_spreads[i],
                    true,
                )
            &&& forall|i: int|
                0 <= i < map.stories.len() ==> is_readable(
                    archive,
                    (#[trigger] map.stories[i]).src,
                    false,
                )
        }),
        archive.entries.dom().contains("Resources/Graphic.xml"@) ==> is_readable(
            archive,
            "Resources/Graphic.xml"@,
            true,
        ),
        archive.entries.dom().contains("Resources/Styles.xml"@) ==> is_readable(
            archive,
            "Resources/Styles.xml"@,
            true,
        ),
    ensures
        parts_of(archive) is Ok,
{
    reveal(all_spreads);
    reveal(all_stories);
    reveal(palette_part);
    reveal(styles_part);
    let map = designmap_of(xml_events(archive.designmap_raw, false)->0);
    lemma_spreads(archive.entries, map.master_spreads, map.master_spreads.len());
    lemma_spreads(archive.entries, spread_sources(map), map.spreads.len());
    lemma_stories(archive.entries, story_sources(map), map.stories.len());
    assert forall|i: int| 0 <= i < map.spreads.len() implies is_readable(
        archive,
        #[trigger] spread_sources(map)[i],
        true,
    ) by {
        assert(is_readable(archive, map.spreads[i].src, true));
    }
    assert forall|i: int| 0 <= i < map.stories.len() implies is_readable(
        archive,
        #[trigger] story_sources(map)[i],
        false,
    ) by {
        assert(is_readable(archive, map.stories[i].src, false));
    }
}

/// The document has as many stories as were read, each in its place, under the
/// identifier that was given for that place, with the path and the text that were
/// read there.
pub proof fn law_stories_have_their_identifiers(
    parts: PartsView,
    master_ids: Seq<Seq<char>>,
    story_ids: Seq<Seq<char>>,
    k: int,
)
    requires
        story_ids.len() == parts.stories.len(),
        0 <= k < parts.stories.len(),
    ensures
        ({
            let stories = document_of(parts, master_ids, story_ids).stories;
            &&& stories.len() == parts.stories.len()
            &&& stories[k].self_id == story_ids[k]
            &&& stories[k].src == parts.stories[k].src
            &&& stories[k].story == parts.stories[k].story
        }),
{
}

/// Where the identifiers that are given for two stories differ, so do those that
/// the stories have.
pub proof fn law_story_identifiers_stay_apart(
    parts: PartsView,
    master_ids: Seq<Seq<char>>,
    story_ids: Seq<Seq<char>>,
    j: int,
    k: int,
)
    requires
        story_ids.len() == parts.stories.len(),
        0 <= j < parts.stories.len(),
        0 <= k < parts.stories.len(),
        story_ids[j] != story_ids[k],
    ensures
        ({
            let stories = document_of(parts, master_ids, story_ids).stories;
            stories[j].self_id != stories[k].self_id
        }),
{
    law_stories_have_their_identifiers(parts, master_ids, story_ids, j);
    law_stories_have_their_identifiers(parts, master_ids, story_ids, k);
}

proof fn lemma_masters(masters: Seq<ParsedSpreadView>, ids: Seq<Seq<char>>, n: nat, id: Seq<char>)
    requires
        n <= masters.len(),
        n <= ids.len(),
    ensures
        masters_by_id(masters, ids, n).dom().contains(id) <==> exists|k: int|
            0 <= k < n && #[trigger] ids[k] == id,
    decreases n,
{
    if n > 0 {
        lemma_masters(masters, ids, (n - 1) as nat, id);
        if ids[n - 1] == id {
            assert(0 <= n - 1 < n && ids[n - 1] == id);
        }
    }
}

proof fn lemma_last_master(
    masters: Seq<ParsedSpreadView>,
    ids: Seq<Seq<char>>,
    n: nat,
    k: int,
)
    requires
        0 <= k < n <= masters.len(),
        n <= ids.len(),
        forall|j: int| k < j < n ==> #[trigger] ids[j] != ids[k],
    ensures
        masters_by_id(masters, ids, n).dom().contains(ids[k]),
        masters_by_id(masters, ids, n)[ids[k]].self_id == ids[k],
        masters_by_id(masters, ids, n)[ids[k]].src == masters[k].src,
        masters_by_id(masters, ids, n)[ids[k]].spread == masters[k].spread,
    decreases n,
{
    if k < n - 1 {
        lemma_last_master(masters, ids, (n - 1) as nat, k);
        assert(ids[n - 1] != ids[k]);
    }
}

/// The document has its master spreads under the identifiers that are given for
/// them, and no others; under each stands the last of those that it was given for,
/// with the path and the spread that were read.
pub proof fn law_masters_have_their_identifiers(
    parts: PartsView,
    master_ids: Seq<Seq<char>>,
    story_ids: Seq<Seq<char>>,
    k: int,
)
    requires
        master_ids.len() == parts.master_spreads.len(),
        0 <= k < master_ids.len(),
        forall|j: int| k < j < master_ids.len() ==> #[trigger] master_ids[j] != master_ids[k],
    ensures
        ({
            let masters = document_of(parts, master_ids, story_ids).master_spreads;
            &&& masters.dom().contains(master_ids[k])
            &&& masters[master_ids[k]].self_id == master_ids[k]
            &&& masters[master_ids[k]].src == parts.master_spreads[k].src
            &&& masters[master_ids[k]].spread == parts.master_spreads[k].spread
            &&& forall|id: Seq<char>|
                #[trigger] masters.dom().contains(id) ==> exists|j: int|
                    0 <= j < master_ids.len() && #[trigger] master_ids[j] == id
        }),
{
    let n = master_ids.len();
    lemma_last_master(parts.master_spreads, master_ids, n, k);
    let masters = document_of(parts, master_ids, story_ids).master_spreads;
    assert forall|id: Seq<char>| #[trigger] masters.dom().contains(id) implies exists|j: int|
        0 <= j < master_ids.len() && #[trigger] master_ids[j] == id by {
        lemma_masters(parts.master_spreads, master_ids, n, id);
    }
}

/// The document has the manifest, the palette, the styles and the spreads that were
/// read.
pub proof fn law_document_keeps_the_rest(
    parts: PartsView,
    master_ids: Seq<Seq<char>>,
    story_ids: Seq<Seq<char>>,
)
    ensures
        ({
            let document = document_of(parts, master_ids, story_ids);
            &&& document.designmap == parts.designmap
            &&& document.palette == parts.palette
            &&& document.styles == parts.styles
            &&& document.spreads == parts.spreads
        }),
{
}

/// Whether every entry of an archive that is no folder can be read.
pub open spec fn is_whole(slots: Seq<Option<SlotView>>) -> bool {
    forall|i: int|
        0 <= i < slots.len() ==> (#[trigger] slots[i] matches Some(slot) && (is_folder(slot.name)
            || slot.data is Some))
}

proof fn lemma_gathers(slots: Seq<Option<SlotView>>, n: nat, k: int)
    requires
        is_whole(slots),
        0 <= k < n <= slots.len(),
        !is_folder(slots[k]->0.name),
        forall|j: int| k < j < n ==> (#[trigger] slots[j])->0.name != slots[k]->0.name,
    ensures
        gathered(slots, n) matches Ok(entries) && entries.dom().contains(slots[k]->0.name)
            && Some(entries[slots[k]->0.name]) == slots[k]->0.data,
    decreases n,
{
    lemma_gathers_all(slots, (n - 1) as nat);
    assert(slots[n - 1] is Some);
    if k < n - 1 {
        lemma_gathers(slots, (n - 1) as nat, k);
        assert(slots[n - 1]->0.name != slots[k]->0.name);
    }
}

proof fn lemma_gathers_all(slots: Seq<Option<SlotView>>, n: nat)
    requires
        is_whole(slots),
        n <= slots.len(),
    ensures
        gathered(slots, n) matches Ok(entries) && forall|name: Seq<char>|
            #[trigger] entries.dom().contains(name) ==> exists|k: int|
                0 <= k < n && (#[trigger] slots[k])->0.name == name && !is_folder(name),
    decreases n,
{
    if n > 0 {
        lemma_gathers_all(slots, (n - 1) as nat);
        assert(slots[n - 1] is Some);
        let before = gathered(slots, (n - 1) as nat)->Ok_0;
        let entries = gathered(slots, n)->Ok_0;
        assert forall|name: Seq<char>| #[trigger] entries.dom().contains(name) implies exists|
            k: int,
        |
            0 <= k < n && (#[trigger] slots[k])->0.name == name && !is_folder(name) by {
            if before.dom().contains(name) {
                let k = choose|k: int|
                    0 <= k < n - 1 && (#[trigger] slots[k])->0.name == name && !is_folder(name);
                assert(0 <= k < n && slots[k]->0.name == name);
            } else {
                assert(slots[n - 1]->0.name == name);
            }
        }
    }
}

/// An archive that can be read has, under each name that is not that of a folder,
/// the data of the last entry with that name, and it has nothing else.
pub proof fn law_last_entry_of_a_name_stands(slots: Seq<Option<SlotView>>, k: int)
    requires
        is_whole(slots),
        0 <= k < slots.len(),
        !is_folder(slots[k]->0.name),
        forall|j: int|
            k < j < slots.len() ==> (#[trigger] slots[j])->0.name != slots[k]->0.name,
    ensures
        gathered(slots, slots.len()) matches Ok(entries) && {
            &&& entries.dom().contains(slots[k]->0.name)
            &&& Some(entries[slots[k]->0.name]) == slots[k]->0.data
            &&& forall|name: Seq<char>|
                #[trigger] entries.dom().contains(name) ==> exists|j: int|
                    0 <= j < slots.len() && (#[trigger] slots[j])->0.name == name && !is_folder(
                        name,
                    )
        },
{
    lemma_gathers(slots, slots.len(), k);
    lemma_gathers_all(slots, slots.len());
}

/// An archive that can be read opens just where its last `mimetype` says that it is
/// such a package; its manifest is then its last `designmap.xml`, and all its last
/// entries are there.
pub proof fn law_package_opens_by_its_kind(slots: Seq<Option<SlotView>>, m: int, d: int, k: int)
    requires
        is_whole(slots),
        0 <= m < slots.len(),
        slots[m]->0.name == "mimetype"@,
        forall|j: int| m < j < slots.len() ==> (#[trigger] slots[j])->0.name != "mimetype"@,
        0 <= d < slots.len(),
        slots[d]->0.name == "designmap.xml"@,
        forall|j: int| d < j < slots.len() ==> (#[trigger] slots[j])->0.name != "designmap.xml"@,
        0 <= k < slots.len(),
        !is_folder(slots[k]->0.name),
        forall|j: int|
            k < j < slots.len() ==> (#[trigger] slots[j])->0.name != slots[k]->0.name,
    ensures
        package_of(Some(slots)) is Ok <==> (slots[m]->0.data matches Some(data) && (decoded(
            data,
        ) matches Some(said) && trimmed(said) == MIME@)),
        package_of(Some(slots)) matches Ok(archive) ==> {
            &&& Some(archive.designmap_raw) == slots[d]->0.data
            &&& archive.entries.dom().contains(slots[k]->0.name)
            &&& Some(archive.entries[slots[k]->0.name]) == slots[k]->0.data
        },
{
    reveal_strlit("mimetype");
    reveal_strlit("designmap.xml");
    assert("mimetype"@.last() == 'e' && "designmap.xml"@.last() == 'l');
    law_last_entry_of_a_name_stands(slots, m);
    law_last_entry_of_a_name_stands(slots, d);
    law_last_entry_of_a_name_stands(slots, k);
}

} // verus!
