//! The container of a document that was made, not read: the package that its
//! reader expects, with the document in a part of its own, and otherwise a valid
//! but empty publication.
use crate::archive::{gathered, is_folder, package_of, zip_directory, MIME, Refusal, SlotView};
use crate::assembly::BuildError;
use crate::text::{trimmed, trimmed_start};
use crate::util::{join, push_item};
use crate::xml::decoded;
use std::io::{Cursor, Write};
use vstd::prelude::*;
use vstd::utf8::encode_utf8;

verus! {

/// The name space of the parts.
pub const NS: &'static str = "http://ns.adobe.com/AdobeInDesign/idml/1.0/packaging";

/// Where the document stands in the package.
pub const DOCUMENT_PGM_PATH: &'static str = "paged/core/model/document.pgm";

/// An XML document.
pub open spec fn xml_document(body: Seq<char>) -> Seq<char> {
    "<?xml version=\"1.0\" encoding=\"UTF-8\" standalone=\"yes\"?>\n"@ + body
}

/// An XML document.
pub fn xml(body: &str) -> (r: String)
    ensures
        r@ == xml_document(body@),
{
    join("<?xml version=\"1.0\" encoding=\"UTF-8\" standalone=\"yes\"?>\n", body)
}

/// A part without content.
pub open spec fn empty_part(tag: Seq<char>) -> Seq<char> {
    xml_document(
        "<idPkg:"@
            + tag
            + " xmlns:idPkg=\""@
            + NS@
            + "\" DOMVersion=\"20.0\"/>"@,
    )
}

/// A part without content.
pub fn empty_pkg(tag: &str) -> (r: String)
    ensures
        r@ == empty_part(tag@),
{
    let mut body: String = String::new();
    body.append("<idPkg:");
    body.append(tag);
    body.append(" xmlns:idPkg=\"");
    body.append(NS);
    body.append("\" DOMVersion=\"20.0\"/>");
    xml(body.as_str())
}

/// The part that says where the manifest is.
pub open spec fn container_part() -> Seq<char> {
    xml_document(
        "<container xmlns=\"urn:oasis:names:tc:opendocument:xmlns:container\" version=\"1.0\">"@
            + "<rootfiles><rootfile full-path=\"designmap.xml\" media-type=\"text/xml\"/>"@
            + "</rootfiles></container>"@,
    )
}

/// The part that says where the manifest is.
pub fn container() -> (r: String)
    ensures
        r@ == container_part(),
{
    let mut body: String = String::new();
    body.append("<container xmlns=\"urn:oasis:names:tc:opendocument:xmlns:container\" version=\"1.0\">");
    body.append("<rootfiles><rootfile full-path=\"designmap.xml\" media-type=\"text/xml\"/>");
    body.append("</rootfiles></container>");
    xml(body.as_str())
}

/// The part of the colours: black and none.
pub open spec fn graphic_part() -> Seq<char> {
    xml_document(
        "<idPkg:Graphic xmlns:idPkg=\""@
            + NS@
            + "\" DOMVersion=\"20.0\">"@
            + "<Color Self=\"Color/Black\" Model=\"Process\" Space=\"CMYK\" ColorValue=\"0 0 0 100\" Name=\"Black\"/>"@
            + "<Swatch Self=\"Swatch/None\" Name=\"None\"/></idPkg:Graphic>"@,
    )
}

/// The part of the colours: black and none.
pub fn graphic() -> (r: String)
    ensures
        r@ == graphic_part(),
{
    let mut body: String = String::new();
    body.append("<idPkg:Graphic xmlns:idPkg=\"");
    body.append(NS);
    body.append("\" DOMVersion=\"20.0\">");
    body.append("<Color Self=\"Color/Black\" Model=\"Process\" Space=\"CMYK\" ColorValue=\"0 0 0 100\" Name=\"Black\"/>");
    body.append("<Swatch Self=\"Swatch/None\" Name=\"None\"/></idPkg:Graphic>");
    xml(body.as_str())
}

/// The part of the styles: those that state nothing.
pub open spec fn styles_part() -> Seq<char> {
    xml_document(
        "<idPkg:Styles xmlns:idPkg=\""@
            + NS@
            + "\" DOMVersion=\"20.0\"><RootCharacterStyleGroup Self=\"rcs\">"@
            + "<CharacterStyle Self=\"CharacterStyle/$ID/[No character style]\" Name=\"$ID/[No character style]\"/>"@
            + "</RootCharacterStyleGroup><RootParagraphStyleGroup Self=\"rps\">"@
            + "<ParagraphStyle Self=\"ParagraphStyle/$ID/[No paragraph style]\" Name=\"$ID/[No paragraph style]\"/>"@
            + "</RootParagraphStyleGroup></idPkg:Styles>"@,
    )
}

/// The part of the styles: those that state nothing.
pub fn styles() -> (r: String)
    ensures
        r@ == styles_part(),
{
    let mut body: String = String::new();
    body.append("<idPkg:Styles xmlns:idPkg=\"");
    body.append(NS);
    body.append("\" DOMVersion=\"20.0\"><RootCharacterStyleGroup Self=\"rcs\">");
    body.append("<CharacterStyle Self=\"CharacterStyle/$ID/[No character style]\" Name=\"$ID/[No character style]\"/>");
    body.append("</RootCharacterStyleGroup><RootParagraphStyleGroup Self=\"rps\">");
    body.append("<ParagraphStyle Self=\"ParagraphStyle/$ID/[No paragraph style]\" Name=\"$ID/[No paragraph style]\"/>");
    body.append("</RootParagraphStyleGroup></idPkg:Styles>");
    xml(body.as_str())
}

/// The part behind the stories.
pub open spec fn backing_part() -> Seq<char> {
    xml_document(
        "<idPkg:BackingStory xmlns:idPkg=\""@
            + NS@
            + "\" DOMVersion=\"20.0\"><XmlStory Self=\"backing\"/></idPkg:BackingStory>"@,
    )
}

/// The part behind the stories.
pub fn backing() -> (r: String)
    ensures
        r@ == backing_part(),
{
    let mut body: String = String::new();
    body.append("<idPkg:BackingStory xmlns:idPkg=\"");
    body.append(NS);
    body.append("\" DOMVersion=\"20.0\"><XmlStory Self=\"backing\"/></idPkg:BackingStory>");
    xml(body.as_str())
}

/// The parts that the manifest lists: what each is, and where it stands.
pub open spec fn listed_parts() -> Seq<(Seq<char>, Seq<char>)> {
    seq![
        ("Graphic"@, "Resources/Graphic.xml"@),
        ("Fonts"@, "Resources/Fonts.xml"@),
        ("Styles"@, "Resources/Styles.xml"@),
        ("Preferences"@, "Resources/Preferences.xml"@),
        ("MasterSpread"@, "MasterSpreads/MasterSpread_um.xml"@),
        ("Spread"@, "Spreads/Spread_us.xml"@),
        ("BackingStory"@, "XML/BackingStory.xml"@),
    ]
}

/// The line of the manifest for a part.
pub open spec fn part_line(part: (Seq<char>, Seq<char>)) -> Seq<char> {
    "\n<idPkg:"@ + part.0 + " src=\""@ + part.1 + "\"/>"@
}

/// The lines of the manifest for the parts.
pub open spec fn part_lines(parts: Seq<(Seq<char>, Seq<char>)>) -> Seq<char>
    decreases parts.len(),
{
    if parts.len() == 0 {
        Seq::empty()
    } else {
        part_lines(parts.drop_last()) + part_line(parts.last())
    }
}

/// The manifest up to the parts that it lists.
pub open spec fn designmap_head() -> Seq<char> {
    "<?aid style=\"50\" type=\"document\" readerVersion=\"6.0\" featureSet=\"257\" product=\"20.0(32)\"?>"@
        + "\n<Document xmlns:idPkg=\""@
        + NS@
        + "\" DOMVersion=\"20.0\" Self=\"d\" StoryList=\"\" Name=\"Imported.pdf\">"@
}

/// The manifest.
pub open spec fn designmap_part() -> Seq<char> {
    xml_document(designmap_head() + part_lines(listed_parts()) + "\n</Document>"@)
}

fn append_part(
    body: &mut String,
    tag: &str,
    path: &str,
    Ghost(parts): Ghost<Seq<(Seq<char>, Seq<char>)>>,
)
    requires
        old(body)@ == designmap_head() + part_lines(parts),
    ensures
        final(body)@ == designmap_head() + part_lines(parts.push((tag@, path@))),
{
    body.append("\n<idPkg:");
    body.append(tag);
    body.append(" src=\"");
    body.append(path);
    body.append("\"/>");
    assert(parts.push((tag@, path@)).drop_last() =~= parts);
    assert(body@ =~= designmap_head() + part_lines(parts.push((tag@, path@))));
}

/// The manifest.
pub fn designmap() -> (r: String)
    ensures
        r@ == designmap_part(),
{
    let mut body: String = String::new();
    body.append("<?aid style=\"50\" type=\"document\" readerVersion=\"6.0\" featureSet=\"257\" product=\"20.0(32)\"?>");
    body.append("\n<Document xmlns:idPkg=\"");
    body.append(NS);
    body.append("\" DOMVersion=\"20.0\" Self=\"d\" StoryList=\"\" Name=\"Imported.pdf\">");
    let ghost all = listed_parts();
    assert(body@ =~= designmap_head() + part_lines(all.take(0)));
    append_part(&mut body, "Graphic", "Resources/Graphic.xml", Ghost(all.take(0)));
    assert(all.take(0).push(all[0]) =~= all.take(1));
    append_part(&mut body, "Fonts", "Resources/Fonts.xml", Ghost(all.take(1)));
    assert(all.take(1).push(all[1]) =~= all.take(2));
    append_part(&mut body, "Styles", "Resources/Styles.xml", Ghost(all.take(2)));
    assert(all.take(2).push(all[2]) =~= all.take(3));
    append_part(&mut body, "Preferences", "Resources/Preferences.xml", Ghost(all.take(3)));
    assert(all.take(3).push(all[3]) =~= all.take(4));
    append_part(&mut body, "MasterSpread", "MasterSpreads/MasterSpread_um.xml", Ghost(all.take(4)));
    assert(all.take(4).push(all[4]) =~= all.take(5));
    append_part(&mut body, "Spread", "Spreads/Spread_us.xml", Ghost(all.take(5)));
    assert(all.take(5).push(all[5]) =~= all.take(6));
    append_part(&mut body, "BackingStory", "XML/BackingStory.xml", Ghost(all.take(6)));
    assert(all.take(6).push(all[6]) =~= all);
    body.append("\n</Document>");
    xml(body.as_str())
}

/// The part of the master spread.
pub open spec fn master_spread_part(bounds: Seq<char>) -> Seq<char> {
    xml_document(
        "<idPkg:MasterSpread xmlns:idPkg=\""@
            + NS@
            + "\" DOMVersion=\"20.0\"><MasterSpread Self=\"um\" Name=\"A\">"@
            + "<Page Self=\"ump\" Name=\"A\" GeometricBounds=\""@
            + bounds
            + "\" ItemTransform=\"1 0 0 1 0 0\"/></MasterSpread></idPkg:MasterSpread>"@,
    )
}

/// The part of the master spread.
pub fn master_spread(bounds: &str) -> (r: String)
    ensures
        r@ == master_spread_part(bounds@),
{
    let mut body: String = String::new();
    body.append("<idPkg:MasterSpread xmlns:idPkg=\"");
    body.append(NS);
    body.append("\" DOMVersion=\"20.0\"><MasterSpread Self=\"um\" Name=\"A\">");
    body.append("<Page Self=\"ump\" Name=\"A\" GeometricBounds=\"");
    body.append(bounds);
    body.append("\" ItemTransform=\"1 0 0 1 0 0\"/></MasterSpread></idPkg:MasterSpread>");
    xml(body.as_str())
}

/// The part of the spread.
pub open spec fn spread_part(bounds: Seq<char>) -> Seq<char> {
    xml_document(
        "<idPkg:Spread xmlns:idPkg=\""@
            + NS@
            + "\" DOMVersion=\"20.0\">"@
            + "\n<Spread Self=\"us\" PageCount=\"1\" ItemTransform=\"1 0 0 1 0 0\">"@
            + "\n<Page Self=\"usp\" Name=\"1\" GeometricBounds=\""@
            + bounds
            + "\" ItemTransform=\"1 0 0 1 0 0\" AppliedMaster=\"um\"/>\n</Spread></idPkg:Spread>"@,
    )
}

/// The part of the spread.
pub fn spread(bounds: &str) -> (r: String)
    ensures
        r@ == spread_part(bounds@),
{
    let mut body: String = String::new();
    body.append("<idPkg:Spread xmlns:idPkg=\"");
    body.append(NS);
    body.append("\" DOMVersion=\"20.0\">");
    body.append("\n<Spread Self=\"us\" PageCount=\"1\" ItemTransform=\"1 0 0 1 0 0\">");
    body.append("\n<Page Self=\"usp\" Name=\"1\" GeometricBounds=\"");
    body.append(bounds);
    body.append("\" ItemTransform=\"1 0 0 1 0 0\" AppliedMaster=\"um\"/>\n</Spread></idPkg:Spread>");
    xml(body.as_str())
}

/// An entry of the package.
pub struct Entry {
    pub name: &'static str,
    pub data: Vec<u8>,
    /// Whether the data stands in the archive as it is, not compressed.
    pub stored: bool,
}

/// What an [`Entry`] holds.
#[verifier::ext_equal]
pub ghost struct EntryView {
    pub name: Seq<char>,
    pub data: Seq<u8>,
    pub stored: bool,
}

impl DeepView for Entry {
    type V = EntryView;

    open spec fn deep_view(&self) -> EntryView {
        EntryView { name: self.name@, data: self.data@, stored: self.stored }
    }
}

/// An archive that is being written, in memory. It hides `zip::ZipWriter`, whose
/// parameter is bound by `Write` and `Seek`, which Verus has no declarations of.
#[verifier::external_body]
pub struct PackageWriter {
    zip: zip::ZipWriter<Cursor<Vec<u8>>>,
}

/// The entries that were written, in order.
pub uninterp spec fn written(writer: PackageWriter) -> Seq<EntryView>;

/// The most data that one entry takes without any doubt: compressed, data grow by
/// less than a seventh, and an entry takes less than four gibibytes.
pub const MOST_DATA: u64 = 0xe000_0000;

/// Whether every entry takes its data without any doubt.
pub open spec fn data_are_modest(entries: Seq<EntryView>) -> bool {
    forall|i: int| 0 <= i < entries.len() ==> (#[trigger] entries[i]).data.len() <= MOST_DATA
}

/// How much data the entries hold.
pub open spec fn data_size(entries: Seq<EntryView>) -> nat
    decreases entries.len(),
{
    if entries.len() == 0 {
        0
    } else {
        data_size(entries.drop_last()) + entries.last().data.len()
    }
}

/// Whether no two entries have the same name.
pub open spec fn names_differ(entries: Seq<EntryView>) -> bool {
    forall|i: int, j: int|
        0 <= i < j < entries.len() ==> #[trigger] entries[i].name != #[trigger] entries[j].name
}

/// Whether every name is short.
pub open spec fn names_are_short(entries: Seq<EntryView>) -> bool {
    forall|i: int| 0 <= i < entries.len() ==> (#[trigger] entries[i]).name.len() <= 255
}

/// The most entries that one archive has here: as many as need no larger format.
pub const MOST_ENTRIES: u64 = 0xfff0;

/// Whether the entries fit into an archive without any doubt.
pub open spec fn fits(entries: Seq<EntryView>) -> bool {
    &&& names_differ(entries)
    &&& names_are_short(entries)
    &&& entries.len() <= MOST_ENTRIES
    &&& data_are_modest(entries)
}

/// How much data needs no larger format for certain, however many entries hold it.
pub const SMALL: u64 = 0x8000_0000;

/// Whether the last name ends in twenty printable characters of ASCII. The list of
/// an archive then does not end like one in the larger format.
pub open spec fn ends_plainly(entries: Seq<EntryView>) -> bool {
    entries.len() > 0 && {
        let name = entries.last().name;
        &&& name.len() >= 20
        &&& forall|i: int| name.len() - 20 <= i < name.len() ==> ' ' <= #[trigger] name[i] <= '~'
    }
}

/// Whether an archive of the entries, once written, is read as what it is.
pub open spec fn is_clear(entries: Seq<EntryView>) -> bool {
    &&& names_differ(entries)
    &&& names_are_short(entries)
    &&& entries.len() <= MOST_ENTRIES
    &&& ends_plainly(entries) || data_size(entries) <= SMALL
}

/// What an archive with these entries has at each place.
pub open spec fn slots_of(entries: Seq<EntryView>) -> Seq<Option<SlotView>> {
    entries.map_values(
        |e: EntryView| Some(SlotView { name: e.name, data: Some(e.data), stored: e.stored }),
    )
}

/// `entries` with `data` added to the last of them.
pub open spec fn extended(entries: Seq<EntryView>, data: Seq<u8>) -> Seq<EntryView> {
    let last = entries.last();
    entries.drop_last().push(EntryView { data: last.data + data, ..last })
}

/// `zip::ZipWriter::new`, into memory: nothing is written yet.
#[verifier::external_body]
fn new_writer() -> (r: PackageWriter)
    ensures
        written(r) == Seq::<EntryView>::empty(),
{
    PackageWriter { zip: zip::ZipWriter::new(Cursor::new(Vec::new())) }
}

/// `zip::ZipWriter::start_file`, with an entry that is stored: opens an entry
/// that holds nothing yet. It does not fail where the entries fit.
#[verifier::external_body]
fn start_stored(writer: &mut PackageWriter, name: &str) -> (r: Result<(), zip::result::ZipError>)
    ensures
        r is Ok ==> written(*final(writer)) == written(*old(writer)).push(
            (EntryView { name: name@, data: Seq::empty(), stored: true }),
        ),
        r is Err ==> !fits(
            written(*old(writer)).push(
                (EntryView { name: name@, data: Seq::empty(), stored: true }),
            ),
        ),
{
    let options = zip::write::SimpleFileOptions::default();
    writer.zip.start_file(name, options.compression_method(zip::CompressionMethod::Stored))
}

/// `zip::ZipWriter::start_file`, with an entry that is compressed: opens an entry
/// that holds nothing yet. It does not fail where the entries fit.
#[verifier::external_body]
fn start_deflated(writer: &mut PackageWriter, name: &str) -> (r: Result<(), zip::result::ZipError>)
    ensures
        r is Ok ==> written(*final(writer)) == written(*old(writer)).push(
            (EntryView { name: name@, data: Seq::empty(), stored: false }),
        ),
        r is Err ==> !fits(
            written(*old(writer)).push(
                (EntryView { name: name@, data: Seq::empty(), stored: false }),
            ),
        ),
{
    let options = zip::write::SimpleFileOptions::default();
    writer.zip.start_file(name, options.compression_method(zip::CompressionMethod::Deflated))
}

/// `std::io::Write::write_all` of a `zip::ZipWriter`: adds data to the entry that
/// is open. It does not fail where the entries fit.
#[verifier::external_body]
fn write_data(writer: &mut PackageWriter, data: &[u8]) -> (r: Result<(), std::io::Error>)
    requires
        written(*old(writer)).len() > 0,
    ensures
        r is Ok ==> written(*final(writer)) == extended(written(*old(writer)), data@),
        r is Err ==> !fits(extended(written(*old(writer)), data@)),
{
    writer.zip.write_all(data)
}

/// `zip::ZipWriter::finish`: the bytes of the archive. It does not fail where the
/// entries fit. Where it does not fail, `zip::ZipArchive` finds them all again, in
/// the order in which they were written, each stored or compressed as it was
/// started; past four gibibytes in the larger format, which the writer turns to by
/// itself. The one doubt is an archive whose list begins at just the offset that
/// stands for the larger format: what the list ends in could be taken for the mark
/// of that format, unless it is plain text. The bytes themselves are left open:
/// they depend on the compression.
#[verifier::external_body]
fn finish(writer: PackageWriter) -> (r: Result<Vec<u8>, zip::result::ZipError>)
    ensures
        match r {
            Ok(bytes) => is_clear(written(writer)) ==> zip_directory(bytes@) == Some(
                slots_of(written(writer)),
            ),
            Err(_) => !fits(written(writer)),
        },
{
    writer.zip.finish().map(|cursor| cursor.into_inner())
}

/// The first entries of those that fit, fit too.
proof fn lemma_fits_prefix(entries: Seq<EntryView>, k: nat)
    requires
        fits(entries),
        k <= entries.len(),
    ensures
        fits(entries.take(k as int)),
{
    let first = entries.take(k as int);
    assert forall|i: int, j: int| 0 <= i < j < first.len() implies #[trigger] first[i].name
        != #[trigger] first[j].name by {
        assert(first[i] == entries[i] && first[j] == entries[j]);
    }
    assert forall|i: int| 0 <= i < first.len() implies (#[trigger] first[i]).name.len() <= 255
        && first[i].data.len() <= MOST_DATA by {
        assert(first[i] == entries[i]);
    }
}

/// Entries that fit, do so without the data of the last.
proof fn lemma_fits_bare(entries: Seq<EntryView>, entry: EntryView)
    requires
        fits(entries.push(entry)),
    ensures
        fits(entries.push(EntryView { data: Seq::empty(), ..entry })),
{
    let bare = entries.push(EntryView { data: Seq::empty(), ..entry });
    let full = entries.push(entry);
    assert forall|i: int, j: int| 0 <= i < j < bare.len() implies #[trigger] bare[i].name
        != #[trigger] bare[j].name by {
        assert(bare[i].name == full[i].name && bare[j].name == full[j].name);
    }
    assert forall|i: int| 0 <= i < bare.len() implies (#[trigger] bare[i]).name.len() <= 255
        && bare[i].data.len() <= MOST_DATA by {
        assert(bare[i].name == full[i].name);
        assert(full[i].data.len() <= MOST_DATA);
    }
}

fn put_entry(writer: &mut PackageWriter, entry: &Entry) -> (r: Result<(), BuildError>)
    ensures
        match r {
            Ok(_) => written(*final(writer)) == written(*old(writer)).push(entry.deep_view()),
            Err(e) => (e is Container || e is Io) && !fits(
                written(*old(writer)).push(entry.deep_view()),
            ),
        },
{
    let ghost before = written(*writer);
    let ghost e = entry.deep_view();
    proof {
        if fits(before.push(e)) {
            lemma_fits_bare(before, e);
        }
    }
    let opened: Result<(), zip::result::ZipError> = if entry.stored {
        start_stored(writer, entry.name)
    } else {
        start_deflated(writer, entry.name)
    };
    match opened {
        Err(e) => {
            return Err(BuildError::Container(e));
        },
        Ok(_) => {},
    }
    let ghost bare = EntryView { data: Seq::empty(), ..e };
    assert(written(*writer) == before.push(bare));
    assert(before.push(bare).drop_last() =~= before);
    assert(Seq::<u8>::empty() + e.data =~= e.data);
    assert(extended(before.push(bare), e.data) =~= before.push(e));
    match write_data(writer, entry.data.as_slice()) {
        Err(e) => Err(BuildError::Io(e)),
        Ok(_) => Ok(()),
    }
}

/// Writes the entries into an archive.
pub fn write_package(entries: &Vec<Entry>) -> (r: Result<Vec<u8>, BuildError>)
    ensures
        match r {
            Ok(bytes) => is_clear(entries.deep_view()) ==> zip_directory(bytes@) == Some(
                slots_of(entries.deep_view()),
            ),
            Err(e) => (e is Container || e is Io) && !fits(entries.deep_view()),
        },
{
    let ghost all = entries.deep_view();
    let mut writer: PackageWriter = new_writer();
    let mut i: usize = 0;
    assert(all.take(0) =~= Seq::empty());
    while i < entries.len()
        invariant
            i <= entries@.len(),
            all == entries.deep_view(),
            written(writer) == all.take(i as int),
        decreases entries@.len() - i,
    {
        assert(all.take(i as int).push(all[i as int]) =~= all.take(i + 1));
        assert(all[i as int] == entries@[i as int].deep_view());
        proof {
            if fits(all) {
                lemma_fits_prefix(all, (i + 1) as nat);
            }
        }
        match put_entry(&mut writer, &entries[i]) {
            Err(e) => {
                return Err(e);
            },
            Ok(_) => {},
        }
        i = i + 1;
    }
    assert(all.take(all.len() as int) =~= all);
    match finish(writer) {
        Err(e) => Err(BuildError::Container(e)),
        Ok(bytes) => Ok(bytes),
    }
}

/// The box of the page, as `GeometricBounds` states one, given the texts of its
/// width and height.
pub open spec fn bounds_text(width: Seq<char>, height: Seq<char>) -> Seq<char> {
    "0 0 "@ + height + " "@ + width
}

/// An entry that holds a text.
pub open spec fn text_entry(name: Seq<char>, text: Seq<char>) -> EntryView {
    EntryView { name, data: encode_utf8(text), stored: false }
}

/// The entries of the package, in order: what it is, stored as it is; the parts of
/// a publication with one empty page; and the document.
pub open spec fn package_entries(pgm: Seq<u8>, bounds: Seq<char>) -> Seq<EntryView> {
    seq![
        EntryView { name: "mimetype"@, data: encode_utf8(MIME@), stored: true },
        text_entry("designmap.xml"@, designmap_part()),
        text_entry("META-INF/container.xml"@, container_part()),
        text_entry("Resources/Graphic.xml"@, graphic_part()),
        text_entry("Resources/Fonts.xml"@, empty_part("Fonts"@)),
        text_entry("Resources/Styles.xml"@, styles_part()),
        text_entry("Resources/Preferences.xml"@, empty_part("Preferences"@)),
        text_entry("MasterSpreads/MasterSpread_um.xml"@, master_spread_part(bounds)),
        text_entry("Spreads/Spread_us.xml"@, spread_part(bounds)),
        text_entry("XML/BackingStory.xml"@, backing_part()),
        EntryView { name: DOCUMENT_PGM_PATH@, data: pgm, stored: false },
    ]
}

fn bytes_of(text: &str) -> (r: Vec<u8>)
    ensures
        r@ == encode_utf8(text@),
{
    let bytes: &[u8] = text.as_bytes();
    let mut r: Vec<u8> = Vec::new();
    let mut i: usize = 0;
    while i < bytes.len()
        invariant
            i <= bytes@.len(),
            r@ == bytes@.take(i as int),
        decreases bytes@.len() - i,
    {
        r.push(bytes[i]);
        assert(r@ =~= bytes@.take(i + 1));
        i = i + 1;
    }
    assert(r@ =~= bytes@);
    r
}

fn push_text(entries: &mut Vec<Entry>, name: &'static str, text: &str)
    ensures
        final(entries).deep_view() == old(entries).deep_view().push(text_entry(name@, text@)),
{
    push_item(entries, Entry { name, data: bytes_of(text), stored: false });
}

/// Lists the entries of the package.
pub fn list_entries(pgm: Vec<u8>, bounds: &str) -> (r: Vec<Entry>)
    ensures
        r.deep_view() == package_entries(pgm@, bounds@),
{
    let mut r: Vec<Entry> = Vec::new();
    push_item(&mut r, Entry { name: "mimetype", data: bytes_of(MIME), stored: true });
    push_text(&mut r, "designmap.xml", designmap().as_str());
    push_text(&mut r, "META-INF/container.xml", container().as_str());
    push_text(&mut r, "Resources/Graphic.xml", graphic().as_str());
    push_text(&mut r, "Resources/Fonts.xml", empty_pkg("Fonts").as_str());
    push_text(&mut r, "Resources/Styles.xml", styles().as_str());
    push_text(&mut r, "Resources/Preferences.xml", empty_pkg("Preferences").as_str());
    push_text(&mut r, "MasterSpreads/MasterSpread_um.xml", master_spread(bounds).as_str());
    push_text(&mut r, "Spreads/Spread_us.xml", spread(bounds).as_str());
    push_text(&mut r, "XML/BackingStory.xml", backing().as_str());
    push_item(&mut r, Entry { name: DOCUMENT_PGM_PATH, data: pgm, stored: false });
    assert(r.deep_view() =~= package_entries(pgm@, bounds@));
    r
}

/// Whether the first entry of an archive, and no other, stands in it as it is.
pub open spec fn first_alone_is_stored(slots: Seq<Option<SlotView>>) -> bool {
    forall|i: int|
        0 <= i < slots.len() ==> (#[trigger] slots[i] matches Some(slot) && slot.stored == (i
            == 0))
}

/// Wraps a document, given as the bytes of its part, into a package. The width and
/// the height of the page that shows where the document itself cannot be read are
/// given as texts.
pub fn wrap_document(pgm: Vec<u8>, width: &str, height: &str) -> (r: Result<Vec<u8>, BuildError>)
    ensures
        ({
            let entries = package_entries(pgm@, bounds_text(width@, height@));
            match r {
                Ok(bytes) => zip_directory(bytes@) matches Some(slots) && slots == slots_of(entries)
                    && first_alone_is_stored(slots),
                Err(e) => (e is Container || e is Io) && !data_are_modest(entries),
            }
        }),
{
    let mut bounds: String = "0 0 ".to_string();
    bounds.append(height);
    bounds.append(" ");
    bounds.append(width);
    proof {
        lemma_package_names(pgm@, bounds@);
    }
    write_package(&list_entries(pgm, bounds.as_str()))
}

/// The names of the entries are short and all different, none is that of a folder,
/// and the last is plain text.
proof fn lemma_package_names(pgm: Seq<u8>, bounds: Seq<char>)
    ensures
        names_differ(package_entries(pgm, bounds)),
        names_are_short(package_entries(pgm, bounds)),
        ends_plainly(package_entries(pgm, bounds)),
        forall|i: int|
            0 <= i < package_entries(pgm, bounds).len() ==> !is_folder(
                (#[trigger] package_entries(pgm, bounds)[i]).name,
            ),
{
    reveal_strlit("mimetype");
    reveal_strlit("designmap.xml");
    reveal_strlit("META-INF/container.xml");
    reveal_strlit("Resources/Graphic.xml");
    reveal_strlit("Resources/Fonts.xml");
    reveal_strlit("Resources/Styles.xml");
    reveal_strlit("Resources/Preferences.xml");
    reveal_strlit("MasterSpreads/MasterSpread_um.xml");
    reveal_strlit("Spreads/Spread_us.xml");
    reveal_strlit("XML/BackingStory.xml");
    reveal_strlit("paged/core/model/document.pgm");
    let e = package_entries(pgm, bounds);
    assert(e.len() == 11);
    assert(e[0].name.len() == 8 && e[0].name.last() == 'e');
    assert(e[1].name.len() == 13 && e[1].name.last() == 'l');
    assert(e[2].name.len() == 22 && e[2].name.last() == 'l');
    assert(e[3].name.len() == 21 && e[3].name.last() == 'l' && e[3].name[0] == 'R');
    assert(e[4].name.len() == 19 && e[4].name.last() == 'l');
    assert(e[5].name.len() == 20 && e[5].name.last() == 'l' && e[5].name[0] == 'R');
    assert(e[6].name.len() == 25 && e[6].name.last() == 'l');
    assert(e[7].name.len() == 33 && e[7].name.last() == 'l');
    assert(e[8].name.len() == 21 && e[8].name.last() == 'l' && e[8].name[0] == 'S');
    assert(e[9].name.len() == 20 && e[9].name.last() == 'l' && e[9].name[0] == 'X');
    assert(e[10].name.len() == 29 && e[10].name.last() == 'm');
}

/// The data of the first `n` entries by their names.
pub open spec fn contents(entries: Seq<EntryView>, n: nat) -> Map<Seq<char>, Seq<u8>>
    decreases n,
{
    if n == 0 {
        Map::empty()
    } else {
        contents(entries, (n - 1) as nat).insert(entries[n - 1].name, entries[n - 1].data)
    }
}

proof fn lemma_gathered(entries: Seq<EntryView>, n: nat)
    requires
        n <= entries.len(),
        forall|i: int| 0 <= i < entries.len() ==> !is_folder((#[trigger] entries[i]).name),
    ensures
        gathered(slots_of(entries), n) == Ok::<Map<Seq<char>, Seq<u8>>, Refusal>(
            contents(entries, n),
        ),
    decreases n,
{
    if n > 0 {
        lemma_gathered(entries, (n - 1) as nat);
        let last = entries[n - 1];
        assert(slots_of(entries)[n - 1] == Some(
            SlotView { name: last.name, data: Some(last.data), stored: last.stored },
        ));
    }
}

proof fn lemma_contents(entries: Seq<EntryView>, n: nat, i: int)
    requires
        names_differ(entries),
        0 <= i < n <= entries.len(),
    ensures
        contents(entries, n).dom().contains(entries[i].name),
        contents(entries, n)[entries[i].name] == entries[i].data,
    decreases n,
{
    if i < n - 1 {
        lemma_contents(entries, (n - 1) as nat, i);
        assert(entries[i].name != entries[n - 1].name);
    }
}

/// What a document was wrapped into is a package that opens, with every entry in
/// it as it was written; among them the document.
pub proof fn law_wrapped_document_opens(bytes: Seq<u8>, pgm: Seq<u8>, bounds: Seq<char>)
    requires
        zip_directory(bytes) == Some(slots_of(package_entries(pgm, bounds))),
    ensures
        ({
            let entries = package_entries(pgm, bounds);
            package_of(zip_directory(bytes)) matches Ok(archive) && archive.mimetype == MIME@
                && archive.designmap_raw == encode_utf8(designmap_part()) && archive.entries
                == contents(entries, entries.len()) && archive.entries.dom().contains(
                DOCUMENT_PGM_PATH@,
            ) && archive.entries[DOCUMENT_PGM_PATH@] == pgm
        }),
{
    let entries = package_entries(pgm, bounds);
    lemma_package_names(pgm, bounds);
    lemma_gathered(entries, entries.len());
    lemma_contents(entries, entries.len(), 0);
    lemma_contents(entries, entries.len(), 1);
    lemma_contents(entries, entries.len(), 10);
    broadcast use vstd::utf8::encode_utf8_valid_utf8, vstd::utf8::encode_utf8_decode_utf8;

    reveal_strlit("application/vnd.adobe.indesign-idml-package");
    assert(slots_of(entries).len() == entries.len());
    assert(decoded(encode_utf8(MIME@)) == Some(MIME@));
    assert(trimmed_start(MIME@) == MIME@);
    assert(trimmed(MIME@) == MIME@);
}

/// In the bytes that a document was wrapped into, what says what the package is
/// comes first and stands there as it is; everything else is compressed.
pub proof fn law_mimetype_is_first_and_stored(bytes: Seq<u8>, pgm: Seq<u8>, bounds: Seq<char>)
    requires
        zip_directory(bytes) == Some(slots_of(package_entries(pgm, bounds))),
    ensures
        zip_directory(bytes) matches Some(slots) && slots.len() > 0 && slots[0] == Some(
            SlotView { name: "mimetype"@, data: Some(encode_utf8(MIME@)), stored: true },
        ) && first_alone_is_stored(slots),
{
    let slots = slots_of(package_entries(pgm, bounds));
    assert(slots[0] == Some(
        SlotView { name: "mimetype"@, data: Some(encode_utf8(MIME@)), stored: true },
    ));
}

/// Every part that the manifest lists is in the package, where the manifest says.
pub proof fn law_listed_parts_are_there(
    bytes: Seq<u8>,
    pgm: Seq<u8>,
    bounds: Seq<char>,
    i: int,
)
    requires
        zip_directory(bytes) == Some(slots_of(package_entries(pgm, bounds))),
        0 <= i < listed_parts().len(),
    ensures
        package_of(zip_directory(bytes)) matches Ok(archive) && archive.designmap_raw
            == encode_utf8(designmap_part()) && archive.entries.dom().contains(
            listed_parts()[i].1,
        ),
{
    let entries = package_entries(pgm, bounds);
    law_wrapped_document_opens(bytes, pgm, bounds);
    lemma_package_names(pgm, bounds);
    lemma_contents(entries, entries.len(), i + 3);
    assert(entries[i + 3].name == listed_parts()[i].1);
}

/// The page of the package, and that of its master, has the height and the width
/// that were given, the height first.
pub proof fn law_page_states_height_first(
    bytes: Seq<u8>,
    pgm: Seq<u8>,
    width: Seq<char>,
    height: Seq<char>,
)
    requires
        zip_directory(bytes) == Some(slots_of(package_entries(pgm, bounds_text(width, height)))),
    ensures
        package_of(zip_directory(bytes)) matches Ok(archive) && archive.entries.dom().contains(
            "Spreads/Spread_us.xml"@,
        ) && archive.entries["Spreads/Spread_us.xml"@] == encode_utf8(
            spread_part("0 0 "@ + height + " "@ + width),
        ) && archive.entries.dom().contains("MasterSpreads/MasterSpread_um.xml"@)
            && archive.entries["MasterSpreads/MasterSpread_um.xml"@] == encode_utf8(
            master_spread_part("0 0 "@ + height + " "@ + width),
        ),
{
    let bounds = bounds_text(width, height);
    let entries = package_entries(pgm, bounds);
    law_wrapped_document_opens(bytes, pgm, bounds);
    lemma_package_names(pgm, bounds);
    lemma_contents(entries, entries.len(), 7);
    lemma_contents(entries, entries.len(), 8);
}

} // verus!
