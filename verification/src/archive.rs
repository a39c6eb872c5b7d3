//! The package as a container: a ZIP archive that says by its entry `mimetype`
//! what it is, and has a manifest, `designmap.xml`.
use crate::error::ParseError;
use crate::idmap::IdMap;
use crate::text::{same_text, trim, trimmed};
use crate::util::join;
use crate::xml::{decoded, utf8_text};
use std::io::{Cursor, Read};
use vstd::prelude::*;

verus! {

/// What the entry `mimetype` of a package says.
pub const MIME: &'static str = "application/vnd.adobe.indesign-idml-package";

/// `std::io::Cursor`, over the bytes of an archive.
#[verifier::external_type_specification]
#[verifier::external_body]
#[verifier::reject_recursive_types(T)]
pub struct ExCursor<T>(std::io::Cursor<T>);

/// `zip::ZipArchive`, which holds the entries of an archive.
#[verifier::external_type_specification]
#[verifier::external_body]
#[verifier::reject_recursive_types(R)]
pub struct ExZipArchive<R>(zip::ZipArchive<R>);

/// `bytes::Bytes`, which holds bytes that are shared, not copied.
#[verifier::external_type_specification]
#[verifier::external_body]
pub struct ExBytes(bytes::Bytes);

/// What an archive has at one place: the name, the data, where they can be read,
/// and whether they stand there as they are, not compressed.
pub ghost struct SlotView {
    pub name: Seq<char>,
    pub data: Option<Seq<u8>>,
    pub stored: bool,
}

/// The entries of an archive, in its own order; `None` for one that cannot be
/// opened.
pub uninterp spec fn zip_slots(zip: zip::ZipArchive<Cursor<&[u8]>>) -> Seq<Option<SlotView>>;

/// The entries of the archive that `bytes` are, or `None` where they are none.
pub uninterp spec fn zip_directory(bytes: Seq<u8>) -> Option<Seq<Option<SlotView>>>;

/// The bytes that are shared.
pub uninterp spec fn shared_bytes(b: bytes::Bytes) -> Seq<u8>;

/// Whether a name is that of a folder.
pub open spec fn is_folder(name: Seq<char>) -> bool {
    name.len() > 0 && (name.last() == '/' || name.last() == '\\')
}

/// `zip::ZipArchive::new`: what it finds is a function of the bytes alone.
#[verifier::external_body]
fn open_zip<'a>(bytes: &'a [u8]) -> (r: Result<
    zip::ZipArchive<Cursor<&'a [u8]>>,
    zip::result::ZipError,
>)
    ensures
        match r {
            Ok(zip) => zip_directory(bytes@) == Some(zip_slots(zip)),
            Err(_) => zip_directory(bytes@) is None,
        },
{
    zip::ZipArchive::new(Cursor::new(bytes))
}

/// `zip::ZipArchive::len`: the number of entries.
#[verifier::external_body]
fn slot_count(zip: &zip::ZipArchive<Cursor<&[u8]>>) -> (r: usize)
    ensures
        r == zip_slots(*zip).len(),
{
    zip.len()
}

/// `zip::ZipArchive::by_index`, with `ZipFile::name` and `ZipFile::is_dir`: the
/// name of an entry, and whether it is a folder, which it is where its name ends
/// in a slash or a backslash. Opening an entry changes nothing in the archive.
#[verifier::external_body]
fn slot_name(zip: &mut zip::ZipArchive<Cursor<&[u8]>>, i: usize) -> (r: Result<
    (String, bool),
    zip::result::ZipError,
>)
    requires
        i < zip_slots(*old(zip)).len(),
    ensures
        zip_slots(*final(zip)) == zip_slots(*old(zip)),
        match r {
            Ok(head) => zip_slots(*old(zip))[i as int] matches Some(slot) && head.0@ == slot.name
                && head.1 == is_folder(slot.name),
            Err(_) => zip_slots(*old(zip))[i as int] is None,
        },
{
    let file = zip.by_index(i)?;
    Ok((file.name().to_string(), file.is_dir()))
}

/// `zip::ZipArchive::by_index` and `std::io::Read::read_to_end` on what it opens:
/// the data of an entry. Reading an entry changes nothing in the archive.
#[verifier::external_body]
fn slot_data(zip: &mut zip::ZipArchive<Cursor<&[u8]>>, i: usize) -> (r: Result<
    Result<Vec<u8>, std::io::Error>,
    zip::result::ZipError,
>)
    requires
        i < zip_slots(*old(zip)).len(),
    ensures
        zip_slots(*final(zip)) == zip_slots(*old(zip)),
        match r {
            Ok(Ok(data)) => zip_slots(*old(zip))[i as int] matches Some(slot) && slot.data == Some(
                data@,
            ),
            Ok(Err(_)) => zip_slots(*old(zip))[i as int] matches Some(slot) && slot.data is None,
            Err(_) => zip_slots(*old(zip))[i as int] is None,
        },
{
    let mut file = zip.by_index(i)?;
    let mut data = Vec::new();
    Ok(file.read_to_end(&mut data).map(|_| data))
}

/// `bytes::Bytes::from`, for a `Vec`: its bytes, to be shared.
#[verifier::external_body]
fn share(v: Vec<u8>) -> (r: bytes::Bytes)
    ensures
        shared_bytes(r) == v@,
{
    bytes::Bytes::from(v)
}

/// `bytes::Bytes::clone`: the same bytes, shared once more.
#[verifier::external_body]
fn share_again(b: &bytes::Bytes) -> (r: bytes::Bytes)
    ensures
        shared_bytes(r) == shared_bytes(*b),
{
    b.clone()
}

/// `bytes::Bytes` as a slice: the bytes that are shared.
#[verifier::external_body]
pub(crate) fn as_slice(b: &bytes::Bytes) -> (r: &[u8])
    ensures
        r@ == shared_bytes(*b),
{
    b.as_ref()
}

/// The complaint of `std::str::Utf8Error` about bytes that are not UTF-8.
pub uninterp spec fn utf8_complaint(raw: Seq<u8>) -> Seq<char>;

/// The text of the error of `std::str::from_utf8`: a function of the bytes alone.
#[verifier::external_body]
fn complain(raw: &[u8]) -> (r: String)
    requires
        decoded(raw@) is None,
    ensures
        r@ == utf8_complaint(raw@),
{
    std::str::from_utf8(raw).err().map(|e| e.to_string()).unwrap_or_default()
}

/// A text in quotes, as `Debug` shows it.
pub uninterp spec fn quoted_text(s: Seq<char>) -> Seq<char>;

/// `Debug` of a `str`: the text in quotes, a function of the text alone.
#[verifier::external_body]
fn quote(s: &str) -> (r: String)
    ensures
        r@ == quoted_text(s@),
{
    format!("{s:?}")
}

/// One entry of a package.
#[derive(Debug)]
pub struct Part {
    /// What the entry holds.
    pub raw: bytes::Bytes,
}

impl DeepView for Part {
    type V = Seq<u8>;

    open spec fn deep_view(&self) -> Seq<u8> {
        shared_bytes(self.raw)
    }
}

/// A package that was opened: its entries, as they are.
#[derive(Debug)]
pub struct SourceArchive {
    /// What the package says it is.
    pub mimetype: String,
    /// The manifest, as it is.
    pub designmap_raw: bytes::Bytes,
    /// Every entry that is no folder, by its path.
    pub entries: IdMap<Part>,
}

/// What a `SourceArchive` stands for.
#[verifier::ext_equal]
pub ghost struct SourceArchiveView {
    pub mimetype: Seq<char>,
    pub designmap_raw: Seq<u8>,
    pub entries: Map<Seq<char>, Seq<u8>>,
}

impl DeepView for SourceArchive {
    type V = SourceArchiveView;

    open spec fn deep_view(&self) -> SourceArchiveView {
        SourceArchiveView {
            mimetype: self.mimetype@,
            designmap_raw: shared_bytes(self.designmap_raw),
            entries: self.entries.deep_view(),
        }
    }
}

/// Why bytes are not a package.
pub ghost enum Refusal {
    /// The container is malformed.
    Zip,
    /// An entry cannot be read.
    Io,
    /// A required entry is missing.
    Missing(Seq<char>),
    /// The package is of another kind, and why.
    OtherKind(Seq<char>),
}

/// Whether `e` states the refusal `why`.
pub open spec fn states(e: ParseError, why: Refusal) -> bool {
    match why {
        Refusal::Zip => e is Zip,
        Refusal::Io => e is Io,
        Refusal::Missing(name) => e matches ParseError::MissingEntry(n) && n@ == name,
        Refusal::OtherKind(text) => e matches ParseError::NotIdml(t) && t@ == text,
    }
}

/// The first `n` entries by their names, without the folders; where a name comes
/// twice, the later entry stands. The first entry that cannot be read decides.
pub open spec fn gathered(slots: Seq<Option<SlotView>>, n: nat) -> Result<
    Map<Seq<char>, Seq<u8>>,
    Refusal,
>
    decreases n,
{
    if n == 0 {
        Ok(Map::empty())
    } else {
        match gathered(slots, (n - 1) as nat) {
            Err(why) => Err(why),
            Ok(entries) => match slots[n - 1] {
                None => Err(Refusal::Zip),
                Some(slot) => if is_folder(slot.name) {
                    Ok(entries)
                } else {
                    match slot.data {
                        None => Err(Refusal::Io),
                        Some(data) => Ok(entries.insert(slot.name, data)),
                    }
                },
            },
        }
    }
}

/// The package that has these entries.
pub open spec fn recognised(entries: Map<Seq<char>, Seq<u8>>) -> Result<
    SourceArchiveView,
    Refusal,
> {
    if !entries.dom().contains("mimetype"@) {
        Err(Refusal::Missing("mimetype"@))
    } else {
        match decoded(entries["mimetype"@]) {
            None => Err(
                Refusal::OtherKind("mimetype not utf-8: "@ + utf8_complaint(entries["mimetype"@])),
            ),
            Some(said) => if trimmed(said) != MIME@ {
                Err(Refusal::OtherKind("unexpected mimetype "@ + quoted_text(trimmed(said))))
            } else if !entries.dom().contains("designmap.xml"@) {
                Err(Refusal::Missing("designmap.xml"@))
            } else {
                Ok(
                    SourceArchiveView {
                        mimetype: MIME@,
                        designmap_raw: entries["designmap.xml"@],
                        entries,
                    },
                )
            },
        }
    }
}

/// The package that an archive with these entries is.
pub open spec fn package_of(directory: Option<Seq<Option<SlotView>>>) -> Result<
    SourceArchiveView,
    Refusal,
> {
    match directory {
        None => Err(Refusal::Zip),
        Some(slots) => match gathered(slots, slots.len()) {
            Err(why) => Err(why),
            Ok(entries) => recognised(entries),
        },
    }
}

/// Whether the result of opening a package is the one that is due.
pub open spec fn opens_as(
    r: Result<SourceArchive, ParseError>,
    due: Result<SourceArchiveView, Refusal>,
) -> bool {
    match (r, due) {
        (Ok(archive), Ok(view)) => archive.deep_view() == view,
        (Err(e), Err(why)) => states(e, why),
        _ => false,
    }
}

/// If the first entry that cannot be read is among the first `n`, it decides for
/// all of them.
proof fn lemma_refusal_stays(slots: Seq<Option<SlotView>>, n: nat, m: nat)
    requires
        n <= m,
        gathered(slots, n) is Err,
    ensures
        gathered(slots, m) == gathered(slots, n),
    decreases m,
{
    if n < m {
        lemma_refusal_stays(slots, n, (m - 1) as nat);
    }
}

/// Takes every entry out of the archive.
fn gather(zip: &mut zip::ZipArchive<Cursor<&[u8]>>) -> (r: Result<IdMap<Part>, ParseError>)
    ensures
        match (r, gathered(zip_slots(*old(zip)), zip_slots(*old(zip)).len())) {
            (Ok(entries), Ok(m)) => entries.deep_view() == m,
            (Err(e), Err(why)) => states(e, why),
            _ => false,
        },
{
    let ghost slots = zip_slots(*zip);
    let mut entries: IdMap<Part> = IdMap::new();
    let n: usize = slot_count(zip);
    let mut i: usize = 0;
    while i < n
        invariant
            i <= n,
            n == slots.len(),
            slots == zip_slots(*old(zip)),
            zip_slots(*zip) == slots,
            gathered(slots, i as nat) == Ok::<Map<Seq<char>, Seq<u8>>, Refusal>(
                entries.deep_view(),
            ),
        decreases n - i,
    {
        match slot_name(zip, i) {
            Err(e) => {
                proof {
                    lemma_refusal_stays(slots, (i + 1) as nat, n as nat);
                }
                return Err(ParseError::Zip(e));
            },
            Ok((name, folder)) => if !folder {
                match slot_data(zip, i) {
                    Err(e) => {
                        return Err(ParseError::Zip(e));
                    },
                    Ok(Err(e)) => {
                        proof {
                            lemma_refusal_stays(slots, (i + 1) as nat, n as nat);
                        }
                        return Err(ParseError::Io(e));
                    },
                    Ok(Ok(data)) => {
                        entries.insert(name, Part { raw: share(data) });
                    },
                }
            },
        }
        i = i + 1;
    }
    Ok(entries)
}

/// Recognises a package by its entries.
pub fn recognise(entries: IdMap<Part>) -> (r: Result<SourceArchive, ParseError>)
    ensures
        opens_as(r, recognised(entries.deep_view())),
{
    let mimetype: String = match entries.get("mimetype") {
        None => {
            return Err(ParseError::MissingEntry("mimetype"));
        },
        Some(part) => {
            let raw: &[u8] = as_slice(&part.raw);
            match utf8_text(raw) {
                None => {
                    return Err(
                        ParseError::NotIdml(join("mimetype not utf-8: ", complain(raw).as_str())),
                    );
                },
                Some(said) => trim(said.as_str()),
            }
        },
    };
    if !same_text(mimetype.as_str(), MIME) {
        return Err(
            ParseError::NotIdml(join("unexpected mimetype ", quote(mimetype.as_str()).as_str())),
        );
    }
    let designmap_raw: bytes::Bytes = match entries.get("designmap.xml") {
        None => {
            return Err(ParseError::MissingEntry("designmap.xml"));
        },
        Some(part) => share_again(&part.raw),
    };
    Ok(SourceArchive { mimetype, designmap_raw, entries })
}

/// Opens a package: takes every entry out of the archive, and makes sure of what
/// it is and that it has a manifest.
pub fn open_source_archive(bytes: &[u8]) -> (r: Result<SourceArchive, ParseError>)
    ensures
        opens_as(r, package_of(zip_directory(bytes@))),
{
    match open_zip(bytes) {
        Err(e) => Err(ParseError::Zip(e)),
        Ok(zip) => {
            let mut zip: zip::ZipArchive<Cursor<&[u8]>> = zip;
            match gather(&mut zip) {
                Err(e) => Err(e),
                Ok(entries) => recognise(entries),
            }
        },
    }
}

impl SourceArchive {
    /// What the entry `path` holds, where there is such an entry.
    pub fn entry(&self, path: &str) -> (r: Option<&bytes::Bytes>)
        ensures
            match r {
                Some(b) => self.deep_view().entries.dom().contains(path@) && shared_bytes(*b)
                    == self.deep_view().entries[path@],
                None => !self.deep_view().entries.dom().contains(path@),
            },
    {
        match self.entries.get(path) {
            None => None,
            Some(part) => Some(&part.raw),
        }
    }
}

} // verus!
