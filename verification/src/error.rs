//! What can go wrong while a package is read.
use crate::util::join;
use vstd::prelude::*;

verus! {

/// `std::io::Error`, carried along as it is.
#[verifier::external_type_specification]
#[verifier::external_body]
pub struct ExIoError(std::io::Error);

/// `zip::result::ZipError`, carried along as it is.
#[verifier::external_type_specification]
#[verifier::external_body]
pub struct ExZipError(zip::result::ZipError);

/// Why a package, or one of its parts, could not be read.
#[derive(Debug)]
pub enum ParseError {
    /// The bytes are not such a package, and why.
    NotIdml(String),
    /// An entry that every package has is missing.
    MissingEntry(&'static str),
    /// An entry could not be read.
    Io(std::io::Error),
    /// The container is malformed.
    Zip(zip::result::ZipError),
    /// A part is malformed.
    Xml(quick_xml::Error),
}

/// Why a document could not be put together.
#[derive(Debug)]
pub enum OpenError {
    /// The manifest lists an entry that the package does not have.
    MissingEntry(String),
    /// The package, or one of its parts, could not be read.
    Parse(ParseError),
}

/// The text of a `std::io::Error`, by its `Display`. What the text is depends on
/// the operating system, and is left open.
#[verifier::external_body]
fn io_text(e: &std::io::Error) -> (r: String) {
    e.to_string()
}

/// The text of a `zip::result::ZipError`, by its `Display`. What the text is, is
/// left open: an error can hold one of the operating system.
#[verifier::external_body]
fn zip_text(e: &zip::result::ZipError) -> (r: String) {
    e.to_string()
}

/// The text of a `quick_xml::Error`, by its `Display`. What the text is, is left
/// open: an error can hold one of the operating system.
#[verifier::external_body]
fn xml_text(e: &quick_xml::Error) -> (r: String) {
    e.to_string()
}

impl ParseError {
    /// Whether `text` describes the error: what kind of error it is, and for one
    /// of the package itself all there is to say.
    pub open spec fn described_by(&self, text: Seq<char>) -> bool {
        match self {
            ParseError::NotIdml(why) => text == "not an IDML container: "@ + why@,
            ParseError::MissingEntry(name) => text == "missing required entry "@ + name@,
            ParseError::Io(_) => "i/o: "@.is_prefix_of(text),
            ParseError::Zip(_) => "zip: "@.is_prefix_of(text),
            ParseError::Xml(_) => "xml: "@.is_prefix_of(text),
        }
    }

    /// Describes the error. The text of an error of another library stands
    /// behind its kind; what it is, is left open.
    pub fn message(&self) -> (r: String)
        ensures
            self.described_by(r@),
    {
        match self {
            ParseError::NotIdml(why) => join("not an IDML container: ", why.as_str()),
            ParseError::MissingEntry(name) => join("missing required entry ", name),
            ParseError::Io(e) => join("i/o: ", io_text(e).as_str()),
            ParseError::Zip(e) => join("zip: ", zip_text(e).as_str()),
            ParseError::Xml(e) => join("xml: ", xml_text(e).as_str()),
        }
    }
}

impl OpenError {
    /// Whether `text` describes the error.
    pub open spec fn described_by(&self, text: Seq<char>) -> bool {
        match self {
            OpenError::MissingEntry(name) => text == "manifest lists "@ + name@
                + " but archive has no such entry"@,
            OpenError::Parse(e) => exists|inner: Seq<char>|
                #[trigger] e.described_by(inner) && text == "parse: "@ + inner,
        }
    }

    /// Describes the error.
    pub fn message(&self) -> (r: String)
        ensures
            self.described_by(r@),
    {
        match self {
            OpenError::MissingEntry(name) => join(
                join("manifest lists ", name.as_str()).as_str(),
                " but archive has no such entry",
            ),
            OpenError::Parse(e) => {
                let inner: String = e.message();
                join("parse: ", inner.as_str())
            },
        }
    }
}

} // verus!
