//! The events of an XML document, as `quick_xml` hands them out, and the
//! attributes of its tags.
use crate::ParseError;
use crate::decimal::{parse_number, written_number};
use crate::number::{at_most, is_finite, zero, Num};
use crate::text::{
    parse_bool, parse_i32, parse_u32, same_bytes, split_words, words, written_bool, written_i32,
    written_u32,
};
use quick_xml::events::Event::{CData, Empty, End, Eof, GeneralRef, PI, Start, Text};
use vstd::prelude::*;
use vstd::utf8::{decode_utf8, encode_utf8, valid_utf8};

verus! {

/// An opening or self-closing tag: its name, and the key and value of each
/// attribute as they stand in the source. A malformed attribute keeps its place
/// as `None`.
#[derive(Debug)]
pub struct Tag {
    pub name: Vec<u8>,
    pub attributes: Vec<Option<(Vec<u8>, Vec<u8>)>>,
    /// Whether the tag closes itself.
    pub empty: bool,
}

/// One event of a document.
#[derive(Debug)]
pub enum XmlEvent {
    /// An opening or self-closing tag.
    Open(Tag),
    /// A closing tag, by its name.
    End(Vec<u8>),
    /// Character data, not decoded.
    Text(Vec<u8>),
    /// The content of a `CDATA` section.
    CData(Vec<u8>),
    /// The name of a character or entity reference.
    Reference(Vec<u8>),
    /// The content of a processing instruction.
    Instruction(Vec<u8>),
    /// A comment or a declaration.
    Other,
    /// The end of the document.
    Eof,
}

/// What a [`Tag`] holds.
pub struct TagView {
    pub name: Seq<u8>,
    pub attributes: Seq<Option<(Seq<u8>, Seq<u8>)>>,
    pub empty: bool,
}

/// What an [`XmlEvent`] holds.
pub enum EventView {
    Open(TagView),
    End(Seq<u8>),
    Text(Seq<u8>),
    CData(Seq<u8>),
    Reference(Seq<u8>),
    Instruction(Seq<u8>),
    Other,
    Eof,
}

impl View for Tag {
    type V = TagView;

    open spec fn view(&self) -> TagView {
        TagView { name: self.name@, attributes: self.attributes.deep_view(), empty: self.empty }
    }
}

impl DeepView for XmlEvent {
    type V = EventView;

    open spec fn deep_view(&self) -> EventView {
        match self {
            XmlEvent::Open(tag) => EventView::Open(tag@),
            XmlEvent::End(name) => EventView::End(name@),
            XmlEvent::Text(raw) => EventView::Text(raw@),
            XmlEvent::CData(raw) => EventView::CData(raw@),
            XmlEvent::Reference(raw) => EventView::Reference(raw@),
            XmlEvent::Instruction(raw) => EventView::Instruction(raw@),
            XmlEvent::Other => EventView::Other,
            XmlEvent::Eof => EventView::Eof,
        }
    }
}

/// `quick_xml::Reader`, which hands out the events of a document one by one.
#[verifier::external_type_specification]
#[verifier::external_body]
#[verifier::reject_recursive_types(R)]
pub struct ExReader<R>(quick_xml::Reader<R>);

/// `quick_xml::Error`, carried along as it is.
#[verifier::external_type_specification]
#[verifier::external_body]
pub struct ExXmlError(quick_xml::Error);

/// What a reader has still to hand out, up to and with the end of the document
/// or the first error, which stands as `None`.
pub uninterp spec fn pending(reader: quick_xml::Reader<&[u8]>) -> Seq<Option<EventView>>;

/// All that a fresh reader of `xml` hands out; `trim` is its `trim_text` setting.
pub uninterp spec fn xml_outcomes(xml: Seq<u8>, trim: bool) -> Seq<Option<EventView>>;

/// Whether a reader stops at this outcome.
pub open spec fn is_stop(outcome: Option<EventView>) -> bool {
    outcome is None || outcome == Some(EventView::Eof)
}

/// Whether the outcomes end in a stop.
pub open spec fn ends_in_stop(outcomes: Seq<Option<EventView>>) -> bool {
    outcomes.len() > 0 && is_stop(outcomes.last())
}

/// `quick_xml::Reader::from_reader` and `Config::trim_text`: a reader that
/// stands before the first event of `xml`. Reading such a slice comes to an end:
/// every call moves on in it until the end of the document or an error.
#[verifier::external_body]
fn open_reader<'a>(xml: &'a [u8], trim: bool) -> (r: quick_xml::Reader<&'a [u8]>)
    ensures
        pending(r) == xml_outcomes(xml@, trim),
        ends_in_stop(pending(r)),
{
    let mut reader = quick_xml::Reader::from_reader(xml);
    reader.config_mut().trim_text(trim);
    reader
}

/// `quick_xml::Reader::read_event_into`: takes the next outcome off those still
/// to come. A tag is handed over with `BytesStart::name` and
/// `BytesStart::attributes`, other events with their bytes. What is left in `buf`
/// is left open.
#[verifier::external_body]
fn next_event(reader: &mut quick_xml::Reader<&[u8]>, buf: &mut Vec<u8>) -> (r: Result<
    XmlEvent,
    quick_xml::Error,
>)
    requires
        pending(*old(reader)).len() > 0,
    ensures
        pending(*final(reader)) == pending(*old(reader)).skip(1),
        match r {
            Ok(event) => pending(*old(reader))[0] == Some(event.deep_view()),
            Err(_) => pending(*old(reader))[0] is None,
        },
{
    let event = reader.read_event_into(buf)?;
    let raw = event.to_vec();
    let empty = matches!(event, Empty(_));
    Ok(match event {
        Start(e) | Empty(e) => XmlEvent::Open(Tag { name: e.name().0.to_vec(),
            attributes: e.attributes().map(|a| a.ok().map(|a| (a.key.0.to_vec(),
                a.value.to_vec()))).collect(), empty }),
        End(_) => XmlEvent::End(raw),
        Text(_) => XmlEvent::Text(raw),
        CData(_) => XmlEvent::CData(raw),
        GeneralRef(_) => XmlEvent::Reference(raw),
        PI(_) => XmlEvent::Instruction(raw),
        Eof => XmlEvent::Eof,
        _ => XmlEvent::Other,
    })
}

/// The events of `outcomes` before they stop, or `None` where an error stops
/// them.
pub open spec fn events_of(outcomes: Seq<Option<EventView>>) -> Option<Seq<EventView>>
    decreases outcomes.len(),
{
    if outcomes.len() == 0 || outcomes[0] is None {
        None
    } else if outcomes[0] == Some(EventView::Eof) {
        Some(Seq::empty())
    } else {
        match events_of(outcomes.skip(1)) {
            None => None,
            Some(rest) => Some(seq![outcomes[0]->Some_0] + rest),
        }
    }
}

/// The events of the document `xml`, or `None` where it is malformed.
pub open spec fn xml_events(xml: Seq<u8>, trim: bool) -> Option<Seq<EventView>> {
    events_of(xml_outcomes(xml, trim))
}

/// Reads the document `xml` to its end.
pub fn read_events(xml: &[u8], trim: bool) -> (r: Result<Vec<XmlEvent>, ParseError>)
    ensures
        match r {
            Ok(events) => xml_events(xml@, trim) == Some(events.deep_view()),
            Err(e) => e is Xml && xml_events(xml@, trim) is None,
        },
{
    let mut reader = open_reader(xml, trim);
    let ghost all = pending(reader);
    let mut events: Vec<XmlEvent> = Vec::new();
    loop
        invariant
            ends_in_stop(pending(reader)),
            events_of(all) == (match events_of(pending(reader)) {
                None => None::<Seq<EventView>>,
                Some(rest) => Some(events.deep_view() + rest),
            }),
            all == xml_outcomes(xml@, trim),
        decreases pending(reader).len(),
    {
        let ghost before = pending(reader);
        let mut buf: Vec<u8> = Vec::new();
        match next_event(&mut reader, &mut buf) {
            Err(e) => {
                return Err(ParseError::Xml(e));
            },
            Ok(event) => {
                if let XmlEvent::Eof = event {
                    assert(events.deep_view() + Seq::<EventView>::empty() =~= events.deep_view());
                    return Ok(events);
                }
                let ghost seen = events.deep_view();
                let ghost item = event.deep_view();
                events.push(event);
                proof {
                    assert(events.deep_view() =~= seen.push(item));
                    assert(before.len() > 1);
                    assert(pending(reader).last() == before.last());
                    match events_of(pending(reader)) {
                        None => {},
                        Some(rest) => {
                            assert(seen + (seq![item] + rest) =~= seen.push(item) + rest);
                        },
                    }
                }
            },
        }
    }
}

/// `std::str::from_utf8`: the text that `bytes` encode, where they are UTF-8.
#[verifier::external_body]
pub(crate) fn utf8_text(bytes: &[u8]) -> (r: Option<String>)
    ensures
        match r {
            Some(s) => valid_utf8(bytes@) && s@ == decode_utf8(bytes@),
            None => !valid_utf8(bytes@),
        },
{
    std::str::from_utf8(bytes).ok().map(|s| s.to_string())
}

/// The text that `bytes` encode, where they are UTF-8.
pub open spec fn decoded(bytes: Seq<u8>) -> Option<Seq<char>> {
    if valid_utf8(bytes) {
        Some(decode_utf8(bytes))
    } else {
        None
    }
}

/// An attribute value with its references resolved and its white space made
/// blanks, or `None` where it cannot be.
pub uninterp spec fn normalized_attribute(value: Seq<u8>) -> Option<Seq<char>>;

/// `quick_xml::events::attributes::Attribute::normalized_value`, for XML 1.0: a
/// function of the value's bytes alone.
#[verifier::external_body]
fn normalize_attribute(value: &[u8]) -> (r: Option<String>)
    ensures
        r.deep_view() == normalized_attribute(value@),
{
    quick_xml::events::attributes::Attribute::from((&b""[..], value)).normalized_value(
        quick_xml::XmlVersion::Implicit1_0,
    ).ok().map(|v| v.into_owned())
}

/// `s` with every line end made a line feed: a carriage return, with a line feed
/// behind it or without.
pub open spec fn unified_lines(s: Seq<char>) -> Seq<char>
    decreases s.len(),
{
    if s.len() == 0 {
        s
    } else if s[0] != '\r' {
        seq![s[0]] + unified_lines(s.skip(1))
    } else if s.len() > 1 && s[1] == '\n' {
        seq!['\n'] + unified_lines(s.skip(2))
    } else {
        seq!['\n'] + unified_lines(s.skip(1))
    }
}

/// `quick_xml::events::BytesText::xml_content`, for XML 1.0: on text that is
/// already decoded it never fails, and only makes every line end a line feed.
#[verifier::external_body]
fn unify_lines(s: &str) -> (r: String)
    ensures
        r@ == unified_lines(s@),
{
    quick_xml::events::BytesText::from_escaped(s).xml_content(
        quick_xml::XmlVersion::Implicit1_0,
    ).unwrap_or_default().into_owned()
}

/// Character data as text: decoded, with its line ends made line feeds; nothing
/// where it is not UTF-8.
pub open spec fn text_content(raw: Seq<u8>) -> Seq<char> {
    match decoded(raw) {
        None => Seq::empty(),
        Some(s) => unified_lines(s),
    }
}

/// Reads character data as text.
pub fn read_text(raw: &[u8]) -> (r: String)
    ensures
        r@ == text_content(raw@),
{
    match utf8_text(raw) {
        None => String::new(),
        Some(s) => unify_lines(s.as_str()),
    }
}

/// The value of the first well-formed attribute with this key.
pub open spec fn first_value(
    attributes: Seq<Option<(Seq<u8>, Seq<u8>)>>,
    key: Seq<u8>,
) -> Option<Seq<u8>>
    decreases attributes.len(),
{
    if attributes.len() == 0 {
        None
    } else {
        match attributes[0] {
            Some((k, value)) if k == key => Some(value),
            _ => first_value(attributes.skip(1), key),
        }
    }
}

/// Whether the raw name `name` is `wanted`.
pub fn name_is(name: &Vec<u8>, wanted: &str) -> (r: bool)
    ensures
        r == (name@ == encode_utf8(wanted@)),
{
    same_bytes(name.as_slice(), wanted.as_bytes())
}

impl TagView {
    /// Whether the tag's name is `name`.
    pub open spec fn is(self, name: Seq<char>) -> bool {
        self.name == encode_utf8(name)
    }

    /// The raw value of the attribute `key`.
    pub open spec fn raw(self, key: Seq<char>) -> Option<Seq<u8>> {
        first_value(self.attributes, encode_utf8(key))
    }

    /// The attribute `key`, where it is there and is UTF-8; nothing unescaped.
    pub open spec fn text(self, key: Seq<char>) -> Option<Seq<char>> {
        match self.raw(key) {
            None => None,
            Some(value) => decoded(value),
        }
    }

    /// The attribute `key` with its references resolved.
    pub open spec fn unescaped(self, key: Seq<char>) -> Option<Seq<char>> {
        match self.raw(key) {
            None => None,
            Some(value) => normalized_attribute(value),
        }
    }

    /// The words of the attribute `key`; none where it is missing.
    pub open spec fn list(self, key: Seq<char>) -> Seq<Seq<char>> {
        match self.text(key) {
            None => Seq::empty(),
            Some(s) => words(s, false),
        }
    }

    /// The attribute `key` read as a number.
    pub open spec fn num(self, key: Seq<char>) -> Option<Num> {
        match self.text(key) {
            None => None,
            Some(s) => written_number(s),
        }
    }

    /// The attribute `key` read as a finite number.
    pub open spec fn finite(self, key: Seq<char>) -> Option<Num> {
        match self.num(key) {
            Some(n) if is_finite(n) => Some(n),
            _ => None,
        }
    }

    /// The attribute `key` read as a tint: a number from 0 to 100, anything
    /// else standing for no tint.
    pub open spec fn tint(self, key: Seq<char>) -> Option<Num> {
        match self.num(key) {
            Some(n) if at_most(zero(), n) && at_most(n, hundred()) => Some(n),
            _ => None,
        }
    }

    /// The attribute `key` read as a truth value.
    pub open spec fn flag(self, key: Seq<char>) -> Option<bool> {
        match self.text(key) {
            None => None,
            Some(s) => written_bool(s),
        }
    }

    /// The attribute `key` read as a whole number that is not negative.
    pub open spec fn count(self, key: Seq<char>) -> Option<u32> {
        match self.text(key) {
            None => None,
            Some(s) => written_u32(s),
        }
    }

    /// The attribute `key` read as a whole number.
    pub open spec fn integer(self, key: Seq<char>) -> Option<i32> {
        match self.text(key) {
            None => None,
            Some(s) => written_i32(s),
        }
    }
}

/// One hundred.
pub open spec fn hundred() -> Num {
    Num { bits: 0x42c8_0000 }
}

impl Tag {
    /// Whether the tag's name is `name`.
    pub fn is(&self, name: &str) -> (r: bool)
        ensures
            r == self@.is(name@),
    {
        same_bytes(self.name.as_slice(), name.as_bytes())
    }

    /// Where the first well-formed attribute with this key stands.
    fn find(&self, key: &str) -> (r: Option<usize>)
        ensures
            match r {
                Some(i) => i < self.attributes@.len() && self.attributes@[i as int] is Some
                    && self@.raw(key@) == Some(self.attributes@[i as int]->Some_0.1@),
                None => self@.raw(key@) is None,
            },
    {
        let wanted = key.as_bytes();
        let ghost all = self.attributes.deep_view();
        let mut i: usize = 0;
        assert(all.skip(0) =~= all);
        while i < self.attributes.len()
            invariant
                i <= self.attributes@.len(),
                all == self.attributes.deep_view(),
                wanted@ == encode_utf8(key@),
                self@.raw(key@) == first_value(all.skip(i as int), wanted@),
            decreases self.attributes@.len() - i,
        {
            assert(all.skip(i as int)[0] == self.attributes@[i as int].deep_view());
            assert(all.skip(i as int).skip(1) =~= all.skip(i + 1));
            if let Some(pair) = &self.attributes[i] {
                if same_bytes(pair.0.as_slice(), wanted) {
                    assert(pair.deep_view().0 =~= pair.0@);
                    assert(pair.deep_view().1 =~= pair.1@);
                    return Some(i);
                }
                assert(pair.deep_view().0 =~= pair.0@);
            }
            i = i + 1;
        }
        None
    }

    /// The attribute `key`, where it is there and is UTF-8; nothing unescaped.
    pub fn text(&self, key: &str) -> (r: Option<String>)
        ensures
            r.deep_view() == self@.text(key@),
    {
        match self.find(key) {
            None => None,
            Some(i) => match &self.attributes[i] {
                None => None,
                Some(pair) => utf8_text(pair.1.as_slice()),
            },
        }
    }

    /// The attribute `key` with its references resolved.
    pub fn unescaped(&self, key: &str) -> (r: Option<String>)
        ensures
            r.deep_view() == self@.unescaped(key@),
    {
        match self.find(key) {
            None => None,
            Some(i) => match &self.attributes[i] {
                None => None,
                Some(pair) => normalize_attribute(pair.1.as_slice()),
            },
        }
    }

    /// The words of the attribute `key`; none where it is missing.
    pub fn list(&self, key: &str) -> (r: Vec<String>)
        ensures
            r.deep_view() == self@.list(key@),
    {
        match self.text(key) {
            None => {
                let r: Vec<String> = Vec::new();
                assert(r.deep_view() =~= Seq::<Seq<char>>::empty());
                r
            },
            Some(s) => split_words(s.as_str(), false),
        }
    }

    /// The attribute `key` read as a number.
    pub fn num(&self, key: &str) -> (r: Option<Num>)
        ensures
            r == self@.num(key@),
    {
        match self.text(key) {
            None => None,
            Some(s) => parse_number(s.as_str()),
        }
    }

    /// The attribute `key` read as a finite number.
    pub fn finite(&self, key: &str) -> (r: Option<Num>)
        ensures
            r == self@.finite(key@),
    {
        match self.num(key) {
            None => None,
            Some(n) => if n.is_finite() {
                Some(n)
            } else {
                None
            },
        }
    }

    /// The attribute `key` read as a tint: a number from 0 to 100, anything
    /// else standing for no tint.
    pub fn tint(&self, key: &str) -> (r: Option<Num>)
        ensures
            r == self@.tint(key@),
    {
        match self.num(key) {
            None => None,
            Some(n) => {
                let top = Num { bits: 0x42c8_0000 };
                if Num::zero().at_most(n) && n.at_most(top) {
                    Some(n)
                } else {
                    None
                }
            },
        }
    }

    /// The attribute `key` read as a truth value.
    pub fn flag(&self, key: &str) -> (r: Option<bool>)
        ensures
            r == self@.flag(key@),
    {
        match self.text(key) {
            None => None,
            Some(s) => parse_bool(s.as_str()),
        }
    }

    /// The attribute `key` read as a whole number that is not negative.
    pub fn count(&self, key: &str) -> (r: Option<u32>)
        ensures
            r == self@.count(key@),
    {
        match self.text(key) {
            None => None,
            Some(s) => parse_u32(s.as_str()),
        }
    }

    /// The attribute `key` read as a whole number.
    pub fn integer(&self, key: &str) -> (r: Option<i32>)
        ensures
            r == self@.integer(key@),
    {
        match self.text(key) {
            None => None,
            Some(s) => parse_i32(s.as_str()),
        }
    }
}

/// Two names that are written differently are different.
pub proof fn law_names_differ(a: Seq<char>, b: Seq<char>)
    requires
        a != b,
    ensures
        encode_utf8(a) != encode_utf8(b),
{
    broadcast use vstd::utf8::encode_utf8_decode_utf8;

    if encode_utf8(a) == encode_utf8(b) {
        assert(decode_utf8(encode_utf8(a)) == decode_utf8(encode_utf8(b)));
    }
}

} // verus!
