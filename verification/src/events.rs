//! The structural events that the hierarchical decoder consumes: a
//! flat, single-pass sequence of element starts (with their
//! attributes), element ends, and ignorable units, ended early by a
//! syntax error where the underlying stream reports one.
//!
//! The events are read from the `xml` crate's pull parser through
//! trusted wrappers; everything downstream of the wrappers works on
//! these plain values and is verified against them.

use vstd::prelude::*;

use crate::error::Error;
use crate::text::{
    check_numeric, eq_str, is_numeric_text, parse_bool, parse_usize, spec_parse_bool,
    spec_parse_usize,
    spec_ws_end, trim_leading,
};

verus! {

/// One attribute of an element start, local name and value.
pub struct Attr {
    pub name: String,
    pub value: String,
}

pub ghost struct AttrV {
    pub name: Seq<char>,
    pub value: Seq<char>,
}

impl View for Attr {
    type V = AttrV;

    open spec fn view(&self) -> AttrV {
        AttrV { name: self.name@, value: self.value@ }
    }
}

/// One structural event of a response stream.
pub enum Event {
    /// An element start, with its local name and its attributes.
    Start { name: String, attributes: Vec<Attr> },
    /// An element end, with its local name.
    End { name: String },
    /// The end of the document; the tokenizer reports nothing after it.
    DocumentEnd,
    /// Anything else: character data, whitespace, comments.
    Other,
    /// A syntax error reported by the underlying stream.
    SyntaxError,
}

pub ghost enum EventV {
    Start { name: Seq<char>, attributes: Seq<AttrV> },
    End { name: Seq<char> },
    DocumentEnd,
    Other,
    SyntaxError,
}

impl View for Event {
    type V = EventV;

    open spec fn view(&self) -> EventV {
        match self {
            Event::Start { name, attributes } => EventV::Start {
                name: name@,
                attributes: attributes@.map_values(|a: Attr| a@),
            },
            Event::End { name } => EventV::End { name: name@ },
            Event::DocumentEnd => EventV::DocumentEnd,
            Event::Other => EventV::Other,
            Event::SyntaxError => EventV::SyntaxError,
        }
    }
}

pub open spec fn events_view(s: Seq<Event>) -> Seq<EventV> {
    s.map_values(|e: Event| e@)
}

pub open spec fn opt_view(o: Option<String>) -> Option<Seq<char>> {
    match o {
        Some(s) => Some(s@),
        None => None,
    }
}

/// The value of the last attribute with the given name, if any: when
/// a name repeats, the later occurrence wins, as it does when the
/// attribute walk overwrites its scratch record in order.
pub open spec fn attr_lookup(attrs: Seq<AttrV>, key: Seq<char>) -> Option<Seq<char>>
    decreases attrs.len(),
{
    if attrs.len() == 0 {
        None
    } else if attrs.last().name == key {
        Some(attrs.last().value)
    } else {
        attr_lookup(attrs.drop_last(), key)
    }
}

pub open spec fn attrs_view(attrs: Seq<Attr>) -> Seq<AttrV> {
    attrs.map_values(|a: Attr| a@)
}

/// Finds the winning occurrence of an attribute by name.
pub fn find_attr(attrs: &Vec<Attr>, key: &str) -> (r: Option<String>)
    ensures
        opt_view(r) == attr_lookup(attrs_view(attrs@), key@),
{
    let mut i: usize = attrs.len();
    assert(attrs_view(attrs@).take(i as int) =~= attrs_view(attrs@));
    while i > 0
        invariant
            i <= attrs.len(),
            attr_lookup(attrs_view(attrs@), key@) == attr_lookup(
                attrs_view(attrs@).take(i as int),
                key@,
            ),
        decreases i,
    {
        i = i - 1;
        if eq_str(&attrs[i].name, key) {
            assert(attrs_view(attrs@).take(i as int + 1).last() == attrs@[i as int]@);
            return Some(attrs[i].value.clone());
        }
        assert(attrs_view(attrs@).take(i as int + 1).drop_last() =~= attrs_view(attrs@).take(
            i as int,
        ));
    }
    assert(attrs_view(attrs@).take(0) =~= Seq::<AttrV>::empty());
    None
}

/// A required attribute parsed as a number.
pub open spec fn req_usize(attrs: Seq<AttrV>, key: Seq<char>) -> Option<usize> {
    match attr_lookup(attrs, key) {
        None => None,
        Some(v) => spec_parse_usize(v),
    }
}

/// A required attribute parsed as a boolean.
pub open spec fn req_bool(attrs: Seq<AttrV>, key: Seq<char>) -> Option<bool> {
    match attr_lookup(attrs, key) {
        None => None,
        Some(v) => spec_parse_bool(v),
    }
}

/// An optional boolean attribute: absent is fine, present it must
/// parse, and a malformed value fails the record.
pub open spec fn opt_bool_attr(attrs: Seq<AttrV>, key: Seq<char>) -> Option<Option<bool>> {
    match attr_lookup(attrs, key) {
        None => Some(None),
        Some(v) => match spec_parse_bool(v) {
            None => None,
            Some(b) => Some(Some(b)),
        },
    }
}

/// A required boolean attribute.
pub fn req_bool_of(attrs: &Vec<Attr>, key: &str) -> (r: Result<bool, Error>)
    ensures
        match r {
            Ok(b) => req_bool(attrs_view(attrs@), key@) == Some(b),
            Err(e) => req_bool(attrs_view(attrs@), key@) is None && e == Error::ParseError,
        },
{
    match find_attr(attrs, key) {
        None => Err(Error::ParseError),
        Some(v) => match parse_bool(v.as_str()) {
            Some(b) => Ok(b),
            None => Err(Error::ParseError),
        },
    }
}

/// A required numeric attribute.
pub fn req_usize_of(attrs: &Vec<Attr>, key: &str) -> (r: Result<usize, Error>)
    ensures
        match r {
            Ok(n) => req_usize(attrs_view(attrs@), key@) == Some(n),
            Err(e) => req_usize(attrs_view(attrs@), key@) is None && e == Error::ParseError,
        },
{
    match find_attr(attrs, key) {
        None => Err(Error::ParseError),
        Some(v) => match parse_usize(v.as_str()) {
            Some(n) => Ok(n),
            None => Err(Error::ParseError),
        },
    }
}

/// An optional boolean attribute, failing only on a malformed value.
pub fn opt_bool_of(attrs: &Vec<Attr>, key: &str) -> (r: Result<Option<bool>, Error>)
    ensures
        match r {
            Ok(o) => opt_bool_attr(attrs_view(attrs@), key@) == Some(o),
            Err(e) => opt_bool_attr(attrs_view(attrs@), key@) is None && e == Error::ParseError,
        },
{
    match find_attr(attrs, key) {
        None => Ok(None),
        Some(v) => match parse_bool(v.as_str()) {
            Some(b) => Ok(Some(b)),
            None => Err(Error::ParseError),
        },
    }
}

pub open spec fn override_opt(newer: Option<Seq<char>>, older: Option<Seq<char>>) -> Option<
    Seq<char>,
> {
    match newer {
        Some(v) => Some(v),
        None => older,
    }
}

/// A required attribute that must be well-formed numeric text.
pub open spec fn req_numeric(attrs: Seq<AttrV>, key: Seq<char>) -> Option<Seq<char>> {
    match attr_lookup(attrs, key) {
        None => None,
        Some(v) => if is_numeric_text(v) {
            Some(v)
        } else {
            None
        },
    }
}

/// A required numeric attribute, kept as its validated text.
pub fn req_numeric_of(attrs: &Vec<Attr>, key: &str) -> (r: Result<String, Error>)
    ensures
        match r {
            Ok(v) => req_numeric(attrs_view(attrs@), key@) == Some(v@),
            Err(e) => req_numeric(attrs_view(attrs@), key@) is None && e == Error::ParseError,
        },
{
    match find_attr(attrs, key) {
        None => Err(Error::ParseError),
        Some(v) => if check_numeric(v.as_str()) {
            Ok(v)
        } else {
            Err(Error::ParseError)
        },
    }
}

/// The structural events that the tokenizer produces for a document
/// text.  Tokenization is a pure function of the text: the `xml`
/// crate parses the bytes deterministically, so the same text gives
/// the same events in every process and on every machine.  The
/// sequence this names is the one `tokenize` returns: every event up
/// to, but not including, the document end, with a reported syntax
/// error kept as a final `SyntaxError` event.
pub uninterp spec fn events_of(text: Seq<char>) -> Seq<EventV>;

/// The events the decoders consume for a document text: the text is
/// tokenized after its leading whitespace.  The tokenizer refuses a
/// document whose XML declaration is not at the very first byte,
/// while response texts commonly arrive padded with a newline and
/// indentation, so the padding does not count.
pub open spec fn doc_events(text: Seq<char>) -> Seq<EventV> {
    events_of(text.skip(spec_ws_end(text, 0)))
}

/// Holds the `xml` crate's pull parser over the bytes of one
/// document.  The parser's type cannot be declared to the verifier
/// (its generic parameter carries an `std::io::Read` bound), so this
/// struct keeps it behind an opaque field.
#[verifier::external_body]
struct Reader<'a> {
    inner: xml::reader::EventReader<&'a [u8]>,
}

/// Relies on `xml::reader::EventReader::new`: wraps a byte source in
/// a pull parser positioned before the first event.
#[verifier::external_body]
fn new_reader<'a>(input: &'a [u8]) -> Reader<'a> {
    Reader { inner: xml::reader::EventReader::new(input) }
}

/// Relies on `xml::reader::EventReader::next`: pulls the next event
/// of the stream, converting the returned outcome one arm per
/// variant and moving the local names and attribute pairs.  After an
/// error or the document end the reader only repeats that outcome.
/// One pull's result depends on the reader's position, so nothing is
/// promised here; `tokenize` drives the reader over the whole stream
/// and carries the stream's name.
#[verifier::external_body]
fn next_event(reader: &mut Reader<'_>) -> (e: Event) {
    match reader.inner.next() {
        Ok(xml::reader::XmlEvent::StartElement { name, attributes, .. }) => Event::Start {
            name: name.local_name,
            attributes: attributes
                .into_iter()
                .map(|a| Attr { name: a.name.local_name, value: a.value })
                .collect(),
        },
        Ok(xml::reader::XmlEvent::EndElement { name }) => Event::End { name: name.local_name },
        Ok(xml::reader::XmlEvent::EndDocument) => Event::DocumentEnd,
        Ok(_) => Event::Other,
        Err(_) => Event::SyntaxError,
    }
}

/// Relies on `xml::reader::EventReader::new` and
/// `xml::reader::EventReader::next`, through the two wrappers above:
/// reads the whole event stream of one document, in order, stopping
/// at the document end; a reported syntax error ends the stream as a
/// final `SyntaxError` event.  The stream is a function of the text
/// alone (the parser reads the bytes deterministically), and this
/// function returns all of it, so its result carries the name
/// `events_of`.
#[verifier::external_body]
pub fn tokenize(input: &str) -> (r: Vec<Event>)
    ensures
        events_view(r@) == events_of(input@),
{
    let mut reader = new_reader(input.as_bytes());
    let mut events: Vec<Event> = Vec::new();
    loop {
        match next_event(&mut reader) {
            Event::DocumentEnd => return events,
            Event::SyntaxError => {
                events.push(Event::SyntaxError);
                return events;
            },
            e => events.push(e),
        }
    }
}

/// Tokenizes a document text as the decoders consume it: leading
/// whitespace stripped, then the whole event stream.
pub fn collect_events(input: &str) -> (r: Vec<Event>)
    ensures
        events_view(r@) == doc_events(input@),
{
    tokenize(trim_leading(input))
}

} // verus!
