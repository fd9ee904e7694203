//! The agency-list aggregate and its decoder: a flat walk over the
//! structural events, collecting one record per `agency` element.

use vstd::prelude::*;

use crate::error::Error;
use crate::events::{
    attr_lookup, attrs_view, collect_events, doc_events, events_view, find_attr, opt_view, Attr, AttrV, Event,
    EventV,
};
use crate::text::eq_str;

verus! {

/// One transit agency, as the agency-list response carries it.
#[derive(Debug, PartialEq)]
pub struct Agency {
    pub tag: String,
    pub title: String,
    pub short_title: Option<String>,
    pub region_title: String,
}

pub ghost struct AgencyV {
    pub tag: Seq<char>,
    pub title: Seq<char>,
    pub short_title: Option<Seq<char>>,
    pub region_title: Seq<char>,
}

impl View for Agency {
    type V = AgencyV;

    open spec fn view(&self) -> AgencyV {
        AgencyV {
            tag: self.tag@,
            title: self.title@,
            short_title: opt_view(self.short_title),
            region_title: self.region_title@,
        }
    }
}

impl Agency {
    pub fn new(tag: String, title: String, short_title: Option<String>, region_title: String) -> (r:
        Agency)
        ensures
            r.tag == tag,
            r.title == title,
            r.short_title == short_title,
            r.region_title == region_title,
    {
        Agency { tag, title, short_title, region_title }
    }
}

/// The decoded agency-list aggregate, in document order.
#[derive(Debug, PartialEq)]
pub struct AgencyList(pub Vec<Agency>);

pub open spec fn agencies_view(s: Seq<Agency>) -> Seq<AgencyV> {
    s.map_values(|a: Agency| a@)
}

impl View for AgencyList {
    type V = Seq<AgencyV>;

    open spec fn view(&self) -> Seq<AgencyV> {
        agencies_view(self.0@)
    }
}

impl AgencyList {
    pub fn new(agencies: Vec<Agency>) -> (r: AgencyList)
        ensures
            r.0 == agencies,
    {
        AgencyList(agencies)
    }
}

/// The agency record of an element's attributes: `tag`, `title` and
/// `regionTitle` are required, `shortTitle` is optional, anything
/// else is ignored.
pub open spec fn agency_of_attrs(attrs: Seq<AttrV>) -> Option<AgencyV> {
    if attr_lookup(attrs, "tag"@) is Some && attr_lookup(attrs, "title"@) is Some && attr_lookup(
        attrs,
        "regionTitle"@,
    ) is Some {
        Some(
            AgencyV {
                tag: attr_lookup(attrs, "tag"@)->0,
                title: attr_lookup(attrs, "title"@)->0,
                short_title: attr_lookup(attrs, "shortTitle"@),
                region_title: attr_lookup(attrs, "regionTitle"@)->0,
            },
        )
    } else {
        None
    }
}

/// The agencies of the event sequence from position `i` on: every
/// `agency` start element contributes one record, a stream error
/// fails the decode, anything else is skipped.
pub open spec fn decode_agencies_from(events: Seq<EventV>, i: int) -> Option<Seq<AgencyV>>
    decreases events.len() - i,
{
    if i < 0 || i >= events.len() {
        Some(Seq::empty())
    } else {
        match events[i] {
            EventV::Start { name, attributes } => {
                if name == "agency"@ {
                    match agency_of_attrs(attributes) {
                        None => None,
                        Some(a) => match decode_agencies_from(events, i + 1) {
                            None => None,
                            Some(rest) => Some(seq![a] + rest),
                        },
                    }
                } else {
                    decode_agencies_from(events, i + 1)
                }
            },
            EventV::SyntaxError => None,
            EventV::DocumentEnd => Some(Seq::empty()),
            _ => decode_agencies_from(events, i + 1),
        }
    }
}

pub open spec fn spec_decode_agencies(events: Seq<EventV>) -> Option<Seq<AgencyV>> {
    decode_agencies_from(events, 0)
}

/// Builds one agency record from an element's attributes.
fn agency_of(attrs: &Vec<Attr>) -> (r: Result<Agency, Error>)
    ensures
        match r {
            Ok(a) => agency_of_attrs(attrs_view(attrs@)) == Some(a@),
            Err(e) => agency_of_attrs(attrs_view(attrs@)) is None && e == Error::ParseError,
        },
{
    let tag = find_attr(attrs, "tag");
    let title = find_attr(attrs, "title");
    let region_title = find_attr(attrs, "regionTitle");
    let short_title = find_attr(attrs, "shortTitle");
    match (tag, title, region_title) {
        (Some(tag), Some(title), Some(region_title)) => Ok(
            Agency { tag, title, short_title, region_title },
        ),
        _ => Err(Error::ParseError),
    }
}

/// Builds a request for the agency list and decodes its response.
/// There is nothing to configure, but the shape matches the other
/// commands' builders.
pub struct AgencyListBuilder;

impl AgencyListBuilder {
    pub fn new() -> AgencyListBuilder {
        AgencyListBuilder
    }

    /// Runs the agency-list command as far as this library reaches:
    /// the command needs no inputs, and the call then reports a
    /// transport failure, because the network transport belongs to
    /// the caller (it owns the fetch and hands the response text to
    /// `from_xml`).
    pub fn get(self) -> (r: Result<AgencyList, Error>)
        ensures
            r matches Err(e) && e matches Error::HttpError(m) && m@
                == "no transport is configured"@,
    {
        Err(Error::HttpError("no transport is configured".to_owned()))
    }

    /// Decodes an agency-list document from its text: the text is
    /// tokenized (leading whitespace stripped, since the feed pads
    /// its documents) and the events are decoded.  The result is
    /// pinned to the decode of the text's own event stream.
    pub fn from_xml(input: &str) -> (r: Result<AgencyList, Error>)
        ensures
            match r {
                Ok(al) => spec_decode_agencies(doc_events(input@)) == Some(al@),
                Err(e) => spec_decode_agencies(doc_events(input@)) is None && e == Error::ParseError,
            },
    {
        let events = collect_events(input);
        Self::decode_events(&events)
    }

    /// Decodes an agency-list document from its structural events.
    #[verifier::loop_isolation(false)]
    pub fn decode_events(events: &Vec<Event>) -> (r: Result<AgencyList, Error>)
        ensures
            match r {
                Ok(al) => spec_decode_agencies(events_view(events@)) == Some(al@),
                Err(e) => spec_decode_agencies(events_view(events@)) is None && e
                    == Error::ParseError,
            },
    {
        let ghost ev = events_view(events@);
        let mut agencies: Vec<Agency> = Vec::new();
        let mut i: usize = 0;
        while i < events.len()
            invariant
                i <= events.len(),
                decode_agencies_from(ev, 0) == match decode_agencies_from(ev, i as int) {
                    None => None::<Seq<AgencyV>>,
                    Some(rest) => Some(agencies_view(agencies@) + rest),
                },
            decreases events.len() - i,
        {
            assert(ev[i as int] == events@[i as int]@);
            match &events[i] {
                Event::Start { name, attributes } => {
                    if eq_str(name, "agency") {
                        match agency_of(attributes) {
                            Ok(a) => {
                                let ghost pre = agencies_view(agencies@);
                                agencies.push(a);
                                proof {
                                    assert(agencies_view(agencies@) =~= pre.push(a@));
                                    if decode_agencies_from(ev, i + 1) is Some {
                                        let rest = decode_agencies_from(ev, i + 1)->0;
                                        assert(pre + (seq![a@] + rest) =~= pre.push(a@) + rest);
                                    }
                                }
                            },
                            Err(_) => {
                                return Err(Error::ParseError);
                            },
                        }
                    }
                },
                Event::SyntaxError => {
                    return Err(Error::ParseError);
                },
                Event::DocumentEnd => {
                    proof {
                        assert(decode_agencies_from(ev, i as int) == Some(Seq::<AgencyV>::empty()));
                        assert(agencies_view(agencies@) + Seq::<AgencyV>::empty() =~= agencies_view(
                            agencies@,
                        ));
                    }
                    return Ok(AgencyList(agencies));
                },
                _ => {},
            }
            i = i + 1;
        }
        proof {
            assert(decode_agencies_from(ev, i as int) == Some(Seq::<AgencyV>::empty()));
            assert(agencies_view(agencies@) + Seq::<AgencyV>::empty() =~= agencies_view(agencies@));
        }
        Ok(AgencyList(agencies))
    }
}

/// Decoding is a pure function of the event sequence: equal event
/// streams always yield the same aggregate, with no hidden state
/// entering the decode.
pub proof fn lemma_decode_agencies_deterministic(e1: Seq<EventV>, e2: Seq<EventV>)
    requires
        e1 == e2,
    ensures
        spec_decode_agencies(e1) == spec_decode_agencies(e2),
{
}

} // verus!
