//! The route-list aggregate and its decoder: a flat walk over the
//! structural events, collecting one stub record per `route` element.

use vstd::prelude::*;

use crate::error::Error;
use crate::events::{
    attr_lookup, attrs_view, collect_events, doc_events, events_view, find_attr, opt_view, Attr, AttrV, Event,
    EventV,
};
use crate::text::eq_str;

verus! {

/// One route stub, as the route-list response carries it.
#[derive(Debug, PartialEq)]
pub struct Route {
    pub tag: String,
    pub title: String,
    pub short_title: Option<String>,
}

pub ghost struct RouteV {
    pub tag: Seq<char>,
    pub title: Seq<char>,
    pub short_title: Option<Seq<char>>,
}

impl View for Route {
    type V = RouteV;

    open spec fn view(&self) -> RouteV {
        RouteV { tag: self.tag@, title: self.title@, short_title: opt_view(self.short_title) }
    }
}

impl Route {
    pub fn new(tag: String, title: String, short_title: Option<String>) -> (r: Route)
        ensures
            r.tag == tag,
            r.title == title,
            r.short_title == short_title,
    {
        Route { tag, title, short_title }
    }
}

/// The decoded route-list aggregate, in document order.
#[derive(Debug, PartialEq)]
pub struct RouteList(pub Vec<Route>);

pub open spec fn routes_view(s: Seq<Route>) -> Seq<RouteV> {
    s.map_values(|r: Route| r@)
}

impl View for RouteList {
    type V = Seq<RouteV>;

    open spec fn view(&self) -> Seq<RouteV> {
        routes_view(self.0@)
    }
}

impl RouteList {
    pub fn new(routes: Vec<Route>) -> (r: RouteList)
        ensures
            r.0 == routes,
    {
        RouteList(routes)
    }
}

/// The route stub of an element's attributes: `tag` and `title` are
/// required, `shortTitle` is optional, anything else is ignored.
pub open spec fn route_of_attrs(attrs: Seq<AttrV>) -> Option<RouteV> {
    if attr_lookup(attrs, "tag"@) is Some && attr_lookup(attrs, "title"@) is Some {
        Some(
            RouteV {
                tag: attr_lookup(attrs, "tag"@)->0,
                title: attr_lookup(attrs, "title"@)->0,
                short_title: attr_lookup(attrs, "shortTitle"@),
            },
        )
    } else {
        None
    }
}

/// The route stubs of the event sequence from position `i` on.
pub open spec fn decode_routes_from(events: Seq<EventV>, i: int) -> Option<Seq<RouteV>>
    decreases events.len() - i,
{
    if i < 0 || i >= events.len() {
        Some(Seq::empty())
    } else {
        match events[i] {
            EventV::Start { name, attributes } => {
                if name == "route"@ {
                    match route_of_attrs(attributes) {
                        None => None,
                        Some(r) => match decode_routes_from(events, i + 1) {
                            None => None,
                            Some(rest) => Some(seq![r] + rest),
                        },
                    }
                } else {
                    decode_routes_from(events, i + 1)
                }
            },
            EventV::SyntaxError => None,
            EventV::DocumentEnd => Some(Seq::empty()),
            _ => decode_routes_from(events, i + 1),
        }
    }
}

pub open spec fn spec_decode_routes(events: Seq<EventV>) -> Option<Seq<RouteV>> {
    decode_routes_from(events, 0)
}

/// Builds one route stub from an element's attributes.
fn route_of(attrs: &Vec<Attr>) -> (r: Result<Route, Error>)
    ensures
        match r {
            Ok(rt) => route_of_attrs(attrs_view(attrs@)) == Some(rt@),
            Err(e) => route_of_attrs(attrs_view(attrs@)) is None && e == Error::ParseError,
        },
{
    let tag = find_attr(attrs, "tag");
    let title = find_attr(attrs, "title");
    let short_title = find_attr(attrs, "shortTitle");
    match (tag, title) {
        (Some(tag), Some(title)) => Ok(Route { tag, title, short_title }),
        _ => Err(Error::ParseError),
    }
}

/// Builds a request for one agency's route list and decodes its
/// response.
pub struct RouteListBuilder {
    pub agency: Option<String>,
}

impl RouteListBuilder {
    pub fn new() -> (r: RouteListBuilder)
        ensures
            r.agency is None,
    {
        RouteListBuilder { agency: None }
    }

    /// Chooses the agency.  The last invocation wins.
    pub fn agency(self, agency: String) -> (r: RouteListBuilder)
        ensures
            r.agency == Some(agency),
    {
        RouteListBuilder { agency: Some(agency) }
    }

    /// Runs the route-list command as far as this library reaches:
    /// the required agency is checked first, and the call then
    /// reports a transport failure, because the network transport
    /// belongs to the caller (it owns the fetch and hands the
    /// response text to `from_xml`).
    pub fn get(&self) -> (r: Result<RouteList, Error>)
        ensures
            self.agency is None ==> r == Err::<RouteList, Error>(Error::BuildCommandError),
            self.agency is Some ==> (r matches Err(e) && e matches Error::HttpError(m) && m@
                == "no transport is configured"@),
    {
        if self.agency.is_none() {
            return Err(Error::BuildCommandError);
        }
        Err(Error::HttpError("no transport is configured".to_owned()))
    }

    /// Decodes a route-list document from its text: the text is
    /// tokenized (leading whitespace stripped, since the feed pads
    /// its documents) and the events are decoded.  The result is
    /// pinned to the decode of the text's own event stream.
    pub fn from_xml(input: &str) -> (r: Result<RouteList, Error>)
        ensures
            match r {
                Ok(rl) => spec_decode_routes(doc_events(input@)) == Some(rl@),
                Err(e) => spec_decode_routes(doc_events(input@)) is None && e == Error::ParseError,
            },
    {
        let events = collect_events(input);
        Self::decode_events(&events)
    }

    /// Decodes a route-list document from its structural events.
    #[verifier::loop_isolation(false)]
    pub fn decode_events(events: &Vec<Event>) -> (r: Result<RouteList, Error>)
        ensures
            match r {
                Ok(rl) => spec_decode_routes(events_view(events@)) == Some(rl@),
                Err(e) => spec_decode_routes(events_view(events@)) is None && e
                    == Error::ParseError,
            },
    {
        let ghost ev = events_view(events@);
        let mut routes: Vec<Route> = Vec::new();
        let mut i: usize = 0;
        while i < events.len()
            invariant
                i <= events.len(),
                decode_routes_from(ev, 0) == match decode_routes_from(ev, i as int) {
                    None => None::<Seq<RouteV>>,
                    Some(rest) => Some(routes_view(routes@) + rest),
                },
            decreases events.len() - i,
        {
            assert(ev[i as int] == events@[i as int]@);
            match &events[i] {
                Event::Start { name, attributes } => {
                    if eq_str(name, "route") {
                        match route_of(attributes) {
                            Ok(rt) => {
                                let ghost pre = routes_view(routes@);
                                routes.push(rt);
                                proof {
                                    assert(routes_view(routes@) =~= pre.push(rt@));
                                    if decode_routes_from(ev, i + 1) is Some {
                                        let rest = decode_routes_from(ev, i + 1)->0;
                                        assert(pre + (seq![rt@] + rest) =~= pre.push(rt@) + rest);
                                    }
                                }
                            },
                            Err(_) => {
                                return Err(Error::ParseError);
                            },
                        }
                    }
                },
                Event::SyntaxError => {
                    return Err(Error::ParseError);
                },
                Event::DocumentEnd => {
                    proof {
                        assert(decode_routes_from(ev, i as int) == Some(Seq::<RouteV>::empty()));
                        assert(routes_view(routes@) + Seq::<RouteV>::empty() =~= routes_view(
                            routes@,
                        ));
                    }
                    return Ok(RouteList(routes));
                },
                _ => {},
            }
            i = i + 1;
        }
        proof {
            assert(decode_routes_from(ev, i as int) == Some(Seq::<RouteV>::empty()));
            assert(routes_view(routes@) + Seq::<RouteV>::empty() =~= routes_view(routes@));
        }
        Ok(RouteList(routes))
    }
}

/// Decoding is a pure function of the event sequence: equal event
/// streams always yield the same aggregate, with no hidden state
/// entering the decode.
pub proof fn lemma_decode_routes_deterministic(e1: Seq<EventV>, e2: Seq<EventV>)
    requires
        e1 == e2,
    ensures
        spec_decode_routes(e1) == spec_decode_routes(e2),
{
}

} // verus!
