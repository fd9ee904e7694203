//! The route-configuration aggregate and its decoder: `route` scopes
//! whose one sub-loop tells three child kinds apart by element name,
//! collecting flat `stop` records eagerly and driving a dedicated
//! nested scan for each `direction` and `path` scope up to its own
//! matching end tag.
//!
//! The latitude and longitude bounds of a route and the coordinates
//! of a path point are numeric on the wire; this crate holds no
//! floating point, so they are kept as their attribute text, checked
//! against the float grammar (a malformed one fails the decode, as
//! any malformed numeric attribute does).

use vstd::prelude::*;

use crate::error::Error;
use crate::events::{
    attr_lookup, attrs_view, collect_events, doc_events, events_view, find_attr, opt_view, override_opt,
    req_bool, req_bool_of, req_numeric, req_numeric_of, Attr, AttrV, Event, EventV,
};
use crate::text::eq_str;

verus! {

/// One stop owned by a route, with its position kept as attribute
/// text (the wire carries it as free-form text here).
#[derive(Debug, PartialEq)]
pub struct Stop {
    pub tag: String,
    pub title: String,
    pub lat: String,
    pub lon: String,
    pub short_title: Option<String>,
    pub stop_id: Option<String>,
}

pub ghost struct StopV {
    pub tag: Seq<char>,
    pub title: Seq<char>,
    pub lat: Seq<char>,
    pub lon: Seq<char>,
    pub short_title: Option<Seq<char>>,
    pub stop_id: Option<Seq<char>>,
}

impl View for Stop {
    type V = StopV;

    open spec fn view(&self) -> StopV {
        StopV {
            tag: self.tag@,
            title: self.title@,
            lat: self.lat@,
            lon: self.lon@,
            short_title: opt_view(self.short_title),
            stop_id: opt_view(self.stop_id),
        }
    }
}

/// A reference to a stop by its tag: a direction's itinerary lists
/// these instead of copying the route's own stop records.
#[derive(Debug, PartialEq)]
pub struct StopStub {
    pub tag: String,
}

pub ghost struct StopStubV {
    pub tag: Seq<char>,
}

impl View for StopStub {
    type V = StopStubV;

    open spec fn view(&self) -> StopStubV {
        StopStubV { tag: self.tag@ }
    }
}

/// One itinerary of a route: an ordered list of references into the
/// route's own stop collection.
#[derive(Debug, PartialEq)]
pub struct Direction {
    pub tag: String,
    pub title: String,
    pub name: String,
    pub use_for_ui: bool,
    pub stops: Vec<StopStub>,
}

pub ghost struct DirectionV {
    pub tag: Seq<char>,
    pub title: Seq<char>,
    pub name: Seq<char>,
    pub use_for_ui: bool,
    pub stops: Seq<StopStubV>,
}

pub open spec fn stubs_view(s: Seq<StopStub>) -> Seq<StopStubV> {
    s.map_values(|st: StopStub| st@)
}

impl View for Direction {
    type V = DirectionV;

    open spec fn view(&self) -> DirectionV {
        DirectionV {
            tag: self.tag@,
            title: self.title@,
            name: self.name@,
            use_for_ui: self.use_for_ui,
            stops: stubs_view(self.stops@),
        }
    }
}

/// One coordinate of a path, kept as validated numeric text.
#[derive(Debug, PartialEq)]
pub struct Point {
    pub lat: String,
    pub lon: String,
}

pub ghost struct PointV {
    pub lat: Seq<char>,
    pub lon: Seq<char>,
}

impl View for Point {
    type V = PointV;

    open spec fn view(&self) -> PointV {
        PointV { lat: self.lat@, lon: self.lon@ }
    }
}

/// The coordinates tracing one segment of a route.
#[derive(Debug, PartialEq)]
pub struct Path {
    pub tag: String,
    pub points: Vec<Point>,
}

pub ghost struct PathV {
    pub tag: Seq<char>,
    pub points: Seq<PointV>,
}

pub open spec fn points_view(s: Seq<Point>) -> Seq<PointV> {
    s.map_values(|p: Point| p@)
}

impl View for Path {
    type V = PathV;

    open spec fn view(&self) -> PathV {
        PathV { tag: self.tag@, points: points_view(self.points@) }
    }
}

/// One fully configured route: its own attributes, the stops it owns,
/// its directions, and its paths.
#[derive(Debug, PartialEq)]
pub struct Route {
    pub tag: String,
    pub title: String,
    pub color: String,
    pub opposite_color: String,
    pub lat_min: String,
    pub lat_max: String,
    pub lon_min: String,
    pub lon_max: String,
    pub stops: Vec<Stop>,
    pub directions: Vec<Direction>,
    pub paths: Vec<Path>,
}

pub ghost struct RouteV {
    pub tag: Seq<char>,
    pub title: Seq<char>,
    pub color: Seq<char>,
    pub opposite_color: Seq<char>,
    pub lat_min: Seq<char>,
    pub lat_max: Seq<char>,
    pub lon_min: Seq<char>,
    pub lon_max: Seq<char>,
    pub stops: Seq<StopV>,
    pub directions: Seq<DirectionV>,
    pub paths: Seq<PathV>,
}

pub open spec fn stops_view(s: Seq<Stop>) -> Seq<StopV> {
    s.map_values(|st: Stop| st@)
}

pub open spec fn dirs_view(s: Seq<Direction>) -> Seq<DirectionV> {
    s.map_values(|d: Direction| d@)
}

pub open spec fn paths_view(s: Seq<Path>) -> Seq<PathV> {
    s.map_values(|p: Path| p@)
}

impl View for Route {
    type V = RouteV;

    open spec fn view(&self) -> RouteV {
        RouteV {
            tag: self.tag@,
            title: self.title@,
            color: self.color@,
            opposite_color: self.opposite_color@,
            lat_min: self.lat_min@,
            lat_max: self.lat_max@,
            lon_min: self.lon_min@,
            lon_max: self.lon_max@,
            stops: stops_view(self.stops@),
            directions: dirs_view(self.directions@),
            paths: paths_view(self.paths@),
        }
    }
}

/// The decoded route-configuration aggregate, in document order.
#[derive(Debug, PartialEq)]
pub struct RouteConfig(pub Vec<Route>);

pub open spec fn routes_view(s: Seq<Route>) -> Seq<RouteV> {
    s.map_values(|r: Route| r@)
}

impl View for RouteConfig {
    type V = Seq<RouteV>;

    open spec fn view(&self) -> Seq<RouteV> {
        routes_view(self.0@)
    }
}

impl RouteConfig {
    pub fn new(routes: Vec<Route>) -> (r: RouteConfig)
        ensures
            r.0 == routes,
    {
        RouteConfig(routes)
    }
}

/// The stop record of an element's attributes: `tag`, `title`, `lat`
/// and `lon` are required, `shortTitle` and `stopId` optional.
pub open spec fn stop_of_attrs(attrs: Seq<AttrV>) -> Option<StopV> {
    if attr_lookup(attrs, "tag"@) is Some && attr_lookup(attrs, "title"@) is Some && attr_lookup(
        attrs,
        "lat"@,
    ) is Some && attr_lookup(attrs, "lon"@) is Some {
        Some(
            StopV {
                tag: attr_lookup(attrs, "tag"@)->0,
                title: attr_lookup(attrs, "title"@)->0,
                lat: attr_lookup(attrs, "lat"@)->0,
                lon: attr_lookup(attrs, "lon"@)->0,
                short_title: attr_lookup(attrs, "shortTitle"@),
                stop_id: attr_lookup(attrs, "stopId"@),
            },
        )
    } else {
        None
    }
}

/// The point record of an element's attributes: `lat` and `lon` are
/// required and must be well-formed numeric text.
pub open spec fn point_of_attrs(attrs: Seq<AttrV>) -> Option<PointV> {
    if req_numeric(attrs, "lat"@) is Some && req_numeric(attrs, "lon"@) is Some {
        Some(PointV { lat: req_numeric(attrs, "lat"@)->0, lon: req_numeric(attrs, "lon"@)->0 })
    } else {
        None
    }
}

/// The direction record of its element's attributes and its nested
/// stop references: `tag`, `title` and `name` are required, and
/// `useForUI` must be a well-formed boolean.
pub open spec fn direction_of_attrs(attrs: Seq<AttrV>, stubs: Seq<StopStubV>) -> Option<
    DirectionV,
> {
    if attr_lookup(attrs, "tag"@) is Some && attr_lookup(attrs, "title"@) is Some && attr_lookup(
        attrs,
        "name"@,
    ) is Some && req_bool(attrs, "useForUI"@) is Some {
        Some(
            DirectionV {
                tag: attr_lookup(attrs, "tag"@)->0,
                title: attr_lookup(attrs, "title"@)->0,
                name: attr_lookup(attrs, "name"@)->0,
                use_for_ui: req_bool(attrs, "useForUI"@)->0,
                stops: stubs,
            },
        )
    } else {
        None
    }
}

/// The route record of its element's attributes and its collected
/// children: the four names are required strings, the four bounds
/// required numeric texts.
pub open spec fn route_of_attrs(
    attrs: Seq<AttrV>,
    stops: Seq<StopV>,
    dirs: Seq<DirectionV>,
    paths: Seq<PathV>,
) -> Option<RouteV> {
    if attr_lookup(attrs, "tag"@) is Some && attr_lookup(attrs, "title"@) is Some && attr_lookup(
        attrs,
        "color"@,
    ) is Some && attr_lookup(attrs, "oppositeColor"@) is Some && req_numeric(attrs, "latMin"@)
        is Some && req_numeric(attrs, "latMax"@) is Some && req_numeric(attrs, "lonMin"@) is Some
        && req_numeric(attrs, "lonMax"@) is Some {
        Some(
            RouteV {
                tag: attr_lookup(attrs, "tag"@)->0,
                title: attr_lookup(attrs, "title"@)->0,
                color: attr_lookup(attrs, "color"@)->0,
                opposite_color: attr_lookup(attrs, "oppositeColor"@)->0,
                lat_min: req_numeric(attrs, "latMin"@)->0,
                lat_max: req_numeric(attrs, "latMax"@)->0,
                lon_min: req_numeric(attrs, "lonMin"@)->0,
                lon_max: req_numeric(attrs, "lonMax"@)->0,
                stops: stops,
                directions: dirs,
                paths: paths,
            },
        )
    } else {
        None
    }
}

/// Scans the stop references of one direction scope, from just after
/// the `direction` start up to its matching end tag.  Running out of
/// events before the end tag is a decode failure.
pub open spec fn scan_dir_stops(events: Seq<EventV>, i: int) -> Option<(Seq<StopStubV>, int)>
    decreases events.len() - i,
{
    if i < 0 || i >= events.len() {
        None
    } else {
        match events[i] {
            EventV::Start { name, attributes } => {
                if name == "stop"@ {
                    match attr_lookup(attributes, "tag"@) {
                        None => None,
                        Some(t) => match scan_dir_stops(events, i + 1) {
                            None => None,
                            Some((rest, j)) => Some((seq![StopStubV { tag: t }] + rest, j)),
                        },
                    }
                } else {
                    scan_dir_stops(events, i + 1)
                }
            },
            EventV::End { name } => {
                if name == "direction"@ {
                    Some((Seq::empty(), i + 1))
                } else {
                    scan_dir_stops(events, i + 1)
                }
            },
            EventV::SyntaxError => None,
            _ => scan_dir_stops(events, i + 1),
        }
    }
}

/// Scans one path scope, from just after the `path` start up to its
/// matching end tag.  The path's tag arrives in nested `tag` elements
/// (their `id` attribute, the last occurrence winning) and is
/// required; the points are collected in order.
pub open spec fn scan_path(events: Seq<EventV>, i: int, tag: Option<Seq<char>>) -> Option<
    (PathV, int),
>
    decreases events.len() - i,
{
    if i < 0 || i >= events.len() {
        None
    } else {
        match events[i] {
            EventV::Start { name, attributes } => {
                if name == "tag"@ {
                    scan_path(events, i + 1, override_opt(attr_lookup(attributes, "id"@), tag))
                } else if name == "point"@ {
                    match point_of_attrs(attributes) {
                        None => None,
                        Some(p) => match scan_path(events, i + 1, tag) {
                            None => None,
                            Some((path, j)) => Some(
                                (PathV { tag: path.tag, points: seq![p] + path.points }, j),
                            ),
                        },
                    }
                } else {
                    scan_path(events, i + 1, tag)
                }
            },
            EventV::End { name } => {
                if name == "path"@ {
                    match tag {
                        None => None,
                        Some(t) => Some((PathV { tag: t, points: Seq::empty() }, i + 1)),
                    }
                } else {
                    scan_path(events, i + 1, tag)
                }
            },
            EventV::SyntaxError => None,
            _ => scan_path(events, i + 1, tag),
        }
    }
}

/// Scans the children of one route scope, from just after the `route`
/// start up to its matching end tag: flat `stop` records, nested
/// `direction` scopes, nested `path` scopes, anything else skipped.
pub open spec fn scan_route_items(events: Seq<EventV>, i: int) -> Option<
    (Seq<StopV>, Seq<DirectionV>, Seq<PathV>, int),
>
    decreases events.len() - i,
{
    if i < 0 || i >= events.len() {
        None
    } else {
        match events[i] {
            EventV::Start { name, attributes } => {
                if name == "stop"@ {
                    match stop_of_attrs(attributes) {
                        None => None,
                        Some(st) => match scan_route_items(events, i + 1) {
                            None => None,
                            Some((stops, dirs, paths, j)) => Some(
                                (seq![st] + stops, dirs, paths, j),
                            ),
                        },
                    }
                } else if name == "direction"@ {
                    match scan_dir_stops(events, i + 1) {
                        None => None,
                        Some((stubs, j)) => {
                            if i < j <= events.len() {
                                match direction_of_attrs(attributes, stubs) {
                                    None => None,
                                    Some(d) => match scan_route_items(events, j) {
                                        None => None,
                                        Some((stops, dirs, paths, k)) => Some(
                                            (stops, seq![d] + dirs, paths, k),
                                        ),
                                    },
                                }
                            } else {
                                None
                            }
                        },
                    }
                } else if name == "path"@ {
                    match scan_path(events, i + 1, None) {
                        None => None,
                        Some((path, j)) => {
                            if i < j <= events.len() {
                                match scan_route_items(events, j) {
                                    None => None,
                                    Some((stops, dirs, paths, k)) => Some(
                                        (stops, dirs, seq![path] + paths, k),
                                    ),
                                }
                            } else {
                                None
                            }
                        },
                    }
                } else {
                    scan_route_items(events, i + 1)
                }
            },
            EventV::End { name } => {
                if name == "route"@ {
                    Some((Seq::empty(), Seq::empty(), Seq::empty(), i + 1))
                } else {
                    scan_route_items(events, i + 1)
                }
            },
            EventV::SyntaxError => None,
            _ => scan_route_items(events, i + 1),
        }
    }
}

/// The routes of the event sequence from position `i` on: every
/// `route` start element opens a scope whose children are collected
/// by `scan_route_items`.
pub open spec fn decode_route_config_from(events: Seq<EventV>, i: int) -> Option<Seq<RouteV>>
    decreases events.len() - i,
{
    if i < 0 || i >= events.len() {
        Some(Seq::empty())
    } else {
        match events[i] {
            EventV::Start { name, attributes } => {
                if name == "route"@ {
                    match scan_route_items(events, i + 1) {
                        None => None,
                        Some((stops, dirs, paths, j)) => {
                            if i < j <= events.len() {
                                match route_of_attrs(attributes, stops, dirs, paths) {
                                    None => None,
                                    Some(rt) => match decode_route_config_from(events, j) {
                                        None => None,
                                        Some(rest) => Some(seq![rt] + rest),
                                    },
                                }
                            } else {
                                None
                            }
                        },
                    }
                } else {
                    decode_route_config_from(events, i + 1)
                }
            },
            EventV::SyntaxError => None,
            EventV::DocumentEnd => Some(Seq::empty()),
            _ => decode_route_config_from(events, i + 1),
        }
    }
}

pub open spec fn spec_decode_route_config(events: Seq<EventV>) -> Option<Seq<RouteV>> {
    decode_route_config_from(events, 0)
}

/// Builds one stop record from an element's attributes.
fn stop_of(attrs: &Vec<Attr>) -> (r: Result<Stop, Error>)
    ensures
        match r {
            Ok(st) => stop_of_attrs(attrs_view(attrs@)) == Some(st@),
            Err(e) => stop_of_attrs(attrs_view(attrs@)) is None && e == Error::ParseError,
        },
{
    let tag = find_attr(attrs, "tag");
    let title = find_attr(attrs, "title");
    let lat = find_attr(attrs, "lat");
    let lon = find_attr(attrs, "lon");
    let short_title = find_attr(attrs, "shortTitle");
    let stop_id = find_attr(attrs, "stopId");
    match (tag, title, lat, lon) {
        (Some(tag), Some(title), Some(lat), Some(lon)) => Ok(
            Stop { tag, title, lat, lon, short_title, stop_id },
        ),
        _ => Err(Error::ParseError),
    }
}

/// Builds one point record from an element's attributes.
fn point_of(attrs: &Vec<Attr>) -> (r: Result<Point, Error>)
    ensures
        match r {
            Ok(p) => point_of_attrs(attrs_view(attrs@)) == Some(p@),
            Err(e) => point_of_attrs(attrs_view(attrs@)) is None && e == Error::ParseError,
        },
{
    let lat = match req_numeric_of(attrs, "lat") {
        Ok(v) => v,
        Err(e) => {
            return Err(e);
        },
    };
    let lon = match req_numeric_of(attrs, "lon") {
        Ok(v) => v,
        Err(e) => {
            return Err(e);
        },
    };
    Ok(Point { lat, lon })
}

/// Builds one direction record from its element's attributes and its
/// collected stop references.
fn direction_of(attrs: &Vec<Attr>, stubs: Vec<StopStub>) -> (r: Result<Direction, Error>)
    ensures
        match r {
            Ok(d) => direction_of_attrs(attrs_view(attrs@), stubs_view(stubs@)) == Some(d@),
            Err(e) => direction_of_attrs(attrs_view(attrs@), stubs_view(stubs@)) is None && e
                == Error::ParseError,
        },
{
    let use_for_ui = match req_bool_of(attrs, "useForUI") {
        Ok(b) => b,
        Err(e) => {
            return Err(e);
        },
    };
    let tag = find_attr(attrs, "tag");
    let title = find_attr(attrs, "title");
    let name = find_attr(attrs, "name");
    match (tag, title, name) {
        (Some(tag), Some(title), Some(name)) => Ok(
            Direction { tag, title, name, use_for_ui, stops: stubs },
        ),
        _ => Err(Error::ParseError),
    }
}

/// Builds one route record from its element's attributes and its
/// collected children.
fn route_of(
    attrs: &Vec<Attr>,
    stops: Vec<Stop>,
    directions: Vec<Direction>,
    paths: Vec<Path>,
) -> (r: Result<Route, Error>)
    ensures
        match r {
            Ok(rt) => route_of_attrs(
                attrs_view(attrs@),
                stops_view(stops@),
                dirs_view(directions@),
                paths_view(paths@),
            ) == Some(rt@),
            Err(e) => route_of_attrs(
                attrs_view(attrs@),
                stops_view(stops@),
                dirs_view(directions@),
                paths_view(paths@),
            ) is None && e == Error::ParseError,
        },
{
    let lat_min = match req_numeric_of(attrs, "latMin") {
        Ok(v) => v,
        Err(e) => {
            return Err(e);
        },
    };
    let lat_max = match req_numeric_of(attrs, "latMax") {
        Ok(v) => v,
        Err(e) => {
            return Err(e);
        },
    };
    let lon_min = match req_numeric_of(attrs, "lonMin") {
        Ok(v) => v,
        Err(e) => {
            return Err(e);
        },
    };
    let lon_max = match req_numeric_of(attrs, "lonMax") {
        Ok(v) => v,
        Err(e) => {
            return Err(e);
        },
    };
    let tag = find_attr(attrs, "tag");
    let title = find_attr(attrs, "title");
    let color = find_attr(attrs, "color");
    let opposite_color = find_attr(attrs, "oppositeColor");
    match (tag, title, color, opposite_color) {
        (Some(tag), Some(title), Some(color), Some(opposite_color)) => Ok(
            Route {
                tag,
                title,
                color,
                opposite_color,
                lat_min,
                lat_max,
                lon_min,
                lon_max,
                stops,
                directions,
                paths,
            },
        ),
        _ => Err(Error::ParseError),
    }
}

/// Collects the stop references of one direction scope, from just
/// after the `direction` start up to its matching end tag.
#[verifier::loop_isolation(false)]
fn parse_dir_stops(events: &Vec<Event>, start: usize) -> (r: Result<(Vec<StopStub>, usize), Error>)
    ensures
        match r {
            Ok((stubs, j)) => scan_dir_stops(events_view(events@), start as int) == Some(
                (stubs_view(stubs@), j as int),
            ) && start < j <= events.len(),
            Err(e) => scan_dir_stops(events_view(events@), start as int) is None && e
                == Error::ParseError,
        },
{
    let ghost ev = events_view(events@);
    if start >= events.len() {
        return Err(Error::ParseError);
    }
    let mut stubs: Vec<StopStub> = Vec::new();
    let mut i: usize = start;
    while i < events.len()
        invariant
            start <= i <= events.len(),
            scan_dir_stops(ev, start as int) == match scan_dir_stops(ev, i as int) {
                None => None::<(Seq<StopStubV>, int)>,
                Some((rest, j)) => Some((stubs_view(stubs@) + rest, j)),
            },
        decreases events.len() - i,
    {
        assert(ev[i as int] == events@[i as int]@);
        match &events[i] {
            Event::Start { name, attributes } => {
                if eq_str(name, "stop") {
                    match find_attr(attributes, "tag") {
                        Some(t) => {
                            let stub = StopStub { tag: t };
                            let ghost pre = stubs_view(stubs@);
                            stubs.push(stub);
                            proof {
                                assert(stubs_view(stubs@) =~= pre.push(stub@));
                                if scan_dir_stops(ev, i + 1) is Some {
                                    let (rest, j) = scan_dir_stops(ev, i + 1)->0;
                                    assert(pre + (seq![stub@] + rest) =~= pre.push(stub@) + rest);
                                }
                            }
                        },
                        None => {
                            return Err(Error::ParseError);
                        },
                    }
                }
            },
            Event::End { name } => {
                if eq_str(name, "direction") {
                    proof {
                        assert(scan_dir_stops(ev, i as int) == Some(
                            (Seq::<StopStubV>::empty(), i + 1),
                        ));
                        assert(stubs_view(stubs@) + Seq::<StopStubV>::empty() =~= stubs_view(
                            stubs@,
                        ));
                    }
                    return Ok((stubs, i + 1));
                }
            },
            Event::SyntaxError => {
                return Err(Error::ParseError);
            },
            _ => {},
        }
        i = i + 1;
    }
    Err(Error::ParseError)
}

/// Collects one path scope, from just after the `path` start up to
/// its matching end tag.
#[verifier::loop_isolation(false)]
fn parse_path(events: &Vec<Event>, start: usize) -> (r: Result<(Path, usize), Error>)
    ensures
        match r {
            Ok((path, j)) => scan_path(events_view(events@), start as int, None) == Some(
                (path@, j as int),
            ) && start < j <= events.len(),
            Err(e) => scan_path(events_view(events@), start as int, None) is None && e
                == Error::ParseError,
        },
{
    let ghost ev = events_view(events@);
    if start >= events.len() {
        return Err(Error::ParseError);
    }
    let mut tag: Option<String> = None;
    let mut points: Vec<Point> = Vec::new();
    let mut i: usize = start;
    while i < events.len()
        invariant
            start <= i <= events.len(),
            scan_path(ev, start as int, None) == match scan_path(ev, i as int, opt_view(tag)) {
                None => None::<(PathV, int)>,
                Some((path, j)) => Some(
                    (PathV { tag: path.tag, points: points_view(points@) + path.points }, j),
                ),
            },
        decreases events.len() - i,
    {
        assert(ev[i as int] == events@[i as int]@);
        match &events[i] {
            Event::Start { name, attributes } => {
                if eq_str(name, "tag") {
                    tag = match find_attr(attributes, "id") {
                        Some(v) => Some(v),
                        None => tag,
                    };
                } else if eq_str(name, "point") {
                    match point_of(attributes) {
                        Ok(p) => {
                            let ghost pre = points_view(points@);
                            points.push(p);
                            proof {
                                assert(points_view(points@) =~= pre.push(p@));
                                if scan_path(ev, i + 1, opt_view(tag)) is Some {
                                    let (path, j) = scan_path(ev, i + 1, opt_view(tag))->0;
                                    assert(pre + (seq![p@] + path.points) =~= pre.push(p@)
                                        + path.points);
                                }
                            }
                        },
                        Err(_) => {
                            return Err(Error::ParseError);
                        },
                    }
                }
            },
            Event::End { name } => {
                if eq_str(name, "path") {
                    match tag {
                        Some(t) => {
                            proof {
                                assert(scan_path(ev, i as int, opt_view(Some(t))) == Some(
                                    (PathV { tag: t@, points: Seq::<PointV>::empty() }, i + 1),
                                ));
                                assert(points_view(points@) + Seq::<PointV>::empty()
                                    =~= points_view(points@));
                            }
                            return Ok((Path { tag: t, points }, i + 1));
                        },
                        None => {
                            return Err(Error::ParseError);
                        },
                    }
                }
            },
            Event::SyntaxError => {
                return Err(Error::ParseError);
            },
            _ => {},
        }
        i = i + 1;
    }
    Err(Error::ParseError)
}

/// Collects the children of one route scope, telling the three child
/// kinds apart within the one sub-loop, up to the matching end tag.
#[verifier::loop_isolation(false)]
fn parse_route_items(events: &Vec<Event>, start: usize) -> (r: Result<
    (Vec<Stop>, Vec<Direction>, Vec<Path>, usize),
    Error,
>)
    ensures
        match r {
            Ok((stops, dirs, paths, j)) => scan_route_items(events_view(events@), start as int)
                == Some((stops_view(stops@), dirs_view(dirs@), paths_view(paths@), j as int))
                && start < j <= events.len(),
            Err(e) => scan_route_items(events_view(events@), start as int) is None && e
                == Error::ParseError,
        },
{
    let ghost ev = events_view(events@);
    if start >= events.len() {
        return Err(Error::ParseError);
    }
    let mut stops: Vec<Stop> = Vec::new();
    let mut dirs: Vec<Direction> = Vec::new();
    let mut paths: Vec<Path> = Vec::new();
    let mut i: usize = start;
    while i < events.len()
        invariant
            start <= i <= events.len(),
            scan_route_items(ev, start as int) == match scan_route_items(ev, i as int) {
                None => None::<(Seq<StopV>, Seq<DirectionV>, Seq<PathV>, int)>,
                Some((s2, d2, p2, j)) => Some(
                    (
                        stops_view(stops@) + s2,
                        dirs_view(dirs@) + d2,
                        paths_view(paths@) + p2,
                        j,
                    ),
                ),
            },
        decreases events.len() - i,
    {
        assert(ev[i as int] == events@[i as int]@);
        match &events[i] {
            Event::Start { name, attributes } => {
                if eq_str(name, "stop") {
                    match stop_of(attributes) {
                        Ok(st) => {
                            let ghost pre = stops_view(stops@);
                            stops.push(st);
                            proof {
                                assert(stops_view(stops@) =~= pre.push(st@));
                                if scan_route_items(ev, i + 1) is Some {
                                    let (s2, d2, p2, j) = scan_route_items(ev, i + 1)->0;
                                    assert(pre + (seq![st@] + s2) =~= pre.push(st@) + s2);
                                }
                            }
                        },
                        Err(_) => {
                            return Err(Error::ParseError);
                        },
                    }
                    i = i + 1;
                } else if eq_str(name, "direction") {
                    let (stubs, j) = match parse_dir_stops(events, i + 1) {
                        Ok(sj) => sj,
                        Err(_) => {
                            return Err(Error::ParseError);
                        },
                    };
                    let d = match direction_of(attributes, stubs) {
                        Ok(d) => d,
                        Err(_) => {
                            return Err(Error::ParseError);
                        },
                    };
                    let ghost pre = dirs_view(dirs@);
                    dirs.push(d);
                    proof {
                        assert(dirs_view(dirs@) =~= pre.push(d@));
                        if scan_route_items(ev, j as int) is Some {
                            let (s2, d2, p2, k) = scan_route_items(ev, j as int)->0;
                            assert(pre + (seq![d@] + d2) =~= pre.push(d@) + d2);
                        }
                    }
                    i = j;
                } else if eq_str(name, "path") {
                    let (path, j) = match parse_path(events, i + 1) {
                        Ok(pj) => pj,
                        Err(_) => {
                            return Err(Error::ParseError);
                        },
                    };
                    let ghost pre = paths_view(paths@);
                    paths.push(path);
                    proof {
                        assert(paths_view(paths@) =~= pre.push(paths@[paths@.len() - 1]@));
                        if scan_route_items(ev, j as int) is Some {
                            let (s2, d2, p2, k) = scan_route_items(ev, j as int)->0;
                            assert(pre + (seq![paths@[paths@.len() - 1]@] + p2) =~= pre.push(
                                paths@[paths@.len() - 1]@,
                            ) + p2);
                        }
                    }
                    i = j;
                } else {
                    i = i + 1;
                }
            },
            Event::End { name } => {
                if eq_str(name, "route") {
                    proof {
                        assert(scan_route_items(ev, i as int) == Some(
                            (
                                Seq::<StopV>::empty(),
                                Seq::<DirectionV>::empty(),
                                Seq::<PathV>::empty(),
                                i + 1,
                            ),
                        ));
                        assert(stops_view(stops@) + Seq::<StopV>::empty() =~= stops_view(stops@));
                        assert(dirs_view(dirs@) + Seq::<DirectionV>::empty() =~= dirs_view(dirs@));
                        assert(paths_view(paths@) + Seq::<PathV>::empty() =~= paths_view(paths@));
                    }
                    return Ok((stops, dirs, paths, i + 1));
                }
                i = i + 1;
            },
            Event::SyntaxError => {
                return Err(Error::ParseError);
            },
            _ => {
                i = i + 1;
            },
        }
    }
    Err(Error::ParseError)
}

/// Builds a request for one agency's route configuration (one route,
/// or all of them) and decodes its response.
pub struct RouteConfigBuilder {
    pub agency: Option<String>,
    pub route: Option<String>,
}

impl RouteConfigBuilder {
    pub fn new() -> (r: RouteConfigBuilder)
        ensures
            r.agency is None,
            r.route is None,
    {
        RouteConfigBuilder { agency: None, route: None }
    }

    /// Chooses the agency.  The last invocation wins.
    pub fn agency(self, agency: String) -> (r: RouteConfigBuilder)
        ensures
            r.agency == Some(agency),
            r.route == self.route,
    {
        RouteConfigBuilder { agency: Some(agency), ..self }
    }

    /// Chooses one route.  The last invocation wins; leaving it unset
    /// asks for every route of the agency.
    pub fn route(self, route: String) -> (r: RouteConfigBuilder)
        ensures
            r.agency == self.agency,
            r.route == Some(route),
    {
        RouteConfigBuilder { route: Some(route), ..self }
    }

    /// Runs the route-configuration command as far as this library
    /// reaches: the required agency is checked first, and the call
    /// then reports a transport failure, because the network
    /// transport belongs to the caller (it owns the fetch and hands
    /// the response text to `from_xml`).
    pub fn get(&self) -> (r: Result<RouteConfig, Error>)
        ensures
            self.agency is None ==> r == Err::<RouteConfig, Error>(Error::BuildCommandError),
            self.agency is Some ==> (r matches Err(e) && e matches Error::HttpError(m) && m@
                == "no transport is configured"@),
    {
        if self.agency.is_none() {
            return Err(Error::BuildCommandError);
        }
        Err(Error::HttpError("no transport is configured".to_owned()))
    }

    /// Decodes a route-configuration document from its text: the text is
    /// tokenized (leading whitespace stripped, since the feed pads
    /// its documents) and the events are decoded.  The result is
    /// pinned to the decode of the text's own event stream.
    pub fn from_xml(input: &str) -> (r: Result<RouteConfig, Error>)
        ensures
            match r {
                Ok(rc) => spec_decode_route_config(doc_events(input@)) == Some(rc@),
                Err(e) => spec_decode_route_config(doc_events(input@)) is None && e == Error::ParseError,
            },
    {
        let events = collect_events(input);
        Self::decode_events(&events)
    }

    /// Decodes a route-configuration document from its structural
    /// events.
    #[verifier::loop_isolation(false)]
    pub fn decode_events(events: &Vec<Event>) -> (r: Result<RouteConfig, Error>)
        ensures
            match r {
                Ok(rc) => spec_decode_route_config(events_view(events@)) == Some(rc@),
                Err(e) => spec_decode_route_config(events_view(events@)) is None && e
                    == Error::ParseError,
            },
    {
        let ghost ev = events_view(events@);
        let mut routes: Vec<Route> = Vec::new();
        let mut i: usize = 0;
        while i < events.len()
            invariant
                i <= events.len(),
                decode_route_config_from(ev, 0) == match decode_route_config_from(ev, i as int) {
                    None => None::<Seq<RouteV>>,
                    Some(rest) => Some(routes_view(routes@) + rest),
                },
            decreases events.len() - i,
        {
            assert(ev[i as int] == events@[i as int]@);
            match &events[i] {
                Event::Start { name, attributes } => {
                    if eq_str(name, "route") {
                        let (stops, dirs, paths, j) = match parse_route_items(events, i + 1) {
                            Ok(x) => x,
                            Err(_) => {
                                return Err(Error::ParseError);
                            },
                        };
                        let rt = match route_of(attributes, stops, dirs, paths) {
                            Ok(rt) => rt,
                            Err(_) => {
                                return Err(Error::ParseError);
                            },
                        };
                        let ghost pre = routes_view(routes@);
                        routes.push(rt);
                        proof {
                            assert(routes_view(routes@) =~= pre.push(rt@));
                            if decode_route_config_from(ev, j as int) is Some {
                                let rest = decode_route_config_from(ev, j as int)->0;
                                assert(pre + (seq![rt@] + rest) =~= pre.push(rt@) + rest);
                            }
                        }
                        i = j;
                    } else {
                        i = i + 1;
                    }
                },
                Event::SyntaxError => {
                    return Err(Error::ParseError);
                },
                Event::DocumentEnd => {
                    proof {
                        assert(decode_route_config_from(ev, i as int) == Some(
                            Seq::<RouteV>::empty(),
                        ));
                        assert(routes_view(routes@) + Seq::<RouteV>::empty() =~= routes_view(
                            routes@,
                        ));
                    }
                    return Ok(RouteConfig(routes));
                },
                _ => {
                    i = i + 1;
                },
            }
        }
        proof {
            assert(decode_route_config_from(ev, i as int) == Some(Seq::<RouteV>::empty()));
            assert(routes_view(routes@) + Seq::<RouteV>::empty() =~= routes_view(routes@));
        }
        Ok(RouteConfig(routes))
    }
}

/// The events of a route-configuration document holding one route
/// with two stops, one direction referencing both, and one path of
/// two points: the canonical shape of the round-trip law below.
pub open spec fn route_config_shape_events(
    rattrs: Seq<AttrV>,
    s1: Seq<AttrV>,
    s2: Seq<AttrV>,
    dattrs: Seq<AttrV>,
    stub1: Seq<AttrV>,
    stub2: Seq<AttrV>,
    pathattrs: Seq<AttrV>,
    tagattrs: Seq<AttrV>,
    p1: Seq<AttrV>,
    p2: Seq<AttrV>,
) -> Seq<EventV> {
    seq![
        EventV::Start { name: "route"@, attributes: rattrs },
        EventV::Start { name: "stop"@, attributes: s1 },
        EventV::Start { name: "stop"@, attributes: s2 },
        EventV::Start { name: "direction"@, attributes: dattrs },
        EventV::Start { name: "stop"@, attributes: stub1 },
        EventV::Start { name: "stop"@, attributes: stub2 },
        EventV::End { name: "direction"@ },
        EventV::Start { name: "path"@, attributes: pathattrs },
        EventV::Start { name: "tag"@, attributes: tagattrs },
        EventV::Start { name: "point"@, attributes: p1 },
        EventV::Start { name: "point"@, attributes: p2 },
        EventV::End { name: "path"@ },
        EventV::End { name: "route"@ },
    ]
}

/// Decoding a route-configuration document holding one `route` with
/// two `stop` children, one `direction` referencing both stop tags
/// in order, and one `path` of two `point` children yields exactly
/// one route whose stops are those two in document order, whose one
/// direction references the two tags in order, and whose one path
/// carries its nested tag and both points — for every choice of
/// well-formed attribute lists.
#[verifier::rlimit(50)]
pub proof fn lemma_route_config_round_trip(
    rattrs: Seq<AttrV>,
    s1: Seq<AttrV>,
    s2: Seq<AttrV>,
    dattrs: Seq<AttrV>,
    stub1: Seq<AttrV>,
    stub2: Seq<AttrV>,
    pathattrs: Seq<AttrV>,
    tagattrs: Seq<AttrV>,
    p1: Seq<AttrV>,
    p2: Seq<AttrV>,
)
    requires
        route_of_attrs(rattrs, Seq::empty(), Seq::empty(), Seq::empty()) is Some,
        stop_of_attrs(s1) is Some,
        stop_of_attrs(s2) is Some,
        direction_of_attrs(dattrs, Seq::empty()) is Some,
        attr_lookup(stub1, "tag"@) is Some,
        attr_lookup(stub2, "tag"@) is Some,
        attr_lookup(tagattrs, "id"@) is Some,
        point_of_attrs(p1) is Some,
        point_of_attrs(p2) is Some,
    ensures
        spec_decode_route_config(
            route_config_shape_events(
                rattrs,
                s1,
                s2,
                dattrs,
                stub1,
                stub2,
                pathattrs,
                tagattrs,
                p1,
                p2,
            ),
        ) matches Some(routes) && routes.len() == 1 && routes[0].stops.len() == 2
            && routes[0].stops == seq![stop_of_attrs(s1)->0, stop_of_attrs(s2)->0]
            && routes[0].directions.len() == 1 && routes[0].directions[0].stops == seq![
            StopStubV { tag: attr_lookup(stub1, "tag"@)->0 },
            StopStubV { tag: attr_lookup(stub2, "tag"@)->0 },
        ] && routes[0].paths.len() == 1 && routes[0].paths[0].tag == attr_lookup(
            tagattrs,
            "id"@,
        )->0 && routes[0].paths[0].points == seq![point_of_attrs(p1)->0, point_of_attrs(p2)->0],
{
    reveal_strlit("route");
    reveal_strlit("stop");
    reveal_strlit("direction");
    reveal_strlit("path");
    reveal_strlit("tag");
    reveal_strlit("point");
    assert("route"@.len() == 5);
    assert("stop"@.len() == 4);
    assert("direction"@.len() == 9);
    assert("path"@.len() == 4);
    assert("tag"@.len() == 3);
    assert("point"@.len() == 5);
    assert("stop"@[0] == 's' && "path"@[0] == 'p');
    assert("route"@[0] == 'r' && "point"@[0] == 'p');
    let ev = route_config_shape_events(
        rattrs,
        s1,
        s2,
        dattrs,
        stub1,
        stub2,
        pathattrs,
        tagattrs,
        p1,
        p2,
    );
    let sv1 = stop_of_attrs(s1)->0;
    let sv2 = stop_of_attrs(s2)->0;
    let st1 = StopStubV { tag: attr_lookup(stub1, "tag"@)->0 };
    let st2 = StopStubV { tag: attr_lookup(stub2, "tag"@)->0 };
    let id = attr_lookup(tagattrs, "id"@)->0;
    let pv1 = point_of_attrs(p1)->0;
    let pv2 = point_of_attrs(p2)->0;
    assert(ev.len() == 13);
    // the direction scope
    assert(scan_dir_stops(ev, 6) == Some((Seq::<StopStubV>::empty(), 7int)));
    assert(scan_dir_stops(ev, 5) == Some((seq![st2], 7int)));
    assert(scan_dir_stops(ev, 4) == Some((seq![st1, st2], 7int))) by {
        assert(seq![st1] + seq![st2] =~= seq![st1, st2]);
    }
    // the path scope, with its tag accumulated from the nested element
    assert(scan_path(ev, 11, Some(id)) == Some(
        (PathV { tag: id, points: Seq::<PointV>::empty() }, 12int),
    ));
    assert(scan_path(ev, 10, Some(id)) == Some((PathV { tag: id, points: seq![pv2] }, 12int)));
    assert(scan_path(ev, 9, Some(id)) == Some(
        (PathV { tag: id, points: seq![pv1, pv2] }, 12int),
    )) by {
        assert(seq![pv1] + seq![pv2] =~= seq![pv1, pv2]);
    }
    assert(scan_path(ev, 8, None) == Some((PathV { tag: id, points: seq![pv1, pv2] }, 12int)));
    // the route scope, children interleaved in one sub-loop
    let d = direction_of_attrs(dattrs, seq![st1, st2])->0;
    let path = PathV { tag: id, points: seq![pv1, pv2] };
    assert(scan_route_items(ev, 12) == Some(
        (Seq::<StopV>::empty(), Seq::<DirectionV>::empty(), Seq::<PathV>::empty(), 13int),
    ));
    assert(scan_route_items(ev, 7) == Some(
        (Seq::<StopV>::empty(), Seq::<DirectionV>::empty(), seq![path], 13int),
    )) by {
        assert(seq![path] + Seq::<PathV>::empty() =~= seq![path]);
    }
    assert(scan_route_items(ev, 3) == Some(
        (Seq::<StopV>::empty(), seq![d], seq![path], 13int),
    )) by {
        assert(direction_of_attrs(dattrs, seq![st1, st2]) == Some(d));
        assert(seq![d] + Seq::<DirectionV>::empty() =~= seq![d]);
    }
    assert(scan_route_items(ev, 2) == Some((seq![sv2], seq![d], seq![path], 13int)));
    assert(scan_route_items(ev, 1) == Some((seq![sv1, sv2], seq![d], seq![path], 13int))) by {
        assert(seq![sv1] + seq![sv2] =~= seq![sv1, sv2]);
    }
    let rt = route_of_attrs(rattrs, seq![sv1, sv2], seq![d], seq![path])->0;
    assert(decode_route_config_from(ev, 13) == Some(Seq::<RouteV>::empty()));
    assert(decode_route_config_from(ev, 0) == Some(seq![rt])) by {
        assert(route_of_attrs(rattrs, seq![sv1, sv2], seq![d], seq![path]) == Some(rt));
        assert(seq![rt] + Seq::<RouteV>::empty() =~= seq![rt]);
    }
}

/// Decoding is a pure function of the event sequence: equal event
/// streams always yield the same aggregate, with no hidden state
/// entering the decode.
pub proof fn lemma_decode_route_config_deterministic(e1: Seq<EventV>, e2: Seq<EventV>)
    requires
        e1 == e2,
    ensures
        spec_decode_route_config(e1) == spec_decode_route_config(e2),
{
}

} // verus!
