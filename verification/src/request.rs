//! The command and parameter-set model, and the Command Validator.
//!
//! A `Request` accumulates an optional command, agency, route list,
//! stop list and time.  `validate` holds the accumulated set against
//! the fixed per-command table of required and forbidden parameters
//! and, on success, emits the canonical ordered query-parameter
//! sequence: `command` first, then `a`, one `r` pair per route in
//! call order, the stop pairs (`s` for the singular-stop predictions
//! command, `stops` otherwise) in call order, and `t` last.

use vstd::prelude::*;

use vstd::utf8::encode_utf8;

use crate::error::Error;
use crate::text::{form_encode, form_encoded, strs_view};

verus! {

/// The eight supported operations, each with its fixed wire name.
#[derive(Clone, Copy, Debug, PartialEq, Eq, Structural)]
pub enum Command {
    AgencyList,
    RouteList,
    RouteConfig,
    Predictions,
    PredictionsForMultiStops,
    Schedule,
    Messages,
    VehicleLocations,
}

pub open spec fn spec_wire_name(c: Command) -> Seq<char> {
    match c {
        Command::AgencyList => "agencyList"@,
        Command::RouteList => "routeList"@,
        Command::RouteConfig => "routeConfig"@,
        Command::Predictions => "predictions"@,
        Command::PredictionsForMultiStops => "predictionsForMultiStops"@,
        Command::Schedule => "schedule"@,
        Command::Messages => "messages"@,
        Command::VehicleLocations => "vehicleLocations"@,
    }
}

impl Command {
    /// The name used verbatim as the `command` query value.
    pub fn wire_name(&self) -> (r: &'static str)
        ensures
            r@ == spec_wire_name(*self),
    {
        match self {
            Command::AgencyList => "agencyList",
            Command::RouteList => "routeList",
            Command::RouteConfig => "routeConfig",
            Command::Predictions => "predictions",
            Command::PredictionsForMultiStops => "predictionsForMultiStops",
            Command::Schedule => "schedule",
            Command::Messages => "messages",
            Command::VehicleLocations => "vehicleLocations",
        }
    }
}

/// One emitted query parameter.
pub struct QueryParam {
    pub key: String,
    pub value: String,
}

pub ghost struct QueryParamV {
    pub key: Seq<char>,
    pub value: Seq<char>,
}

impl View for QueryParam {
    type V = QueryParamV;

    open spec fn view(&self) -> QueryParamV {
        QueryParamV { key: self.key@, value: self.value@ }
    }
}

pub open spec fn queries_view(qs: Seq<QueryParam>) -> Seq<QueryParamV> {
    qs.map_values(|q: QueryParam| q@)
}

/// The not-yet-validated parameter set for one request.
pub struct Request {
    pub command: Option<Command>,
    pub agency: Option<String>,
    pub routes: Option<Vec<String>>,
    pub stops: Option<Vec<String>>,
    pub time: Option<usize>,
}

pub ghost struct RequestV {
    pub command: Option<Command>,
    pub agency: Option<Seq<char>>,
    pub routes: Option<Seq<Seq<char>>>,
    pub stops: Option<Seq<Seq<char>>>,
    pub time: Option<usize>,
}

impl View for Request {
    type V = RequestV;

    open spec fn view(&self) -> RequestV {
        RequestV {
            command: self.command,
            agency: match self.agency {
                Some(a) => Some(a@),
                None => None,
            },
            routes: match self.routes {
                Some(rs) => Some(strs_view(rs@)),
                None => None,
            },
            stops: match self.stops {
                Some(ss) => Some(strs_view(ss@)),
                None => None,
            },
            time: self.time,
        }
    }
}

/// The per-command validity table: which parameters are required,
/// optional or forbidden, and the arity bounds on the lists.
pub open spec fn spec_valid(r: RequestV) -> bool {
    match r.command {
        None => false,
        Some(Command::AgencyList) => r.agency is None && r.routes is None && r.stops is None
            && r.time is None,
        Some(Command::RouteList) => r.agency is Some && r.routes is None && r.stops is None
            && r.time is None,
        Some(Command::RouteConfig) => r.agency is Some && r.stops is None && r.time is None && (
        r.routes matches Some(rs) ==> rs.len() <= 1),
        Some(Command::Predictions) => r.agency is Some && (r.routes matches Some(rs) && rs.len()
            == 1) && (r.stops matches Some(ss) && ss.len() == 1) && r.time is None,
        Some(Command::PredictionsForMultiStops) => r.agency is Some && r.routes is None && (
        r.stops matches Some(ss) && ss.len() >= 1) && r.time is None,
        Some(Command::Schedule) => r.agency is Some && (r.routes matches Some(rs) && rs.len() == 1)
            && r.stops is None && r.time is None,
        Some(Command::Messages) => r.agency is Some && (r.routes matches Some(rs) && rs.len() >= 1)
            && r.stops is None && r.time is None,
        Some(Command::VehicleLocations) => r.agency is Some && (r.routes matches Some(rs)
            && rs.len() == 1) && r.stops is None && r.time is Some,
    }
}

/// The key used for stop parameters: the predictions command carries
/// its single stop as `s`, every other command uses `stops`.
pub open spec fn spec_stops_key(c: Command) -> Seq<char> {
    if c == Command::Predictions {
        "s"@
    } else {
        "stops"@
    }
}

pub open spec fn opt_pair(key: Seq<char>, o: Option<Seq<char>>) -> Seq<QueryParamV> {
    match o {
        None => Seq::empty(),
        Some(v) => seq![QueryParamV { key: key, value: v }],
    }
}

pub open spec fn list_pairs(key: Seq<char>, o: Option<Seq<Seq<char>>>) -> Seq<QueryParamV> {
    match o {
        None => Seq::empty(),
        Some(vs) => vs.map_values(|v: Seq<char>| QueryParamV { key: key, value: v }),
    }
}

pub open spec fn time_pair(o: Option<usize>) -> Seq<QueryParamV> {
    match o {
        None => Seq::empty(),
        Some(t) => seq![QueryParamV { key: "t"@, value: crate::text::spec_nat_digits(t as nat) }],
    }
}

/// The canonical query sequence of a parameter set whose command is
/// set: `command`, then `a`, the `r` pairs, the stop pairs, `t`.
pub open spec fn spec_queries(r: RequestV) -> Seq<QueryParamV> {
    match r.command {
        None => Seq::empty(),
        Some(c) => seq![QueryParamV { key: "command"@, value: spec_wire_name(c) }] + opt_pair(
            "a"@,
            r.agency,
        ) + list_pairs("r"@, r.routes) + list_pairs(spec_stops_key(c), r.stops) + time_pair(r.time),
    }
}

impl Request {
    /// An empty parameter set: no command, nothing chosen.
    pub fn new() -> (r: Request)
        ensures
            r.command is None,
            r.agency is None,
            r.routes is None,
            r.stops is None,
            r.time is None,
    {
        Request { command: None, agency: None, routes: None, stops: None, time: None }
    }

    /// Chooses the command.  The last invocation wins.
    pub fn command(self, command: Command) -> (r: Request)
        ensures
            r.command == Some(command),
            r.agency == self.agency,
            r.routes == self.routes,
            r.stops == self.stops,
            r.time == self.time,
    {
        Request { command: Some(command), ..self }
    }

    /// Chooses the agency.  The last invocation wins.
    pub fn agency(self, agency: String) -> (r: Request)
        ensures
            r.command == self.command,
            r.agency == Some(agency),
            r.routes == self.routes,
            r.stops == self.stops,
            r.time == self.time,
    {
        Request { agency: Some(agency), ..self }
    }

    /// Chooses a single route, replacing any previous route list.
    pub fn route(self, route: String) -> (r: Request)
        ensures
            r.command == self.command,
            r.agency == self.agency,
            r.routes matches Some(rs) && rs@ == seq![route],
            r.stops == self.stops,
            r.time == self.time,
    {
        let mut rs: Vec<String> = Vec::new();
        rs.push(route);
        Request { routes: Some(rs), ..self }
    }

    /// Appends one route to the current list, starting one when none
    /// was chosen yet.
    pub fn add_route(self, route: String) -> (r: Request)
        ensures
            r.command == self.command,
            r.agency == self.agency,
            r.routes matches Some(rs) && rs@ == (match self.routes {
                Some(old_rs) => old_rs@,
                None => Seq::empty(),
            }).push(route),
            r.stops == self.stops,
            r.time == self.time,
    {
        let mut rs: Vec<String> = match self.routes {
            Some(v) => v,
            None => Vec::new(),
        };
        rs.push(route);
        Request {
            command: self.command,
            agency: self.agency,
            routes: Some(rs),
            stops: self.stops,
            time: self.time,
        }
    }

    /// Chooses the whole route list, replacing any previous one.
    pub fn routes(self, routes: Vec<String>) -> (r: Request)
        ensures
            r.command == self.command,
            r.agency == self.agency,
            r.routes == Some(routes),
            r.stops == self.stops,
            r.time == self.time,
    {
        Request { routes: Some(routes), ..self }
    }

    /// Appends a list of routes to the current list.  When no route
    /// list was started, nothing changes.
    pub fn append_routes(self, routes: Vec<String>) -> (r: Request)
        ensures
            r.command == self.command,
            r.agency == self.agency,
            match self.routes {
                Some(old_rs) => r.routes matches Some(rs) && rs@ == old_rs@ + routes@,
                None => r.routes is None,
            },
            r.stops == self.stops,
            r.time == self.time,
    {
        let mut routes = routes;
        match self.routes {
            Some(mut rs) => {
                rs.append(&mut routes);
                Request {
                    command: self.command,
                    agency: self.agency,
                    routes: Some(rs),
                    stops: self.stops,
                    time: self.time,
                }
            },
            None => Request {
                command: self.command,
                agency: self.agency,
                routes: None,
                stops: self.stops,
                time: self.time,
            },
        }
    }

    /// Chooses a single stop, replacing any previous stop list.
    pub fn stop(self, stop: String) -> (r: Request)
        ensures
            r.command == self.command,
            r.agency == self.agency,
            r.routes == self.routes,
            r.stops matches Some(ss) && ss@ == seq![stop],
            r.time == self.time,
    {
        let mut ss: Vec<String> = Vec::new();
        ss.push(stop);
        Request { stops: Some(ss), ..self }
    }

    /// Appends one stop to the current list, starting one when none
    /// was chosen yet.
    pub fn add_stop(self, stop: String) -> (r: Request)
        ensures
            r.command == self.command,
            r.agency == self.agency,
            r.routes == self.routes,
            r.stops matches Some(ss) && ss@ == (match self.stops {
                Some(old_ss) => old_ss@,
                None => Seq::empty(),
            }).push(stop),
            r.time == self.time,
    {
        let mut ss: Vec<String> = match self.stops {
            Some(v) => v,
            None => Vec::new(),
        };
        ss.push(stop);
        Request {
            command: self.command,
            agency: self.agency,
            routes: self.routes,
            stops: Some(ss),
            time: self.time,
        }
    }

    /// Chooses the whole stop list, replacing any previous one.
    pub fn stops(self, stops: Vec<String>) -> (r: Request)
        ensures
            r.command == self.command,
            r.agency == self.agency,
            r.routes == self.routes,
            r.stops == Some(stops),
            r.time == self.time,
    {
        Request { stops: Some(stops), ..self }
    }

    /// Appends a list of stops to the current list.  When no stop
    /// list was started, nothing changes.
    pub fn append_stops(self, stops: Vec<String>) -> (r: Request)
        ensures
            r.command == self.command,
            r.agency == self.agency,
            r.routes == self.routes,
            match self.stops {
                Some(old_ss) => r.stops matches Some(ss) && ss@ == old_ss@ + stops@,
                None => r.stops is None,
            },
            r.time == self.time,
    {
        let mut stops = stops;
        match self.stops {
            Some(mut ss) => {
                ss.append(&mut stops);
                Request {
                    command: self.command,
                    agency: self.agency,
                    routes: self.routes,
                    stops: Some(ss),
                    time: self.time,
                }
            },
            None => Request {
                command: self.command,
                agency: self.agency,
                routes: self.routes,
                stops: None,
                time: self.time,
            },
        }
    }

    /// Chooses the time.  The last invocation wins.
    pub fn time(self, time: usize) -> (r: Request)
        ensures
            r.command == self.command,
            r.agency == self.agency,
            r.routes == self.routes,
            r.stops == self.stops,
            r.time == Some(time),
    {
        Request { time: Some(time), ..self }
    }

    /// Whether the parameter set satisfies its command's rules.
    pub fn is_valid(&self) -> (r: bool)
        ensures
            r == spec_valid(self@),
    {
        match &self.command {
            None => false,
            Some(Command::AgencyList) => self.agency.is_none() && self.routes.is_none()
                && self.stops.is_none() && self.time.is_none(),
            Some(Command::RouteList) => self.agency.is_some() && self.routes.is_none()
                && self.stops.is_none() && self.time.is_none(),
            Some(Command::RouteConfig) => self.agency.is_some() && self.stops.is_none()
                && self.time.is_none() && (match &self.routes {
                Some(rs) => rs.len() <= 1,
                None => true,
            }),
            Some(Command::Predictions) => self.agency.is_some() && (match &self.routes {
                Some(rs) => rs.len() == 1,
                None => false,
            }) && (match &self.stops {
                Some(ss) => ss.len() == 1,
                None => false,
            }) && self.time.is_none(),
            Some(Command::PredictionsForMultiStops) => self.agency.is_some()
                && self.routes.is_none() && (match &self.stops {
                Some(ss) => ss.len() >= 1,
                None => false,
            }) && self.time.is_none(),
            Some(Command::Schedule) => self.agency.is_some() && (match &self.routes {
                Some(rs) => rs.len() == 1,
                None => false,
            }) && self.stops.is_none() && self.time.is_none(),
            Some(Command::Messages) => self.agency.is_some() && (match &self.routes {
                Some(rs) => rs.len() >= 1,
                None => false,
            }) && self.stops.is_none() && self.time.is_none(),
            Some(Command::VehicleLocations) => self.agency.is_some() && (match &self.routes {
                Some(rs) => rs.len() == 1,
                None => false,
            }) && self.stops.is_none() && self.time.is_some(),
        }
    }

    /// Holds the parameter set against the validity table and, on
    /// success, emits the canonical ordered query sequence.  Pure:
    /// no network is touched.
    pub fn validate(&self) -> (r: Result<Vec<QueryParam>, Error>)
        ensures
            spec_valid(self@) ==> (r matches Ok(q) && queries_view(q@) == spec_queries(self@)),
            !spec_valid(self@) ==> r == Err::<Vec<QueryParam>, Error>(Error::BuildUrlError),
    {
        if !self.is_valid() {
            return Err(Error::BuildUrlError);
        }
        let cmd = match &self.command {
            Some(c) => *c,
            None => {
                return Err(Error::BuildUrlError);
            },
        };
        let mut queries: Vec<QueryParam> = Vec::new();
        queries.push(QueryParam { key: "command".to_owned(), value: cmd.wire_name().to_owned() });
        assert(queries_view(queries@) =~= seq![
            QueryParamV { key: "command"@, value: spec_wire_name(cmd) },
        ]);
        match &self.agency {
            Some(a) => {
                queries.push(QueryParam { key: "a".to_owned(), value: a.clone() });
            },
            None => {},
        }
        assert(queries_view(queries@) =~= seq![
            QueryParamV { key: "command"@, value: spec_wire_name(cmd) },
        ] + opt_pair("a"@, self@.agency));
        let ghost head = seq![QueryParamV { key: "command"@, value: spec_wire_name(cmd) }]
            + opt_pair("a"@, self@.agency);
        match &self.routes {
            Some(rs) => {
                let mut i: usize = 0;
                while i < rs.len()
                    invariant
                        i <= rs.len(),
                        self@.routes == Some(strs_view(rs@)),
                        queries_view(queries@) =~= head + list_pairs(
                            "r"@,
                            Some(strs_view(rs@).take(i as int)),
                        ),
                    decreases rs.len() - i,
                {
                    let ghost pre = queries@;
                    queries.push(QueryParam { key: "r".to_owned(), value: rs[i].clone() });
                    proof {
                        assert(queries_view(queries@) =~= queries_view(pre).push(
                            QueryParamV { key: "r"@, value: rs@[i as int]@ },
                        ));
                        assert(strs_view(rs@).take(i + 1) =~= strs_view(rs@).take(i as int).push(
                            rs@[i as int]@,
                        ));
                        assert(list_pairs("r"@, Some(strs_view(rs@).take(i + 1))) =~= list_pairs(
                            "r"@,
                            Some(strs_view(rs@).take(i as int)),
                        ).push(QueryParamV { key: "r"@, value: rs@[i as int]@ }));
                        assert(queries_view(queries@) =~= head + list_pairs(
                            "r"@,
                            Some(strs_view(rs@).take(i + 1)),
                        ));
                    }
                    i = i + 1;
                }
                proof {
                    assert(strs_view(rs@).take(rs@.len() as int) =~= strs_view(rs@));
                }
            },
            None => {},
        }
        assert(queries_view(queries@) =~= head + list_pairs("r"@, self@.routes));
        let ghost head2 = head + list_pairs("r"@, self@.routes);
        let stops_key: &str = match cmd {
            Command::Predictions => "s",
            _ => "stops",
        };
        assert(stops_key@ == spec_stops_key(cmd));
        match &self.stops {
            Some(ss) => {
                let mut i: usize = 0;
                while i < ss.len()
                    invariant
                        i <= ss.len(),
                        self@.stops == Some(strs_view(ss@)),
                        stops_key@ == spec_stops_key(cmd),
                        queries_view(queries@) =~= head2 + list_pairs(
                            spec_stops_key(cmd),
                            Some(strs_view(ss@).take(i as int)),
                        ),
                    decreases ss.len() - i,
                {
                    let ghost pre = queries@;
                    queries.push(QueryParam { key: stops_key.to_owned(), value: ss[i].clone() });
                    proof {
                        assert(queries_view(queries@) =~= queries_view(pre).push(
                            QueryParamV { key: spec_stops_key(cmd), value: ss@[i as int]@ },
                        ));
                        assert(strs_view(ss@).take(i + 1) =~= strs_view(ss@).take(i as int).push(
                            ss@[i as int]@,
                        ));
                        assert(list_pairs(spec_stops_key(cmd), Some(strs_view(ss@).take(i + 1)))
                            =~= list_pairs(
                            spec_stops_key(cmd),
                            Some(strs_view(ss@).take(i as int)),
                        ).push(QueryParamV { key: spec_stops_key(cmd), value: ss@[i as int]@ }));
                        assert(queries_view(queries@) =~= head2 + list_pairs(
                            spec_stops_key(cmd),
                            Some(strs_view(ss@).take(i + 1)),
                        ));
                    }
                    i = i + 1;
                }
                proof {
                    assert(strs_view(ss@).take(ss@.len() as int) =~= strs_view(ss@));
                }
            },
            None => {},
        }
        assert(queries_view(queries@) =~= head2 + list_pairs(spec_stops_key(cmd), self@.stops));
        match &self.time {
            Some(t) => {
                queries.push(
                    QueryParam { key: "t".to_owned(), value: crate::text::usize_to_string(*t) },
                );
            },
            None => {},
        }
        assert(queries_view(queries@) =~= head2 + list_pairs(spec_stops_key(cmd), self@.stops)
            + time_pair(self@.time));
        assert(queries_view(queries@) =~= spec_queries(self@));
        Ok(queries)
    }

    /// Validates the parameter set and, on success, writes the full
    /// request URL: the fixed service address, `?`, and the query
    /// pairs joined with `&`, each written `key=value` with both
    /// sides query-encoded (a space as `+`, bytes outside the safe
    /// set percent-encoded).
    pub fn get_url(&self) -> (r: Result<String, Error>)
        ensures
            spec_valid(self@) ==> (r matches Ok(u) && u@ == spec_url(self@)),
            !spec_valid(self@) ==> r == Err::<String, Error>(Error::BuildUrlError),
    {
        let queries = match self.validate() {
            Ok(q) => q,
            Err(e) => {
                return Err(e);
            },
        };
        let mut url: String = "http://webservices.nextbus.com/service/publicXMLFeed".to_owned();
        assert(url@ == base_url());
        let ghost qv = queries_view(queries@);
        let mut i: usize = 0;
        while i < queries.len()
            invariant
                i <= queries.len(),
                qv == queries_view(queries@),
                url@ == base_url() + spec_query_string(qv.take(i as int)),
            decreases queries.len() - i,
        {
            proof {
                reveal_strlit("?");
                reveal_strlit("&");
                reveal_strlit("=");
            }
            if i == 0 {
                url.append("?");
            } else {
                url.append("&");
            }
            let key = form_encode(queries[i].key.as_str());
            url.append(key.as_str());
            url.append("=");
            let value = form_encode(queries[i].value.as_str());
            url.append(value.as_str());
            proof {
                assert(qv.take(i + 1).drop_last() =~= qv.take(i as int));
                assert(qv.take(i + 1).last() == queries@[i as int]@);
                assert(url@ =~= base_url() + spec_query_string(qv.take(i + 1)));
            }
            i = i + 1;
        }
        assert(qv.take(queries@.len() as int) =~= qv);
        Ok(url)
    }
}

/// The fixed address of the public feed.
pub open spec fn base_url() -> Seq<char> {
    "http://webservices.nextbus.com/service/publicXMLFeed"@
}

/// How one key or value is written into the query string: encoded
/// byte by byte over its UTF-8 form, as `form_encoded` says.
pub open spec fn spec_component(text: Seq<char>) -> Seq<char> {
    form_encoded(encode_utf8(text))
}

/// The query string of an emitted pair sequence: the first pair
/// follows `?`, every later pair follows `&`, and each key and value
/// is written in its encoded form.
pub open spec fn spec_query_string(qs: Seq<QueryParamV>) -> Seq<char>
    decreases qs.len(),
{
    if qs.len() == 0 {
        Seq::empty()
    } else {
        spec_query_string(qs.drop_last()) + (if qs.len() == 1 {
            "?"@
        } else {
            "&"@
        }) + spec_component(qs.last().key) + "="@ + spec_component(qs.last().value)
    }
}

/// The full URL of a valid parameter set.
pub open spec fn spec_url(r: RequestV) -> Seq<char> {
    base_url() + spec_query_string(spec_queries(r))
}

/// Query emission is deterministic and order-stable: the `command`
/// pair always comes first, the `t` pair always comes last when a
/// time is set, and the route and stop pairs keep the order in which
/// their values were supplied.
pub proof fn lemma_query_order(r: RequestV)
    requires
        spec_valid(r),
    ensures
        spec_queries(r).len() >= 1,
        spec_queries(r)[0] == (QueryParamV {
            key: "command"@,
            value: spec_wire_name(r.command->0),
        }),
        r.time matches Some(t) ==> spec_queries(r).last() == (QueryParamV {
            key: "t"@,
            value: crate::text::spec_nat_digits(t as nat),
        }),
        r.routes matches Some(rs) ==> forall|i: int|
            0 <= i < rs.len() ==> spec_queries(r)[route_offset(r) + i] == (QueryParamV {
                key: "r"@,
                value: rs[i],
            }),
        r.stops matches Some(ss) ==> forall|i: int|
            0 <= i < ss.len() ==> spec_queries(r)[stop_offset(r) + i] == (QueryParamV {
                key: spec_stops_key(r.command->0),
                value: ss[i],
            }),
{
    let c = r.command->0;
    let head = seq![QueryParamV { key: "command"@, value: spec_wire_name(c) }];
    let a = opt_pair("a"@, r.agency);
    let rp = list_pairs("r"@, r.routes);
    let sp = list_pairs(spec_stops_key(c), r.stops);
    let tp = time_pair(r.time);
    assert(spec_queries(r) == head + a + rp + sp + tp);
    assert(spec_queries(r)[0] == head[0]);
    if r.time is Some {
        assert(spec_queries(r).last() == tp.last());
    }
    if r.routes is Some {
        let rs = r.routes->0;
        assert forall|i: int| 0 <= i < rs.len() implies spec_queries(r)[route_offset(r) + i]
            == (QueryParamV { key: "r"@, value: rs[i] }) by {
            assert(spec_queries(r)[route_offset(r) + i] == rp[i]);
        }
    }
    if r.stops is Some {
        let ss = r.stops->0;
        assert forall|i: int| 0 <= i < ss.len() implies spec_queries(r)[stop_offset(r) + i]
            == (QueryParamV { key: spec_stops_key(c), value: ss[i] }) by {
            assert(spec_queries(r)[stop_offset(r) + i] == sp[i]);
        }
    }
}

/// Where the route pairs start in the emitted sequence.
pub open spec fn route_offset(r: RequestV) -> int {
    1 + opt_pair("a"@, r.agency).len() as int
}

/// Where the stop pairs start in the emitted sequence.
pub open spec fn stop_offset(r: RequestV) -> int {
    route_offset(r) + list_pairs("r"@, r.routes).len() as int
}

} // verus!

