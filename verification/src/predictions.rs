//! The predictions aggregate and its decoder: a flat attribute block
//! (possibly repeated, later occurrences overriding the fields they
//! carry), `direction` scopes whose nested `prediction` elements are
//! collected by a dedicated sub-loop up to the matching end tag, and
//! flat `message` elements.

use vstd::prelude::*;

use crate::error::Error;
use crate::events::{
    attr_lookup, attrs_view, collect_events, doc_events, events_view, find_attr, opt_bool_attr, opt_bool_of,
    opt_view, override_opt, req_bool, req_bool_of, req_usize, req_usize_of, Attr, AttrV, Event,
    EventV,
};
use crate::text::eq_str;

verus! {

/// One vehicle arrival or departure prediction.
#[derive(Debug, PartialEq)]
pub struct Prediction {
    pub seconds: usize,
    pub minutes: usize,
    pub epoch_time: usize,
    pub is_departure: bool,
    pub block: String,
    pub dir_tag: String,
    pub trip_tag: Option<String>,
    pub branch: Option<String>,
    pub affected_by_layover: Option<bool>,
    pub is_schedule_based: Option<bool>,
    pub delayed: Option<bool>,
}

pub ghost struct PredictionV {
    pub seconds: usize,
    pub minutes: usize,
    pub epoch_time: usize,
    pub is_departure: bool,
    pub block: Seq<char>,
    pub dir_tag: Seq<char>,
    pub trip_tag: Option<Seq<char>>,
    pub branch: Option<Seq<char>>,
    pub affected_by_layover: Option<bool>,
    pub is_schedule_based: Option<bool>,
    pub delayed: Option<bool>,
}

impl View for Prediction {
    type V = PredictionV;

    open spec fn view(&self) -> PredictionV {
        PredictionV {
            seconds: self.seconds,
            minutes: self.minutes,
            epoch_time: self.epoch_time,
            is_departure: self.is_departure,
            block: self.block@,
            dir_tag: self.dir_tag@,
            trip_tag: opt_view(self.trip_tag),
            branch: opt_view(self.branch),
            affected_by_layover: self.affected_by_layover,
            is_schedule_based: self.is_schedule_based,
            delayed: self.delayed,
        }
    }
}

impl Prediction {
    pub fn new(
        seconds: usize,
        minutes: usize,
        epoch_time: usize,
        is_departure: bool,
        block: String,
        dir_tag: String,
        trip_tag: Option<String>,
        branch: Option<String>,
        affected_by_layover: Option<bool>,
        is_schedule_based: Option<bool>,
        delayed: Option<bool>,
    ) -> (r: Prediction)
        ensures
            r.seconds == seconds,
            r.minutes == minutes,
            r.epoch_time == epoch_time,
            r.is_departure == is_departure,
            r.block == block,
            r.dir_tag == dir_tag,
            r.trip_tag == trip_tag,
            r.branch == branch,
            r.affected_by_layover == affected_by_layover,
            r.is_schedule_based == is_schedule_based,
            r.delayed == delayed,
    {
        Prediction {
            seconds,
            minutes,
            epoch_time,
            is_departure,
            block,
            dir_tag,
            trip_tag,
            branch,
            affected_by_layover,
            is_schedule_based,
            delayed,
        }
    }
}

/// One direction block of a predictions response: a title and the
/// predictions nested under it.
#[derive(Debug, PartialEq)]
pub struct Direction {
    pub title: String,
    pub predictions: Vec<Prediction>,
}

pub ghost struct DirectionV {
    pub title: Seq<char>,
    pub predictions: Seq<PredictionV>,
}

pub open spec fn preds_view(s: Seq<Prediction>) -> Seq<PredictionV> {
    s.map_values(|p: Prediction| p@)
}

impl View for Direction {
    type V = DirectionV;

    open spec fn view(&self) -> DirectionV {
        DirectionV { title: self.title@, predictions: preds_view(self.predictions@) }
    }
}

impl Direction {
    pub fn new(title: String, predictions: Vec<Prediction>) -> (r: Direction)
        ensures
            r.title == title,
            r.predictions == predictions,
    {
        Direction { title, predictions }
    }
}

/// One rider message attached to a predictions response.
#[derive(Debug, PartialEq)]
pub struct Message {
    pub text: String,
    pub priority: Option<String>,
}

pub ghost struct MessageV {
    pub text: Seq<char>,
    pub priority: Option<Seq<char>>,
}

impl View for Message {
    type V = MessageV;

    open spec fn view(&self) -> MessageV {
        MessageV { text: self.text@, priority: opt_view(self.priority) }
    }
}

impl Message {
    pub fn new(text: String, priority: Option<String>) -> (r: Message)
        ensures
            r.text == text,
            r.priority == priority,
    {
        Message { text, priority }
    }
}

/// The decoded predictions aggregate for one stop of one route.
#[derive(Debug, PartialEq)]
pub struct Predictions {
    pub agency_title: String,
    pub route_tag: String,
    pub route_code: Option<String>,
    pub route_title: String,
    pub stop_title: String,
    pub dir_title_because_no_predictions: Option<String>,
    pub directions: Vec<Direction>,
    pub messages: Vec<Message>,
}

pub ghost struct PredictionsV {
    pub agency_title: Seq<char>,
    pub route_tag: Seq<char>,
    pub route_code: Option<Seq<char>>,
    pub route_title: Seq<char>,
    pub stop_title: Seq<char>,
    pub dir_title_because_no_predictions: Option<Seq<char>>,
    pub directions: Seq<DirectionV>,
    pub messages: Seq<MessageV>,
}

pub open spec fn dirs_view(s: Seq<Direction>) -> Seq<DirectionV> {
    s.map_values(|d: Direction| d@)
}

pub open spec fn msgs_view(s: Seq<Message>) -> Seq<MessageV> {
    s.map_values(|m: Message| m@)
}

impl View for Predictions {
    type V = PredictionsV;

    open spec fn view(&self) -> PredictionsV {
        PredictionsV {
            agency_title: self.agency_title@,
            route_tag: self.route_tag@,
            route_code: opt_view(self.route_code),
            route_title: self.route_title@,
            stop_title: self.stop_title@,
            dir_title_because_no_predictions: opt_view(self.dir_title_because_no_predictions),
            directions: dirs_view(self.directions@),
            messages: msgs_view(self.messages@),
        }
    }
}

impl Predictions {
    pub fn new(
        agency_title: String,
        route_tag: String,
        route_code: Option<String>,
        route_title: String,
        stop_title: String,
        dir_title_because_no_predictions: Option<String>,
        directions: Vec<Direction>,
        messages: Vec<Message>,
    ) -> (r: Predictions)
        ensures
            r.agency_title == agency_title,
            r.route_tag == route_tag,
            r.route_code == route_code,
            r.route_title == route_title,
            r.stop_title == stop_title,
            r.dir_title_because_no_predictions == dir_title_because_no_predictions,
            r.directions == directions,
            r.messages == messages,
    {
        Predictions {
            agency_title,
            route_tag,
            route_code,
            route_title,
            stop_title,
            dir_title_because_no_predictions,
            directions,
            messages,
        }
    }
}

/// The prediction record of an element's attributes.  The numeric and
/// boolean fields fail the decode when malformed, even the optional
/// ones; unknown attributes are ignored.
pub open spec fn prediction_of_attrs(attrs: Seq<AttrV>) -> Option<PredictionV> {
    if req_usize(attrs, "seconds"@) is Some && req_usize(attrs, "minutes"@) is Some && req_usize(
        attrs,
        "epochTime"@,
    ) is Some && req_bool(attrs, "isDeparture"@) is Some && attr_lookup(attrs, "block"@) is Some
        && attr_lookup(attrs, "dirTag"@) is Some && opt_bool_attr(attrs, "affecteByLayover"@)
        is Some && opt_bool_attr(attrs, "isScheduleBased"@) is Some && opt_bool_attr(
        attrs,
        "delayed"@,
    ) is Some {
        Some(
            PredictionV {
                seconds: req_usize(attrs, "seconds"@)->0,
                minutes: req_usize(attrs, "minutes"@)->0,
                epoch_time: req_usize(attrs, "epochTime"@)->0,
                is_departure: req_bool(attrs, "isDeparture"@)->0,
                block: attr_lookup(attrs, "block"@)->0,
                dir_tag: attr_lookup(attrs, "dirTag"@)->0,
                trip_tag: attr_lookup(attrs, "tripTag"@),
                branch: attr_lookup(attrs, "branch"@),
                affected_by_layover: opt_bool_attr(attrs, "affecteByLayover"@)->0,
                is_schedule_based: opt_bool_attr(attrs, "isScheduleBased"@)->0,
                delayed: opt_bool_attr(attrs, "delayed"@)->0,
            },
        )
    } else {
        None
    }
}

/// The message record of an element's attributes: `text` required,
/// `priority` optional.
pub open spec fn message_of_attrs(attrs: Seq<AttrV>) -> Option<MessageV> {
    match attr_lookup(attrs, "text"@) {
        None => None,
        Some(t) => Some(MessageV { text: t, priority: attr_lookup(attrs, "priority"@) }),
    }
}

/// The direction record of its element's attributes and its nested
/// predictions: `title` is required.
pub open spec fn pdirection_of(attrs: Seq<AttrV>, preds: Seq<PredictionV>) -> Option<DirectionV> {
    match attr_lookup(attrs, "title"@) {
        None => None,
        Some(t) => Some(DirectionV { title: t, predictions: preds }),
    }
}

/// Scans the nested predictions of one direction scope, from just
/// after the `direction` start up to its matching end tag, returning
/// them with the position just past the end tag.  Running out of
/// events before the end tag is a decode failure.
pub open spec fn scan_predictions(events: Seq<EventV>, i: int) -> Option<(Seq<PredictionV>, int)>
    decreases events.len() - i,
{
    if i < 0 || i >= events.len() {
        None
    } else {
        match events[i] {
            EventV::Start { name, attributes } => {
                if name == "prediction"@ {
                    match prediction_of_attrs(attributes) {
                        None => None,
                        Some(p) => match scan_predictions(events, i + 1) {
                            None => None,
                            Some((rest, j)) => Some((seq![p] + rest, j)),
                        },
                    }
                } else {
                    scan_predictions(events, i + 1)
                }
            },
            EventV::End { name } => {
                if name == "direction"@ {
                    Some((Seq::empty(), i + 1))
                } else {
                    scan_predictions(events, i + 1)
                }
            },
            EventV::SyntaxError => None,
            _ => scan_predictions(events, i + 1),
        }
    }
}

/// The attribute block of the `predictions` element, accumulated
/// across its occurrences: each occurrence overrides exactly the
/// fields it carries.
pub struct PredAttrs {
    pub agency_title: Option<String>,
    pub route_tag: Option<String>,
    pub route_code: Option<String>,
    pub route_title: Option<String>,
    pub stop_title: Option<String>,
    pub dir_title_because_no_predictions: Option<String>,
}

pub ghost struct PredAttrsV {
    pub agency_title: Option<Seq<char>>,
    pub route_tag: Option<Seq<char>>,
    pub route_code: Option<Seq<char>>,
    pub route_title: Option<Seq<char>>,
    pub stop_title: Option<Seq<char>>,
    pub dir_title_because_no_predictions: Option<Seq<char>>,
}

impl View for PredAttrs {
    type V = PredAttrsV;

    open spec fn view(&self) -> PredAttrsV {
        PredAttrsV {
            agency_title: opt_view(self.agency_title),
            route_tag: opt_view(self.route_tag),
            route_code: opt_view(self.route_code),
            route_title: opt_view(self.route_title),
            stop_title: opt_view(self.stop_title),
            dir_title_because_no_predictions: opt_view(self.dir_title_because_no_predictions),
        }
    }
}

pub open spec fn empty_pred_attrs() -> PredAttrsV {
    PredAttrsV {
        agency_title: None,
        route_tag: None,
        route_code: None,
        route_title: None,
        stop_title: None,
        dir_title_because_no_predictions: None,
    }
}

pub open spec fn merge_pred_attrs(acc: PredAttrsV, attrs: Seq<AttrV>) -> PredAttrsV {
    PredAttrsV {
        agency_title: override_opt(attr_lookup(attrs, "agencyTitle"@), acc.agency_title),
        route_tag: override_opt(attr_lookup(attrs, "routeTag"@), acc.route_tag),
        route_code: override_opt(attr_lookup(attrs, "routeCode"@), acc.route_code),
        route_title: override_opt(attr_lookup(attrs, "routeTitle"@), acc.route_title),
        stop_title: override_opt(attr_lookup(attrs, "stopTitle"@), acc.stop_title),
        dir_title_because_no_predictions: override_opt(
            attr_lookup(attrs, "dirTitleBecauseNoPredictions"@),
            acc.dir_title_because_no_predictions,
        ),
    }
}

/// Walks the whole predictions document from position `i` with the
/// attribute block accumulated so far, collecting the direction and
/// message records in document order.
pub open spec fn scan_pred_doc(events: Seq<EventV>, i: int, acc: PredAttrsV) -> Option<
    (PredAttrsV, Seq<DirectionV>, Seq<MessageV>),
>
    decreases events.len() - i,
{
    if i < 0 || i >= events.len() {
        Some((acc, Seq::empty(), Seq::empty()))
    } else {
        match events[i] {
            EventV::Start { name, attributes } => {
                if name == "predictions"@ {
                    scan_pred_doc(events, i + 1, merge_pred_attrs(acc, attributes))
                } else if name == "direction"@ {
                    match scan_predictions(events, i + 1) {
                        None => None,
                        Some((preds, j)) => {
                            if i < j <= events.len() {
                                match pdirection_of(attributes, preds) {
                                    None => None,
                                    Some(d) => match scan_pred_doc(events, j, acc) {
                                        None => None,
                                        Some((a2, dirs, msgs)) => Some((a2, seq![d] + dirs, msgs)),
                                    },
                                }
                            } else {
                                None
                            }
                        },
                    }
                } else if name == "message"@ {
                    match message_of_attrs(attributes) {
                        None => None,
                        Some(m) => match scan_pred_doc(events, i + 1, acc) {
                            None => None,
                            Some((a2, dirs, msgs)) => Some((a2, dirs, seq![m] + msgs)),
                        },
                    }
                } else {
                    scan_pred_doc(events, i + 1, acc)
                }
            },
            EventV::SyntaxError => None,
            EventV::DocumentEnd => Some((acc, Seq::empty(), Seq::empty())),
            _ => scan_pred_doc(events, i + 1, acc),
        }
    }
}

/// The finished aggregate of the accumulated attribute block and the
/// collected children: the four title and tag fields are required.
pub open spec fn finalize_predictions(
    a: PredAttrsV,
    dirs: Seq<DirectionV>,
    msgs: Seq<MessageV>,
) -> Option<PredictionsV> {
    if a.agency_title is Some && a.route_tag is Some && a.route_title is Some && a.stop_title
        is Some {
        Some(
            PredictionsV {
                agency_title: a.agency_title->0,
                route_tag: a.route_tag->0,
                route_code: a.route_code,
                route_title: a.route_title->0,
                stop_title: a.stop_title->0,
                dir_title_because_no_predictions: a.dir_title_because_no_predictions,
                directions: dirs,
                messages: msgs,
            },
        )
    } else {
        None
    }
}

/// The aggregate of a whole predictions document.
pub open spec fn spec_decode_predictions(events: Seq<EventV>) -> Option<PredictionsV> {
    match scan_pred_doc(events, 0, empty_pred_attrs()) {
        None => None,
        Some((a, dirs, msgs)) => finalize_predictions(a, dirs, msgs),
    }
}

/// Builds one prediction record from an element's attributes.
fn prediction_of(attrs: &Vec<Attr>) -> (r: Result<Prediction, Error>)
    ensures
        match r {
            Ok(p) => prediction_of_attrs(attrs_view(attrs@)) == Some(p@),
            Err(e) => prediction_of_attrs(attrs_view(attrs@)) is None && e == Error::ParseError,
        },
{
    let seconds = match req_usize_of(attrs, "seconds") {
        Ok(n) => n,
        Err(e) => {
            return Err(e);
        },
    };
    let minutes = match req_usize_of(attrs, "minutes") {
        Ok(n) => n,
        Err(e) => {
            return Err(e);
        },
    };
    let epoch_time = match req_usize_of(attrs, "epochTime") {
        Ok(n) => n,
        Err(e) => {
            return Err(e);
        },
    };
    let is_departure = match req_bool_of(attrs, "isDeparture") {
        Ok(b) => b,
        Err(e) => {
            return Err(e);
        },
    };
    let block = match find_attr(attrs, "block") {
        Some(v) => v,
        None => {
            return Err(Error::ParseError);
        },
    };
    let dir_tag = match find_attr(attrs, "dirTag") {
        Some(v) => v,
        None => {
            return Err(Error::ParseError);
        },
    };
    let affected_by_layover = match opt_bool_of(attrs, "affecteByLayover") {
        Ok(o) => o,
        Err(e) => {
            return Err(e);
        },
    };
    let is_schedule_based = match opt_bool_of(attrs, "isScheduleBased") {
        Ok(o) => o,
        Err(e) => {
            return Err(e);
        },
    };
    let delayed = match opt_bool_of(attrs, "delayed") {
        Ok(o) => o,
        Err(e) => {
            return Err(e);
        },
    };
    let trip_tag = find_attr(attrs, "tripTag");
    let branch = find_attr(attrs, "branch");
    Ok(
        Prediction {
            seconds,
            minutes,
            epoch_time,
            is_departure,
            block,
            dir_tag,
            trip_tag,
            branch,
            affected_by_layover,
            is_schedule_based,
            delayed,
        },
    )
}

/// Builds one message record from an element's attributes.
fn message_of(attrs: &Vec<Attr>) -> (r: Result<Message, Error>)
    ensures
        match r {
            Ok(m) => message_of_attrs(attrs_view(attrs@)) == Some(m@),
            Err(e) => message_of_attrs(attrs_view(attrs@)) is None && e == Error::ParseError,
        },
{
    let priority = find_attr(attrs, "priority");
    match find_attr(attrs, "text") {
        Some(text) => Ok(Message { text, priority }),
        None => Err(Error::ParseError),
    }
}

/// Folds one `predictions` element's attributes into the block
/// accumulated so far.
fn merge_attrs(acc: PredAttrs, attrs: &Vec<Attr>) -> (r: PredAttrs)
    ensures
        r@ == merge_pred_attrs(acc@, attrs_view(attrs@)),
{
    let agency_title = match find_attr(attrs, "agencyTitle") {
        Some(v) => Some(v),
        None => acc.agency_title,
    };
    let route_tag = match find_attr(attrs, "routeTag") {
        Some(v) => Some(v),
        None => acc.route_tag,
    };
    let route_code = match find_attr(attrs, "routeCode") {
        Some(v) => Some(v),
        None => acc.route_code,
    };
    let route_title = match find_attr(attrs, "routeTitle") {
        Some(v) => Some(v),
        None => acc.route_title,
    };
    let stop_title = match find_attr(attrs, "stopTitle") {
        Some(v) => Some(v),
        None => acc.stop_title,
    };
    let dir_title_because_no_predictions = match find_attr(attrs, "dirTitleBecauseNoPredictions") {
        Some(v) => Some(v),
        None => acc.dir_title_because_no_predictions,
    };
    PredAttrs {
        agency_title,
        route_tag,
        route_code,
        route_title,
        stop_title,
        dir_title_because_no_predictions,
    }
}

/// Collects the nested predictions of one direction scope, from just
/// after the `direction` start up to its matching end tag.
#[verifier::loop_isolation(false)]
fn parse_predictions_list(events: &Vec<Event>, start: usize) -> (r: Result<
    (Vec<Prediction>, usize),
    Error,
>)
    ensures
        match r {
            Ok((ps, j)) => scan_predictions(events_view(events@), start as int) == Some(
                (preds_view(ps@), j as int),
            ) && start < j <= events.len(),
            Err(e) => scan_predictions(events_view(events@), start as int) is None && e
                == Error::ParseError,
        },
{
    let ghost ev = events_view(events@);
    if start >= events.len() {
        return Err(Error::ParseError);
    }
    let mut ps: Vec<Prediction> = Vec::new();
    let mut i: usize = start;
    while i < events.len()
        invariant
            start <= i <= events.len(),
            scan_predictions(ev, start as int) == match scan_predictions(ev, i as int) {
                None => None::<(Seq<PredictionV>, int)>,
                Some((rest, j)) => Some((preds_view(ps@) + rest, j)),
            },
        decreases events.len() - i,
    {
        assert(ev[i as int] == events@[i as int]@);
        match &events[i] {
            Event::Start { name, attributes } => {
                if eq_str(name, "prediction") {
                    match prediction_of(attributes) {
                        Ok(p) => {
                            let ghost pre = preds_view(ps@);
                            ps.push(p);
                            proof {
                                assert(preds_view(ps@) =~= pre.push(p@));
                                if scan_predictions(ev, i + 1) is Some {
                                    let (rest, j) = scan_predictions(ev, i + 1)->0;
                                    assert(pre + (seq![p@] + rest) =~= pre.push(p@) + rest);
                                }
                            }
                        },
                        Err(_) => {
                            return Err(Error::ParseError);
                        },
                    }
                }
            },
            Event::End { name } => {
                if eq_str(name, "direction") {
                    proof {
                        assert(scan_predictions(ev, i as int) == Some(
                            (Seq::<PredictionV>::empty(), i + 1),
                        ));
                        assert(preds_view(ps@) + Seq::<PredictionV>::empty() =~= preds_view(ps@));
                    }
                    return Ok((ps, i + 1));
                }
            },
            Event::SyntaxError => {
                return Err(Error::ParseError);
            },
            _ => {},
        }
        i = i + 1;
    }
    Err(Error::ParseError)
}

/// Builds a request for the predictions of one stop of one route and
/// decodes its response.
pub struct PredictionsBuilder {
    pub agency: Option<String>,
    pub route: Option<String>,
    pub stop: Option<String>,
}

impl PredictionsBuilder {
    pub fn new() -> (r: PredictionsBuilder)
        ensures
            r.agency is None,
            r.route is None,
            r.stop is None,
    {
        PredictionsBuilder { agency: None, route: None, stop: None }
    }

    /// Chooses the agency.  The last invocation wins.
    pub fn agency(self, agency: String) -> (r: PredictionsBuilder)
        ensures
            r.agency == Some(agency),
            r.route == self.route,
            r.stop == self.stop,
    {
        PredictionsBuilder { agency: Some(agency), ..self }
    }

    /// Chooses the route.  The last invocation wins.
    pub fn route(self, route: String) -> (r: PredictionsBuilder)
        ensures
            r.agency == self.agency,
            r.route == Some(route),
            r.stop == self.stop,
    {
        PredictionsBuilder { route: Some(route), ..self }
    }

    /// Chooses the stop.  The last invocation wins.
    pub fn stop(self, stop: String) -> (r: PredictionsBuilder)
        ensures
            r.agency == self.agency,
            r.route == self.route,
            r.stop == Some(stop),
    {
        PredictionsBuilder { stop: Some(stop), ..self }
    }

    /// Runs the predictions command as far as this library reaches:
    /// the required inputs are checked first, and the call then
    /// reports a transport failure, because the network transport
    /// belongs to the caller (it owns the fetch and hands the
    /// response text to `from_xml`).
    pub fn get(&self) -> (r: Result<Predictions, Error>)
        ensures
            (self.agency is None || self.route is None || self.stop is None) ==> r == Err::<
                Predictions,
                Error,
            >(Error::BuildCommandError),
            !(self.agency is None || self.route is None || self.stop is None) ==> (r matches Err(e)
                && e matches Error::HttpError(m) && m@ == "no transport is configured"@),
    {
        if self.agency.is_none() || self.route.is_none() || self.stop.is_none() {
            return Err(Error::BuildCommandError);
        }
        Err(Error::HttpError("no transport is configured".to_owned()))
    }

    /// Decodes a predictions document from its text: the text is
    /// tokenized (leading whitespace stripped, since the feed pads
    /// its documents) and the events are decoded.  The result is
    /// pinned to the decode of the text's own event stream.
    pub fn from_xml(input: &str) -> (r: Result<Predictions, Error>)
        ensures
            match r {
                Ok(p) => spec_decode_predictions(doc_events(input@)) == Some(p@),
                Err(e) => spec_decode_predictions(doc_events(input@)) is None && e == Error::ParseError,
            },
    {
        let events = collect_events(input);
        Self::decode_events(&events)
    }

    /// Decodes a predictions document from its structural events.
    #[verifier::loop_isolation(false)]
    pub fn decode_events(events: &Vec<Event>) -> (r: Result<Predictions, Error>)
        ensures
            match r {
                Ok(p) => spec_decode_predictions(events_view(events@)) == Some(p@),
                Err(e) => spec_decode_predictions(events_view(events@)) is None && e
                    == Error::ParseError,
            },
    {
        let ghost ev = events_view(events@);
        let mut acc = PredAttrs {
            agency_title: None,
            route_tag: None,
            route_code: None,
            route_title: None,
            stop_title: None,
            dir_title_because_no_predictions: None,
        };
        assert(acc@ == empty_pred_attrs());
        let mut directions: Vec<Direction> = Vec::new();
        let mut messages: Vec<Message> = Vec::new();
        let mut i: usize = 0;
        while i < events.len()
            invariant
                i <= events.len(),
                scan_pred_doc(ev, 0, empty_pred_attrs()) == match scan_pred_doc(
                    ev,
                    i as int,
                    acc@,
                ) {
                    None => None::<(PredAttrsV, Seq<DirectionV>, Seq<MessageV>)>,
                    Some((a, dirs, msgs)) => Some(
                        (a, dirs_view(directions@) + dirs, msgs_view(messages@) + msgs),
                    ),
                },
            decreases events.len() - i,
        {
            assert(ev[i as int] == events@[i as int]@);
            match &events[i] {
                Event::Start { name, attributes } => {
                    if eq_str(name, "predictions") {
                        acc = merge_attrs(acc, attributes);
                        i = i + 1;
                    } else if eq_str(name, "direction") {
                        let (preds, j) = match parse_predictions_list(events, i + 1) {
                            Ok(pj) => pj,
                            Err(_) => {
                                return Err(Error::ParseError);
                            },
                        };
                        let title = match find_attr(attributes, "title") {
                            Some(t) => t,
                            None => {
                                return Err(Error::ParseError);
                            },
                        };
                        let d = Direction { title, predictions: preds };
                        let ghost pre = dirs_view(directions@);
                        directions.push(d);
                        proof {
                            assert(dirs_view(directions@) =~= pre.push(d@));
                            if scan_pred_doc(ev, j as int, acc@) is Some {
                                let (a2, dirs, msgs) = scan_pred_doc(ev, j as int, acc@)->0;
                                assert(pre + (seq![d@] + dirs) =~= pre.push(d@) + dirs);
                            }
                        }
                        i = j;
                    } else if eq_str(name, "message") {
                        let m = match message_of(attributes) {
                            Ok(m) => m,
                            Err(_) => {
                                return Err(Error::ParseError);
                            },
                        };
                        let ghost pre = msgs_view(messages@);
                        messages.push(m);
                        proof {
                            assert(msgs_view(messages@) =~= pre.push(m@));
                            if scan_pred_doc(ev, i + 1, acc@) is Some {
                                let (a2, dirs, msgs2) = scan_pred_doc(ev, i + 1, acc@)->0;
                                assert(pre + (seq![m@] + msgs2) =~= pre.push(m@) + msgs2);
                            }
                        }
                        i = i + 1;
                    } else {
                        i = i + 1;
                    }
                },
                Event::SyntaxError => {
                    return Err(Error::ParseError);
                },
                Event::DocumentEnd => {
                    proof {
                        assert(scan_pred_doc(ev, i as int, acc@) == Some(
                            (acc@, Seq::<DirectionV>::empty(), Seq::<MessageV>::empty()),
                        ));
                        assert(dirs_view(directions@) + Seq::<DirectionV>::empty() =~= dirs_view(
                            directions@,
                        ));
                        assert(msgs_view(messages@) + Seq::<MessageV>::empty() =~= msgs_view(
                            messages@,
                        ));
                    }
                    return Self::finalize(acc, directions, messages);
                },
                _ => {
                    i = i + 1;
                },
            }
        }
        proof {
            assert(scan_pred_doc(ev, i as int, acc@) == Some(
                (acc@, Seq::<DirectionV>::empty(), Seq::<MessageV>::empty()),
            ));
            assert(dirs_view(directions@) + Seq::<DirectionV>::empty() =~= dirs_view(directions@));
            assert(msgs_view(messages@) + Seq::<MessageV>::empty() =~= msgs_view(messages@));
        }
        Self::finalize(acc, directions, messages)
    }

    /// Finishes the aggregate once the walk is done: the four title
    /// and tag fields must have been seen.
    fn finalize(acc: PredAttrs, directions: Vec<Direction>, messages: Vec<Message>) -> (r: Result<
        Predictions,
        Error,
    >)
        ensures
            match r {
                Ok(p) => finalize_predictions(acc@, dirs_view(directions@), msgs_view(messages@))
                    == Some(p@),
                Err(e) => finalize_predictions(
                    acc@,
                    dirs_view(directions@),
                    msgs_view(messages@),
                ) is None && e == Error::ParseError,
            },
    {
        match (acc.agency_title, acc.route_tag, acc.route_title, acc.stop_title) {
            (Some(agency_title), Some(route_tag), Some(route_title), Some(stop_title)) => Ok(
                Predictions {
                    agency_title,
                    route_tag,
                    route_code: acc.route_code,
                    route_title,
                    stop_title,
                    dir_title_because_no_predictions: acc.dir_title_because_no_predictions,
                    directions,
                    messages,
                },
            ),
            _ => Err(Error::ParseError),
        }
    }
}

/// The events of a predictions document holding one direction with
/// two predictions and one message: the canonical shape of the
/// counting law below.
pub open spec fn predictions_shape_events(
    pattrs: Seq<AttrV>,
    dattrs: Seq<AttrV>,
    a1: Seq<AttrV>,
    a2: Seq<AttrV>,
    mattrs: Seq<AttrV>,
) -> Seq<EventV> {
    seq![
        EventV::Start { name: "predictions"@, attributes: pattrs },
        EventV::Start { name: "direction"@, attributes: dattrs },
        EventV::Start { name: "prediction"@, attributes: a1 },
        EventV::Start { name: "prediction"@, attributes: a2 },
        EventV::End { name: "direction"@ },
        EventV::Start { name: "message"@, attributes: mattrs },
    ]
}

/// Decoding a predictions document holding one `direction` with two
/// nested `prediction` elements and one `message` yields exactly one
/// direction with exactly those two predictions in order, and
/// exactly that one message — for every choice of well-formed
/// attribute lists.
pub proof fn lemma_predictions_counts(
    pattrs: Seq<AttrV>,
    dattrs: Seq<AttrV>,
    a1: Seq<AttrV>,
    a2: Seq<AttrV>,
    mattrs: Seq<AttrV>,
)
    requires
        merge_pred_attrs(empty_pred_attrs(), pattrs).agency_title is Some,
        merge_pred_attrs(empty_pred_attrs(), pattrs).route_tag is Some,
        merge_pred_attrs(empty_pred_attrs(), pattrs).route_title is Some,
        merge_pred_attrs(empty_pred_attrs(), pattrs).stop_title is Some,
        attr_lookup(dattrs, "title"@) is Some,
        prediction_of_attrs(a1) is Some,
        prediction_of_attrs(a2) is Some,
        message_of_attrs(mattrs) is Some,
    ensures
        spec_decode_predictions(predictions_shape_events(pattrs, dattrs, a1, a2, mattrs)) matches Some(
            p,
        ) && p.directions.len() == 1 && p.directions[0].predictions.len() == 2 && p.messages.len()
            == 1 && p.directions[0] == (DirectionV {
            title: attr_lookup(dattrs, "title"@)->0,
            predictions: seq![prediction_of_attrs(a1)->0, prediction_of_attrs(a2)->0],
        }) && p.messages[0] == message_of_attrs(mattrs)->0,
{
    reveal_strlit("predictions");
    reveal_strlit("direction");
    reveal_strlit("prediction");
    reveal_strlit("message");
    let ev = predictions_shape_events(pattrs, dattrs, a1, a2, mattrs);
    let acc = merge_pred_attrs(empty_pred_attrs(), pattrs);
    let p1 = prediction_of_attrs(a1)->0;
    let p2 = prediction_of_attrs(a2)->0;
    let m = message_of_attrs(mattrs)->0;
    assert("message"@.len() == 7);
    assert("predictions"@.len() == 11);
    assert("direction"@.len() == 9);
    assert(ev.len() == 6);
    assert(scan_predictions(ev, 4) == Some((Seq::<PredictionV>::empty(), 5int)));
    assert(scan_predictions(ev, 3) == Some((seq![p2], 5int)));
    assert(scan_predictions(ev, 2) == Some((seq![p1, p2], 5int))) by {
        assert(seq![p1] + seq![p2] =~= seq![p1, p2]);
    }
    assert(scan_pred_doc(ev, 6, acc) == Some(
        (acc, Seq::<DirectionV>::empty(), Seq::<MessageV>::empty()),
    ));
    assert(scan_pred_doc(ev, 5, acc) == Some(
        (acc, Seq::<DirectionV>::empty(), seq![m]),
    )) by {
        assert(seq![m] + Seq::<MessageV>::empty() =~= seq![m]);
    }
    let d = DirectionV { title: attr_lookup(dattrs, "title"@)->0, predictions: seq![p1, p2] };
    assert(scan_pred_doc(ev, 1, acc) == Some((acc, seq![d], seq![m]))) by {
        assert(pdirection_of(dattrs, seq![p1, p2]) == Some(d));
        assert(seq![d] + Seq::<DirectionV>::empty() =~= seq![d]);
    }
    assert(scan_pred_doc(ev, 0, empty_pred_attrs()) == Some((acc, seq![d], seq![m])));
}

/// Decoding is a pure function of the event sequence: equal event
/// streams always yield the same aggregate, with no hidden state
/// entering the decode.
pub proof fn lemma_decode_predictions_deterministic(e1: Seq<EventV>, e2: Seq<EventV>)
    requires
        e1 == e2,
    ensures
        spec_decode_predictions(e1) == spec_decode_predictions(e2),
{
}

} // verus!
