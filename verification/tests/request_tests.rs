use nextbus::request::{Command, Request};
use nextbus::Error;
use nextbus::NextBus;

#[test]
fn builds_agency_list() {
    let res_url = Request::new().command(Command::AgencyList).get_url().unwrap();
    let url = "http://webservices.nextbus.com/service/publicXMLFeed?command=agencyList";
    assert_eq!(res_url, url);
}

#[test]
fn builds_routes_list() {
    let res_url = Request::new()
        .command(Command::RouteList)
        .agency("test_agency".to_string())
        .get_url()
        .unwrap();
    let url = "http://webservices.nextbus.com/service/publicXMLFeed?command=routeList&a=test_agency";
    assert_eq!(res_url, url);
}

#[test]
fn builds_route_config() {
    // for one route
    let res_url = Request::new()
        .command(Command::RouteConfig)
        .agency("test_agency".to_string())
        .route("one".to_string())
        .get_url()
        .unwrap();
    let url =
        "http://webservices.nextbus.com/service/publicXMLFeed?command=routeConfig&a=test_agency&r=one";
    assert_eq!(res_url, url);

    // for many routes
    let res_url = Request::new()
        .command(Command::RouteConfig)
        .agency("test_agency".to_string())
        .get_url()
        .unwrap();
    let url = "http://webservices.nextbus.com/service/publicXMLFeed?command=routeConfig&a=test_agency";
    assert_eq!(res_url, url);
}

#[test]
fn builds_predictions() {
    let res_url = Request::new()
        .command(Command::Predictions)
        .agency("test_agency".to_string())
        .route("one".to_string())
        .stop("stop_1".to_string())
        .get_url()
        .unwrap();
    let url =
        "http://webservices.nextbus.com/service/publicXMLFeed?command=predictions&a=test_agency&r=one&s=stop_1";
    assert_eq!(res_url, url);
}

#[test]
fn builds_predictions_for_multi_stops() {
    //normal
    let res_url = Request::new()
        .command(Command::PredictionsForMultiStops)
        .agency("test_agency".to_string())
        .stop("stop_1".to_string())
        .add_stop("stop_2".to_string())
        .get_url()
        .unwrap();
    let url = "http://webservices.nextbus.com/service/publicXMLFeed?command=predictionsForMultiStops&a=test_agency&stops=stop_1&stops=stop_2";
    assert_eq!(res_url, url);

    // using add_stop first
    let res_url = Request::new()
        .command(Command::PredictionsForMultiStops)
        .agency("test_agency".to_string())
        .add_stop("stop_1".to_string())
        .add_stop("stop_2".to_string())
        .get_url()
        .unwrap();
    let url = "http://webservices.nextbus.com/service/publicXMLFeed?command=predictionsForMultiStops&a=test_agency&stops=stop_1&stops=stop_2";
    assert_eq!(res_url, url);
}

#[test]
fn builds_schedule() {
    let res_url = Request::new()
        .command(Command::Schedule)
        .agency("test_agency".to_string())
        .route("one".to_string())
        .get_url()
        .unwrap();
    let url =
        "http://webservices.nextbus.com/service/publicXMLFeed?command=schedule&a=test_agency&r=one";
    assert_eq!(res_url, url);
}

#[test]
fn builds_messages() {
    //normal, one route
    let res_url = Request::new()
        .command(Command::Messages)
        .agency("test_agency".to_string())
        .route("one".to_string())
        .get_url()
        .unwrap();
    let url =
        "http://webservices.nextbus.com/service/publicXMLFeed?command=messages&a=test_agency&r=one";
    assert_eq!(res_url, url);

    // multiple routes
    let res_url = Request::new()
        .command(Command::Messages)
        .agency("test_agency".to_string())
        .route("one".to_string())
        .add_route("two".to_string())
        .get_url()
        .unwrap();
    let url = "http://webservices.nextbus.com/service/publicXMLFeed?command=messages&a=test_agency&r=one&r=two";
    assert_eq!(res_url, url);
}

#[test]
fn builds_vehicle_locations() {
    let res_url = Request::new()
        .command(Command::VehicleLocations)
        .agency("test_agency".to_string())
        .route("one".to_string())
        .time(0)
        .get_url()
        .unwrap();
    let url = "http://webservices.nextbus.com/service/publicXMLFeed?command=vehicleLocations&a=test_agency&r=one&t=0";
    assert_eq!(res_url, url);
}

// The entry point hands out the builders.
#[test]
fn entry_point_hands_out_builders() {
    let route_builder = NextBus::new().route_list().agency("mit".to_string());
    assert_eq!(route_builder.agency, Some("mit".to_string()));
    let _agency_builder = NextBus::new().agency_list();
}

// Each command accepts a parameter set that matches its table exactly,
// and each single-field violation independently causes failure.

fn valid_for(command: Command) -> Request {
    let r = Request::new().command(command);
    match command {
        Command::AgencyList => r,
        Command::RouteList => r.agency("a1".to_string()),
        Command::RouteConfig => r.agency("a1".to_string()).route("r1".to_string()),
        Command::Predictions => r
            .agency("a1".to_string())
            .route("r1".to_string())
            .stop("s1".to_string()),
        Command::PredictionsForMultiStops => r.agency("a1".to_string()).stop("s1".to_string()),
        Command::Schedule => r.agency("a1".to_string()).route("r1".to_string()),
        Command::Messages => r.agency("a1".to_string()).route("r1".to_string()),
        Command::VehicleLocations => r
            .agency("a1".to_string())
            .route("r1".to_string())
            .time(5),
    }
}

const ALL_COMMANDS: [Command; 8] = [
    Command::AgencyList,
    Command::RouteList,
    Command::RouteConfig,
    Command::Predictions,
    Command::PredictionsForMultiStops,
    Command::Schedule,
    Command::Messages,
    Command::VehicleLocations,
];

#[test]
fn every_command_validates_its_exact_table() {
    for command in ALL_COMMANDS {
        let req = valid_for(command);
        assert!(req.is_valid());
        assert!(req.validate().is_ok());
    }
}

#[test]
fn missing_command_fails() {
    assert_eq!(Request::new().get_url(), Err(Error::BuildUrlError));
}

#[test]
fn agency_violations_fail() {
    // forbidden agency
    assert!(!valid_for(Command::AgencyList).agency("x".to_string()).is_valid());
    // required agency missing
    assert!(!Request::new().command(Command::RouteList).is_valid());
    assert!(!Request::new().command(Command::RouteConfig).is_valid());
    assert!(!Request::new()
        .command(Command::Predictions)
        .route("r1".to_string())
        .stop("s1".to_string())
        .is_valid());
}

#[test]
fn route_violations_fail() {
    // forbidden routes
    assert!(!valid_for(Command::AgencyList).route("r1".to_string()).is_valid());
    assert!(!valid_for(Command::RouteList).route("r1".to_string()).is_valid());
    assert!(!valid_for(Command::PredictionsForMultiStops).route("r1".to_string()).is_valid());
    // arity violations
    assert!(!valid_for(Command::RouteConfig).add_route("r2".to_string()).is_valid());
    assert!(!valid_for(Command::Predictions).add_route("r2".to_string()).is_valid());
    assert!(!valid_for(Command::Schedule).add_route("r2".to_string()).is_valid());
    assert!(!valid_for(Command::VehicleLocations).add_route("r2".to_string()).is_valid());
    // required routes missing
    assert!(!Request::new().command(Command::Messages).agency("a1".to_string()).is_valid());
    assert!(!Request::new()
        .command(Command::Schedule)
        .agency("a1".to_string())
        .is_valid());
    // required non-empty
    assert!(!valid_for(Command::Messages).routes(vec![]).is_valid());
}

#[test]
fn stop_violations_fail() {
    // forbidden stops
    assert!(!valid_for(Command::AgencyList).stop("s1".to_string()).is_valid());
    assert!(!valid_for(Command::RouteConfig).stop("s1".to_string()).is_valid());
    assert!(!valid_for(Command::Messages).stop("s1".to_string()).is_valid());
    // arity violation
    assert!(!valid_for(Command::Predictions).add_stop("s2".to_string()).is_valid());
    // required stops missing
    assert!(!Request::new()
        .command(Command::PredictionsForMultiStops)
        .agency("a1".to_string())
        .is_valid());
    // required non-empty
    assert!(!valid_for(Command::PredictionsForMultiStops).stops(vec![]).is_valid());
}

#[test]
fn time_violations_fail() {
    // forbidden time
    assert!(!valid_for(Command::AgencyList).time(1).is_valid());
    assert!(!valid_for(Command::Predictions).time(1).is_valid());
    assert!(!valid_for(Command::Messages).time(1).is_valid());
    // required time missing
    assert!(!Request::new()
        .command(Command::VehicleLocations)
        .agency("a1".to_string())
        .route("r1".to_string())
        .is_valid());
}

// Emission is deterministic and order-stable: command first, t last,
// r and stops values in the order supplied.
#[test]
fn query_order_is_stable() {
    let url = Request::new()
        .command(Command::Messages)
        .agency("ag".to_string())
        .routes(vec!["r1".to_string(), "r2".to_string(), "r3".to_string()])
        .get_url()
        .unwrap();
    assert_eq!(
        url,
        "http://webservices.nextbus.com/service/publicXMLFeed?command=messages&a=ag&r=r1&r=r2&r=r3"
    );

    let url = Request::new()
        .command(Command::PredictionsForMultiStops)
        .agency("ag".to_string())
        .stops(vec!["s9".to_string(), "s1".to_string()])
        .get_url()
        .unwrap();
    assert_eq!(
        url,
        "http://webservices.nextbus.com/service/publicXMLFeed?command=predictionsForMultiStops&a=ag&stops=s9&stops=s1"
    );

    // the same set twice gives the same URL, and t comes last
    let make = || {
        Request::new()
            .command(Command::VehicleLocations)
            .agency("ag".to_string())
            .route("r1".to_string())
            .time(1457)
            .get_url()
            .unwrap()
    };
    let u1 = make();
    let u2 = make();
    assert_eq!(u1, u2);
    assert!(u1.ends_with("&t=1457"));
    assert!(u1.starts_with("http://webservices.nextbus.com/service/publicXMLFeed?command="));
}

#[test]
fn replace_and_append_pairs() {
    // route replaces, add_route appends
    let url = Request::new()
        .command(Command::Messages)
        .agency("ag".to_string())
        .route("old".to_string())
        .route("new".to_string())
        .add_route("extra".to_string())
        .get_url()
        .unwrap();
    assert_eq!(
        url,
        "http://webservices.nextbus.com/service/publicXMLFeed?command=messages&a=ag&r=new&r=extra"
    );

    // append_routes extends an existing list, and is a no-op when none was started
    let url = Request::new()
        .command(Command::Messages)
        .agency("ag".to_string())
        .route("r1".to_string())
        .append_routes(vec!["r2".to_string()])
        .get_url()
        .unwrap();
    assert!(url.ends_with("r=r1&r=r2"));
    let req = Request::new()
        .command(Command::Messages)
        .agency("ag".to_string())
        .append_routes(vec!["r2".to_string()]);
    assert!(!req.is_valid());

    // append_stops mirrors append_routes
    let url = Request::new()
        .command(Command::PredictionsForMultiStops)
        .agency("ag".to_string())
        .stop("s1".to_string())
        .append_stops(vec!["s2".to_string()])
        .get_url()
        .unwrap();
    assert!(url.ends_with("stops=s1&stops=s2"));
}

// Each failure carries a short description.
#[test]
fn errors_describe_themselves() {
    assert_eq!(Error::BuildCommandError.describe(), "Error Building Command");
    assert_eq!(Error::BuildUrlError.describe(), "Error Building Url");
    assert_eq!(Error::HttpError("refused".to_string()).describe(), "HTTP Error");
    assert_eq!(Error::ParseError.describe(), "Error Parsing Nextbus API");
}

// Keys and values are query-encoded byte for byte: a space becomes
// `+`, reserved ASCII is percent-encoded upper-case, and non-ASCII
// text is encoded through its UTF-8 bytes.
#[test]
fn query_values_are_form_encoded() {
    let url = Request::new()
        .command(Command::RouteList)
        .agency("bay area&transit=co".to_string())
        .get_url()
        .unwrap();
    assert_eq!(
        url,
        "http://webservices.nextbus.com/service/publicXMLFeed?command=routeList&a=bay+area%26transit%3Dco"
    );

    let url = Request::new()
        .command(Command::RouteList)
        .agency("caf\u{e9}".to_string())
        .get_url()
        .unwrap();
    assert_eq!(
        url,
        "http://webservices.nextbus.com/service/publicXMLFeed?command=routeList&a=caf%C3%A9"
    );
}
