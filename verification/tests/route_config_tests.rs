use nextbus::route_config::RouteConfigBuilder;
use nextbus::Error;

// The transport belongs to the caller of this library, so running the
// command without one reports a transport failure.
#[test]
fn should_get_one_route_config() {
    let routes = RouteConfigBuilder::new()
        .agency("mit".to_string())
        .route("saferidecampshut".to_string())
        .get();
    println!("{:?}", routes);
    assert!(routes.is_err());
}

// A builder missing its required agency reports the build failure
// before anything else happens.
#[test]
fn missing_agency_is_a_build_command_error() {
    assert_eq!(
        RouteConfigBuilder::new().get(),
        Err(Error::BuildCommandError)
    );
}

const ONE_ROUTE_XML: &'static str = "<body>\
<route tag=\"sr\" title=\"Safe Ride\" color=\"ff0000\" oppositeColor=\"000000\" \
latMin=\"42.35\" latMax=\"42.37\" lonMin=\"-71.11\" lonMax=\"-71.08\">\
<stop tag=\"st1\" title=\"First Stop\" lat=\"42.351\" lon=\"-71.10\" stopId=\"1001\"/>\
<stop tag=\"st2\" title=\"Second Stop\" lat=\"42.36\" lon=\"-71.09\" shortTitle=\"Second\"/>\
<direction tag=\"loop\" title=\"Loop\" name=\"Inbound\" useForUI=\"true\">\
<stop tag=\"st1\"/>\
<stop tag=\"st2\"/>\
</direction>\
<path>\
<tag id=\"seg1\"/>\
<point lat=\"42.351\" lon=\"-71.10\"/>\
<point lat=\"42.36\" lon=\"-71.09\"/>\
</path>\
</route>\
</body>";

// One route with two stops, one direction referencing both stop tags
// in order, and one path of two points, reconstructed in document
// order from the flat event stream.
#[test]
fn decodes_nested_route_structure() {
    let config = RouteConfigBuilder::from_xml(ONE_ROUTE_XML).unwrap();
    assert_eq!(config.0.len(), 1);
    let route = &config.0[0];

    assert_eq!(route.tag, "sr");
    assert_eq!(route.title, "Safe Ride");
    assert_eq!(route.color, "ff0000");
    assert_eq!(route.opposite_color, "000000");
    assert_eq!(route.lat_min, "42.35");
    assert_eq!(route.lat_max, "42.37");
    assert_eq!(route.lon_min, "-71.11");
    assert_eq!(route.lon_max, "-71.08");

    // stops in document order
    assert_eq!(route.stops.len(), 2);
    assert_eq!(route.stops[0].tag, "st1");
    assert_eq!(route.stops[0].stop_id, Some("1001".to_string()));
    assert_eq!(route.stops[0].short_title, None);
    assert_eq!(route.stops[1].tag, "st2");
    assert_eq!(route.stops[1].short_title, Some("Second".to_string()));

    // the direction references both stop tags, in order
    assert_eq!(route.directions.len(), 1);
    let direction = &route.directions[0];
    assert_eq!(direction.tag, "loop");
    assert_eq!(direction.name, "Inbound");
    assert!(direction.use_for_ui);
    let referenced: Vec<&str> = direction.stops.iter().map(|s| s.tag.as_str()).collect();
    assert_eq!(referenced, vec!["st1", "st2"]);

    // the path carries its nested tag and both points
    assert_eq!(route.paths.len(), 1);
    assert_eq!(route.paths[0].tag, "seg1");
    assert_eq!(route.paths[0].points.len(), 2);
    assert_eq!(route.paths[0].points[0].lat, "42.351");
    assert_eq!(route.paths[0].points[1].lon, "-71.09");
}

// Decoding the same document twice yields equal aggregates.
#[test]
fn decoding_route_config_twice_gives_equal_aggregates() {
    let first = RouteConfigBuilder::from_xml(ONE_ROUTE_XML).unwrap();
    let second = RouteConfigBuilder::from_xml(ONE_ROUTE_XML).unwrap();
    assert_eq!(first, second);
}

#[test]
fn malformed_route_bound_is_a_parse_error() {
    let xml = "<body>\
<route tag=\"sr\" title=\"T\" color=\"c\" oppositeColor=\"o\" \
latMin=\"not-a-number\" latMax=\"42.37\" lonMin=\"-71.11\" lonMax=\"-71.08\">\
</route></body>";
    assert_eq!(RouteConfigBuilder::from_xml(xml), Err(Error::ParseError));
}

#[test]
fn malformed_use_for_ui_is_a_parse_error() {
    let xml = "<body>\
<route tag=\"sr\" title=\"T\" color=\"c\" oppositeColor=\"o\" \
latMin=\"1\" latMax=\"2\" lonMin=\"3\" lonMax=\"4\">\
<direction tag=\"d\" title=\"D\" name=\"N\" useForUI=\"yes\"></direction>\
</route></body>";
    assert_eq!(RouteConfigBuilder::from_xml(xml), Err(Error::ParseError));
}

#[test]
fn path_without_tag_is_a_parse_error() {
    let xml = "<body>\
<route tag=\"sr\" title=\"T\" color=\"c\" oppositeColor=\"o\" \
latMin=\"1\" latMax=\"2\" lonMin=\"3\" lonMax=\"4\">\
<path><point lat=\"1.5\" lon=\"2.5\"/></path>\
</route></body>";
    assert_eq!(RouteConfigBuilder::from_xml(xml), Err(Error::ParseError));
}

#[test]
fn missing_route_attribute_is_a_parse_error() {
    let xml = "<body>\
<route tag=\"sr\" title=\"T\" color=\"c\" \
latMin=\"1\" latMax=\"2\" lonMin=\"3\" lonMax=\"4\">\
</route></body>";
    assert_eq!(RouteConfigBuilder::from_xml(xml), Err(Error::ParseError));
}

#[test]
fn empty_body_decodes_to_no_routes() {
    let config = RouteConfigBuilder::from_xml("<body></body>").unwrap();
    assert_eq!(config.0.len(), 0);
}

// The bounds take any text of the float grammar: signs, fractions,
// exponents and the keywords; the raw text is kept.
#[test]
fn numeric_bounds_accept_the_float_grammar() {
    let xml = "<body>\
<route tag=\"sr\" title=\"T\" color=\"c\" oppositeColor=\"o\" \
latMin=\"-0.5\" latMax=\"+7\" lonMin=\"1.5e-3\" lonMax=\"inf\">\
</route></body>";
    let config = RouteConfigBuilder::from_xml(xml).unwrap();
    assert_eq!(config.0[0].lat_min, "-0.5");
    assert_eq!(config.0[0].lat_max, "+7");
    assert_eq!(config.0[0].lon_min, "1.5e-3");
    assert_eq!(config.0[0].lon_max, "inf");
}
