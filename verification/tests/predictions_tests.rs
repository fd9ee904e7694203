use nextbus::predictions::PredictionsBuilder;
use nextbus::Error;

// The transport belongs to the caller of this library, so running the
// command without one reports a transport failure.
#[test]
fn should_get_predictions() {
    let predictions = PredictionsBuilder::new()
        .agency("mit".to_string())
        .route("saferidecampshut".to_string())
        .stop("mass84_d".to_string())
        .get();
    println!("{:?}", predictions);
    assert!(predictions.is_err());
}

// Without a transport wired in, a complete builder surfaces the
// transport failure variant.
#[test]
fn complete_builder_reports_the_transport_failure() {
    let res = PredictionsBuilder::new()
        .agency("a".to_string())
        .route("r".to_string())
        .stop("s".to_string())
        .get();
    assert!(matches!(res, Err(Error::HttpError(_))));
    assert_eq!(
        PredictionsBuilder::new().agency("a".to_string()).get(),
        Err(Error::BuildCommandError)
    );
}

const GOOD_PREDICTIONS_XML: &'static str = "<body>\
<predictions agencyTitle=\"MIT\" routeTag=\"saferidecampshut\" routeTitle=\"Campus Shuttle\" stopTitle=\"Mass Ave\">\
<direction title=\"Loop\">\
<prediction seconds=\"120\" minutes=\"2\" epochTime=\"1457453600000\" isDeparture=\"false\" block=\"b1\" dirTag=\"loop\"/>\
<prediction seconds=\"600\" minutes=\"10\" epochTime=\"1457454080000\" isDeparture=\"true\" block=\"b2\" dirTag=\"loop\" tripTag=\"t7\" delayed=\"true\"/>\
</direction>\
<message text=\"Service normal\" priority=\"Low\"/>\
</predictions>\
</body>";

// One direction holding two predictions and one top-level message
// come out with exactly those counts.
#[test]
fn decodes_directions_predictions_and_messages() {
    let predictions = PredictionsBuilder::from_xml(GOOD_PREDICTIONS_XML).unwrap();

    assert_eq!(predictions.agency_title, "MIT");
    assert_eq!(predictions.route_tag, "saferidecampshut");
    assert_eq!(predictions.route_code, None);
    assert_eq!(predictions.route_title, "Campus Shuttle");
    assert_eq!(predictions.stop_title, "Mass Ave");

    assert_eq!(predictions.directions.len(), 1);
    assert_eq!(predictions.directions[0].title, "Loop");
    assert_eq!(predictions.directions[0].predictions.len(), 2);
    assert_eq!(predictions.messages.len(), 1);
    assert_eq!(predictions.messages[0].text, "Service normal");
    assert_eq!(predictions.messages[0].priority, Some("Low".to_string()));

    let first = &predictions.directions[0].predictions[0];
    assert_eq!(first.seconds, 120);
    assert_eq!(first.minutes, 2);
    assert_eq!(first.epoch_time, 1457453600000);
    assert!(!first.is_departure);
    assert_eq!(first.block, "b1");
    assert_eq!(first.dir_tag, "loop");
    assert_eq!(first.trip_tag, None);
    assert_eq!(first.delayed, None);

    let second = &predictions.directions[0].predictions[1];
    assert!(second.is_departure);
    assert_eq!(second.trip_tag, Some("t7".to_string()));
    assert_eq!(second.delayed, Some(true));
}

// Decoding the same document twice yields equal aggregates.
#[test]
fn decoding_predictions_twice_gives_equal_aggregates() {
    let first = PredictionsBuilder::from_xml(GOOD_PREDICTIONS_XML).unwrap();
    let second = PredictionsBuilder::from_xml(GOOD_PREDICTIONS_XML).unwrap();
    assert_eq!(first, second);
}

#[test]
fn missing_agency_title_is_a_parse_error() {
    let xml = "<body>\
<predictions routeTag=\"r\" routeTitle=\"R\" stopTitle=\"S\">\
</predictions></body>";
    assert_eq!(PredictionsBuilder::from_xml(xml), Err(Error::ParseError));
}

#[test]
fn malformed_seconds_is_a_parse_error() {
    let xml = "<body>\
<predictions agencyTitle=\"A\" routeTag=\"r\" routeTitle=\"R\" stopTitle=\"S\"/>\
<direction title=\"D\">\
<prediction seconds=\"soon\" minutes=\"2\" epochTime=\"3\" isDeparture=\"false\" block=\"b\" dirTag=\"d\"/>\
</direction></body>";
    assert_eq!(PredictionsBuilder::from_xml(xml), Err(Error::ParseError));
}

// A malformed optional boolean still fails the whole decode.
#[test]
fn malformed_optional_boolean_is_a_parse_error() {
    let xml = "<body>\
<predictions agencyTitle=\"A\" routeTag=\"r\" routeTitle=\"R\" stopTitle=\"S\"/>\
<direction title=\"D\">\
<prediction seconds=\"1\" minutes=\"0\" epochTime=\"3\" isDeparture=\"false\" block=\"b\" dirTag=\"d\" delayed=\"maybe\"/>\
</direction></body>";
    assert_eq!(PredictionsBuilder::from_xml(xml), Err(Error::ParseError));
}

#[test]
fn direction_without_title_is_a_parse_error() {
    let xml = "<body>\
<predictions agencyTitle=\"A\" routeTag=\"r\" routeTitle=\"R\" stopTitle=\"S\"/>\
<direction></direction></body>";
    assert_eq!(PredictionsBuilder::from_xml(xml), Err(Error::ParseError));
}

// A later predictions block overrides exactly the fields it carries.
#[test]
fn repeated_attribute_blocks_merge() {
    let xml = "<body>\
<predictions agencyTitle=\"A\" routeTag=\"r\" routeTitle=\"R\" stopTitle=\"S\"/>\
<predictions stopTitle=\"Another Stop\" routeCode=\"77\"/>\
</body>";
    let predictions = PredictionsBuilder::from_xml(xml).unwrap();
    assert_eq!(predictions.agency_title, "A");
    assert_eq!(predictions.stop_title, "Another Stop");
    assert_eq!(predictions.route_code, Some("77".to_string()));
    assert_eq!(predictions.directions.len(), 0);
    assert_eq!(predictions.messages.len(), 0);
}

// The optional direction title used when there are no predictions.
#[test]
fn keeps_dir_title_when_no_predictions() {
    let xml = "<body>\
<predictions agencyTitle=\"A\" routeTag=\"r\" routeTitle=\"R\" stopTitle=\"S\" \
dirTitleBecauseNoPredictions=\"Outbound\"/></body>";
    let predictions = PredictionsBuilder::from_xml(xml).unwrap();
    assert_eq!(
        predictions.dir_title_because_no_predictions,
        Some("Outbound".to_string())
    );
}
