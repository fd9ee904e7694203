use nextbus::route_list::{Route, RouteList, RouteListBuilder};

const GOOD_ROUTE_XML: &'static str = "
    <?xml version=\"1.0\" encoding=\"utf-8\" ?>
        <body copyright=\"All data copyright Massachusetts Institute of Technology 2016.\">
        <route tag=\"boston\" title=\"Boston Daytime\"/>
        <route tag=\"kendchar\" title=\"Kendall to Charles Park\" shortTitle=\"Kendall-Charles\"/>
        </body>";

// Bad Route XML: missing tag, missing title, extra attribute;
const MISSING_TAG_ROUTE_XML: &'static str = "
    <?xml version=\"1.0\" encoding=\"utf-8\" ?>
        <body copyright=\"All data copyright Massachusetts Institute of Technology 2016.\">
        <route title=\"Kendall to Charles Park\" shortTitle=\"Kendall-Charles\"/>
        </body>";

const MISSING_TITLE_ROUTE_XML: &'static str = "
    <?xml version=\"1.0\" encoding=\"utf-8\" ?>
        <body copyright=\"All data copyright Massachusetts Institute of Technology 2016.\">
        <route tag=\"kendchar\" shortTitle=\"Kendall-Charles\"/>
        </body>";

const EXTRA_ATTRIBUTE_ROUTE_XML: &'static str = "
    <?xml version=\"1.0\" encoding=\"utf-8\" ?>
        <body copyright=\"All data copyright Massachusetts Institute of Technology 2016.\">
        <route extra=\"extra\" tag=\"kendchar\"
            title=\"Kendall to Charles Park\" shortTitle=\"Kendall-Charles\"/>
        </body>";

#[test]
fn route_list_parse_good_xml() {
    let routes = RouteListBuilder::from_xml(GOOD_ROUTE_XML).unwrap();

    let test_boston = Route::new("boston".to_owned(), "Boston Daytime".to_owned(), None);
    let test_kendchar = Route::new(
        "kendchar".to_owned(),
        "Kendall to Charles Park".to_owned(),
        Some("Kendall-Charles".to_owned()),
    );
    let test_routes = RouteList::new(vec![test_boston, test_kendchar]);

    assert_eq!(routes, test_routes);
}

#[test]
#[should_panic]
fn route_list_parse_bad_xml_missing_tag() {
    RouteListBuilder::from_xml(MISSING_TAG_ROUTE_XML).unwrap();
}

#[test]
#[should_panic]
fn route_list_parse_bad_xml_missing_title() {
    RouteListBuilder::from_xml(MISSING_TITLE_ROUTE_XML).unwrap();
}

// Should simply skip over any extra attributes, no panic.
#[test]
fn route_list_parse_bad_xml_extra_attribute() {
    let routes = RouteListBuilder::from_xml(EXTRA_ATTRIBUTE_ROUTE_XML).unwrap();

    let test_kendchar = Route::new(
        "kendchar".to_owned(),
        "Kendall to Charles Park".to_owned(),
        Some("Kendall-Charles".to_owned()),
    );
    let test_routes = RouteList::new(vec![test_kendchar]);

    assert_eq!(routes, test_routes);
}
