use nextbus::agency_list::{Agency, AgencyList, AgencyListBuilder};
use nextbus::events::{Attr, Event};
use nextbus::Error;

// test xml
const GOOD_AGENCY_XML: &'static str = "
        <?xml version=\"1.0\" encoding=\"utf-8\" ?>
        <body copyright=\"All data copyright agencies listed below and NextBus Inc 2016.\">
        <agency tag=\"jhu-apl\" title=\"APL\" regionTitle=\"Maryland\"/>
        <agency tag=\"camarillo\" title=\"Camarillo Area (CAT)\" shortTitle=\"Camarillo (CAT)\" regionTitle=\"California-Southern\"/>
        </body>";

// Missing tag, title, regionTitle. Extra attribute
const MISSING_TAG_AGENCY_XML: &'static str = "
        <?xml version=\"1.0\" encoding=\"utf-8\" ?>
        <body copyright=\"All data copyright agencies listed below and NextBus Inc 2016.\">
        <agency title=\"Camarillo Area (CAT)\" shortTitle=\"Camarillo (CAT)\" regionTitle=\"California-Southern\"/>
        </body>";

const MISSING_TITLE_AGENCY_XML: &'static str = "
        <?xml version=\"1.0\" encoding=\"utf-8\" ?>
        <body copyright=\"All data copyright agencies listed below and NextBus Inc 2016.\">
        <agency tag=\"camarillo\" shortTitle=\"Camarillo (CAT)\" regionTitle=\"California-Southern\"/>
        </body>";

const MISSING_REGION_TITLE_AGENCY_XML: &'static str = "
        <?xml version=\"1.0\" encoding=\"utf-8\" ?>
        <body copyright=\"All data copyright agencies listed below and NextBus Inc 2016.\">
        <agency tag=\"camarillo\" title=\"Camarillo Area (CAT)\" shortTitle=\"Camarillo (CAT)\"/>
        </body>";

const EXTRA_ATTRIBUTE_AGENCY_XML: &'static str = "
        <?xml version=\"1.0\" encoding=\"utf-8\" ?>
        <body copyright=\"All data copyright agencies listed below and NextBus Inc 2016.\">
        <agency extra=\"extra\" tag=\"camarillo\" title=\"Camarillo Area (CAT)\" shortTitle=\"Camarillo (CAT)\" regionTitle=\"California-Southern\"/>
        </body>";

#[test]
fn agency_list_parse_good_xml() {
    let agencies = AgencyListBuilder::from_xml(GOOD_AGENCY_XML).unwrap();

    let test_jhu = Agency::new(
        "jhu-apl".to_owned(),
        "APL".to_owned(),
        None,
        "Maryland".to_owned(),
    );
    let test_camarillo = Agency::new(
        "camarillo".to_owned(),
        "Camarillo Area (CAT)".to_owned(),
        Some("Camarillo (CAT)".to_owned()),
        "California-Southern".to_owned(),
    );
    let test_agencies = AgencyList::new(vec![test_jhu, test_camarillo]);

    assert_eq!(agencies, test_agencies);
}

#[test]
#[should_panic]
fn agency_list_parse_bad_xml_missing_tag() {
    AgencyListBuilder::from_xml(MISSING_TAG_AGENCY_XML).unwrap();
}

#[test]
#[should_panic]
fn agency_list_parse_bad_xml_missing_title() {
    AgencyListBuilder::from_xml(MISSING_TITLE_AGENCY_XML).unwrap();
}

#[test]
#[should_panic]
fn parse_bad_xml_missing_region_title() {
    AgencyListBuilder::from_xml(MISSING_REGION_TITLE_AGENCY_XML).unwrap();
}

// Should simply skip over any extra attributes, no panic.
#[test]
fn agency_list_parse_bad_xml_extra_attribute() {
    let agencies = AgencyListBuilder::from_xml(EXTRA_ATTRIBUTE_AGENCY_XML).unwrap();

    let test_camarillo = Agency::new(
        "camarillo".to_owned(),
        "Camarillo Area (CAT)".to_owned(),
        Some("Camarillo (CAT)".to_owned()),
        "California-Southern".to_owned(),
    );
    let test_agencies = AgencyList::new(vec![test_camarillo]);

    assert_eq!(agencies, test_agencies);
}

// A one-agency document decodes end to end to exactly one record.
#[test]
fn decodes_single_agency_document() {
    let xml = "<body><agency tag=\"jhu-apl\" title=\"APL\" regionTitle=\"Maryland\"/></body>";
    let agencies = AgencyListBuilder::from_xml(xml).unwrap();
    let expected = AgencyList::new(vec![Agency::new(
        "jhu-apl".to_owned(),
        "APL".to_owned(),
        None,
        "Maryland".to_owned(),
    )]);
    assert_eq!(agencies, expected);
}

// A missing required attribute is reported as the decode failure.
#[test]
fn missing_title_is_a_parse_error() {
    let res = AgencyListBuilder::from_xml(MISSING_TITLE_AGENCY_XML);
    assert_eq!(res, Err(Error::ParseError));
}

// A document whose stream breaks off is a decode failure.
#[test]
fn truncated_document_is_a_parse_error() {
    let xml = "<body><agency tag=\"a\" title=\"A\" regionTitle=\"R\"/>";
    let res = AgencyListBuilder::from_xml(xml);
    assert_eq!(res, Err(Error::ParseError));
}

// The decoder can be driven from structural events directly; the
// walk skips unrelated elements and takes the last occurrence of a
// repeated attribute.
#[test]
fn decodes_from_structural_events() {
    let attr = |name: &str, value: &str| Attr { name: name.to_string(), value: value.to_string() };
    let events = vec![
        Event::Start { name: "body".to_string(), attributes: vec![] },
        Event::Other,
        Event::Start {
            name: "agency".to_string(),
            attributes: vec![
                attr("tag", "shadowed"),
                attr("title", "APL"),
                attr("regionTitle", "Maryland"),
                attr("tag", "jhu-apl"),
            ],
        },
        Event::End { name: "body".to_string() },
    ];
    let agencies = AgencyListBuilder::decode_events(&events).unwrap();
    let expected = AgencyList::new(vec![Agency::new(
        "jhu-apl".to_owned(),
        "APL".to_owned(),
        None,
        "Maryland".to_owned(),
    )]);
    assert_eq!(agencies, expected);

    let broken = vec![Event::SyntaxError];
    assert_eq!(AgencyListBuilder::decode_events(&broken), Err(Error::ParseError));
}

// Decoding the same document twice yields equal aggregates.
#[test]
fn decoding_twice_gives_equal_aggregates() {
    let first = AgencyListBuilder::from_xml(GOOD_AGENCY_XML).unwrap();
    let second = AgencyListBuilder::from_xml(GOOD_AGENCY_XML).unwrap();
    assert_eq!(first, second);
}
