use usb_link::{
    classify, select_endpoint, str_contains_ci, BaudTable, ConnectionType, Endpoint,
};

fn table() -> BaudTable {
    BaudTable {
        primary_baud: 460_800,
        bridge_baud: 115_200,
        alternate_baud: 1_000_000,
        alternate_keyword: String::from("acme"),
    }
}

fn usb_endpoint(
    serial_number: Option<&str>,
    product: Option<&str>,
    manufacturer: Option<&str>,
) -> Endpoint {
    Endpoint {
        port_name: String::from("/dev/ttyACM0"),
        is_usb: true,
        serial_number: serial_number.map(String::from),
        product: product.map(String::from),
        manufacturer: manufacturer.map(String::from),
    }
}

#[test]
fn contains_ci_ignores_ascii_case() {
    assert!(str_contains_ci("SLCAN-Adapter", "slcan"));
    assert!(str_contains_ci("slcan", "SLCAN"));
    assert!(str_contains_ci("a CanAble slcan bridge", "slcan"));
    assert!(!str_contains_ci("serial adapter", "slcan"));
    // an empty needle is found anywhere, and a needle longer than the
    // haystack nowhere
    assert!(str_contains_ci("anything", ""));
    assert!(!str_contains_ci("ab", "abc"));
    // non-ASCII characters pass through the fold untouched
    assert!(str_contains_ci("Überbrücke slcan", "brücke"));
}

#[test]
fn serial_match_is_direct_regardless_of_other_fields() {
    let ep = usb_endpoint(Some("AN"), Some("SLCAN-Adapter"), Some("Whoever"));
    assert_eq!(classify(&ep, "AN", &table()), Some((ConnectionType::Usb, 460_800)));
}

#[test]
fn bridge_keyword_in_product_is_bridged() {
    // no serial number at all
    let ep = usb_endpoint(None, Some("SLCAN-Adapter"), None);
    assert_eq!(classify(&ep, "AN", &table()), Some((ConnectionType::Can, 115_200)));
    // serial number present but not matching
    let ep = usb_endpoint(Some("XX"), Some("our slcan thing"), None);
    assert_eq!(classify(&ep, "AN", &table()), Some((ConnectionType::Can, 115_200)));
}

#[test]
fn manufacturer_keyword_overrides_baud_for_direct() {
    let ep = usb_endpoint(Some("AN"), None, Some("ACME Devices Inc."));
    assert_eq!(classify(&ep, "AN", &table()), Some((ConnectionType::Usb, 1_000_000)));
}

#[test]
fn manufacturer_keyword_overrides_baud_for_bridged() {
    let ep = usb_endpoint(None, Some("slcan bridge"), Some("acme"));
    assert_eq!(classify(&ep, "AN", &table()), Some((ConnectionType::Can, 1_000_000)));
}

#[test]
fn non_usb_endpoint_is_skipped() {
    let mut ep = usb_endpoint(Some("AN"), Some("slcan"), None);
    ep.is_usb = false;
    assert_eq!(classify(&ep, "AN", &table()), None);
}

#[test]
fn unrelated_endpoint_is_no_candidate() {
    let ep = usb_endpoint(Some("OTHER"), Some("USB Serial"), Some("Somebody"));
    assert_eq!(classify(&ep, "AN", &table()), None);
    let ep = usb_endpoint(None, None, None);
    assert_eq!(classify(&ep, "AN", &table()), None);
}

#[test]
fn discovery_scenario_direct_match() {
    // identity key "AN", one enumerated endpoint with serial number "AN":
    // discovery succeeds, kind Direct (USB), baud primary
    let endpoints = vec![usb_endpoint(Some("AN"), None, None)];
    let sel = select_endpoint(&endpoints, "AN", &table()).unwrap();
    assert_eq!(sel.index, 0);
    assert_eq!(sel.connection_type, ConnectionType::Usb);
    assert_eq!(sel.baud, 460_800);
}

#[test]
fn discovery_scenario_no_endpoints() {
    let endpoints: Vec<Endpoint> = Vec::new();
    assert!(select_endpoint(&endpoints, "AN", &table()).is_none());
}

#[test]
fn first_match_wins() {
    let endpoints = vec![
        usb_endpoint(Some("OTHER"), None, None),
        usb_endpoint(None, Some("SLCAN adapter"), None),
        usb_endpoint(Some("AN"), None, None),
    ];
    let sel = select_endpoint(&endpoints, "AN", &table()).unwrap();
    assert_eq!(sel.index, 1);
    assert_eq!(sel.connection_type, ConnectionType::Can);
    assert_eq!(sel.baud, 115_200);
}
