use usb_link::{
    select_endpoint, BaudTable, ConnectionStatus, ConnectionType, Endpoint, LinkError,
    StateCommon, DISCONNECTED_TIMEOUT_MS,
};

/// Stands in for a platform port type; the link state never looks inside.
#[derive(PartialEq, Debug)]
struct FakePort {
    id: u32,
}

fn table() -> BaudTable {
    BaudTable {
        primary_baud: 460_800,
        bridge_baud: 115_200,
        alternate_baud: 1_000_000,
        alternate_keyword: String::from("acme"),
    }
}

#[test]
fn status_labels_and_colors() {
    assert_eq!(ConnectionStatus::NotConnected.as_str(), "Not connected");
    assert_eq!(ConnectionStatus::Connected.as_str(), "Connected");
    assert_eq!(ConnectionStatus::NotConnected.as_color(), (255, 255, 0));
    assert_eq!(ConnectionStatus::Connected.as_color(), (144, 238, 144));
    assert_eq!(ConnectionStatus::default(), ConnectionStatus::NotConnected);
    assert_eq!(ConnectionType::default(), ConnectionType::Usb);
}

#[test]
fn disconnect_threshold_is_one_second() {
    assert_eq!(DISCONNECTED_TIMEOUT_MS, 1_000);
}

#[test]
fn fresh_state_fields() {
    let s = StateCommon::<FakePort>::new("AN", 42);
    assert_eq!(s.usb_serial_number, "AN");
    assert_eq!(s.connection_status, ConnectionStatus::NotConnected);
    assert!(s.interface.serial_port.is_none());
    assert_eq!(s.interface.connection_type, ConnectionType::Usb);
    assert_eq!(s.last_query, 42);
    assert_eq!(s.last_response, 42);
}

#[test]
fn get_port_without_channel_fails_not_connected() {
    // a fresh link state with no endpoints present: discovery selects
    // nothing, adopting that outcome keeps the state NotConnected, and
    // get_port fails with NotConnected
    let mut s = StateCommon::<FakePort>::new("AN", 0);
    let endpoints: Vec<Endpoint> = Vec::new();
    assert!(select_endpoint(&endpoints, "AN", &table()).is_none());
    s.connect(None);
    assert_eq!(s.get_port().unwrap_err(), LinkError::NotConnected);
    assert_eq!(s.connection_status, ConnectionStatus::NotConnected);
}

#[test]
fn get_port_returns_held_channel_without_rediscovery() {
    let mut s = StateCommon::<FakePort>::new("AN", 0);
    s.connect(Some((FakePort { id: 7 }, ConnectionType::Usb)));
    assert_eq!(s.connection_status, ConnectionStatus::Connected);
    assert_eq!(s.get_port().unwrap(), &mut FakePort { id: 7 });
    // a second call hands back the same channel; the state is untouched,
    // so no second open can have happened
    assert_eq!(s.get_port().unwrap(), &mut FakePort { id: 7 });
    assert_eq!(s.connection_status, ConnectionStatus::Connected);
    assert_eq!(s.interface.connection_type, ConnectionType::Usb);
}

#[test]
fn adopting_no_connection_resets_the_interface() {
    let mut s = StateCommon::<FakePort>::new("AN", 3);
    s.connect(Some((FakePort { id: 9 }, ConnectionType::Can)));
    assert_eq!(s.connection_status, ConnectionStatus::Connected);
    assert_eq!(s.interface.connection_type, ConnectionType::Can);
    s.connect(None);
    assert_eq!(s.connection_status, ConnectionStatus::NotConnected);
    assert!(s.interface.serial_port.is_none());
    assert_eq!(s.interface.connection_type, ConnectionType::Usb);
    // timestamps and identity key are untouched by adoption
    assert_eq!(s.last_query, 3);
    assert_eq!(s.last_response, 3);
    assert_eq!(s.usb_serial_number, "AN");
}

#[test]
fn timestamps_are_updated_by_their_events() {
    let mut s = StateCommon::<FakePort>::new("AN", 10);
    s.note_send(25);
    assert_eq!(s.last_query, 25);
    assert_eq!(s.last_response, 10);
    s.note_response(30);
    assert_eq!(s.last_query, 25);
    assert_eq!(s.last_response, 30);
}

#[test]
fn staleness_compares_against_the_threshold() {
    let mut s = StateCommon::<FakePort>::new("AN", 0);
    s.note_response(5_000);
    assert!(!s.is_stale(5_000));
    assert!(!s.is_stale(5_999));
    assert!(s.is_stale(6_000));
    assert!(s.is_stale(7_500));
    // a clock reading from before the last response is not stale
    assert!(!s.is_stale(4_000));
}

#[test]
fn connect_replaces_a_held_channel() {
    let mut s = StateCommon::<FakePort>::new("AN", 0);
    s.connect(Some((FakePort { id: 1 }, ConnectionType::Usb)));
    s.connect(Some((FakePort { id: 2 }, ConnectionType::Can)));
    assert_eq!(s.get_port().unwrap(), &mut FakePort { id: 2 });
    assert_eq!(s.interface.connection_type, ConnectionType::Can);
}
