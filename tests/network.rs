use kdeconnect::connections::ConnectedSet;
use kdeconnect::discovery::{
    admit_tcp_identity, admit_udp_identity, capabilities, datagram_accepted, make_identity,
    mdns_properties, mdns_should_contact,
};
use kdeconnect::error::KdeConnectError;
use kdeconnect::packets::{DeviceType, Identity};
use kdeconnect::payload::{batch_plan, share_file_request, PortScan};
use kdeconnect::packets::{Body, ShareRequest};
use kdeconnect::util::get_time_ms;

fn identity(id: &str, port: Option<u16>) -> Identity {
    Identity {
        device_id: id.to_string(),
        device_name: "n".to_string(),
        device_type: DeviceType::Laptop,
        incoming_capabilities: vec![],
        outgoing_capabilities: vec![],
        protocol_version: 7,
        tcp_port: port,
    }
}

#[test]
fn connected_set_holds_one_entry_per_id() {
    let mut set = ConnectedSet::new();
    assert!(set.try_insert("a".to_string()));
    assert!(!set.try_insert("a".to_string()));
    assert!(set.try_insert("b".to_string()));
    assert_eq!(set.len(), 2);
    assert_eq!(set.ids(), vec!["a".to_string(), "b".to_string()]);
}

#[test]
fn removed_id_is_absent() {
    let mut set = ConnectedSet::new();
    set.try_insert("a".to_string());
    set.try_insert("b".to_string());
    set.remove("a");
    assert!(!set.contains("a"));
    assert!(set.contains("b"));
    set.remove("zzz");
    assert_eq!(set.len(), 1);
}

#[test]
fn duplicate_udp_discovery() {
    let mut set = ConnectedSet::new();
    let id = identity("peer", Some(1716));
    assert_eq!(admit_udp_identity(&mut set, &id, "me"), Some(1716));
    assert_eq!(admit_udp_identity(&mut set, &id, "me"), None);
    assert_eq!(set.len(), 1);
}

#[test]
fn udp_identity_filters() {
    let mut set = ConnectedSet::new();
    assert_eq!(admit_udp_identity(&mut set, &identity("me", Some(1716)), "me"), None);
    assert_eq!(admit_udp_identity(&mut set, &identity("peer", None), "me"), None);
    assert_eq!(set.len(), 0);
}

#[test]
fn tcp_identity_deduplicated() {
    let mut set = ConnectedSet::new();
    assert!(admit_tcp_identity(&mut set, &identity("p", None)));
    assert!(!admit_tcp_identity(&mut set, &identity("p", None)));
}

#[test]
fn datagram_size_boundary() {
    assert!(datagram_accepted(8192));
    assert!(!datagram_accepted(8193));
    assert!(datagram_accepted(0));
}

#[test]
fn mdns_contact_rules() {
    assert!(mdns_should_contact(Some("peer"), "me", true));
    assert!(!mdns_should_contact(Some("me"), "me", true));
    assert!(!mdns_should_contact(Some("peer"), "me", false));
    assert!(!mdns_should_contact(None, "me", true));
}

#[test]
fn mdns_txt_properties() {
    let props = mdns_properties(&"id1".to_string(), &"Name".to_string(), DeviceType::Phone);
    assert_eq!(
        props,
        vec![
            ("id".to_string(), "id1".to_string()),
            ("name".to_string(), "Name".to_string()),
            ("type".to_string(), "phone".to_string()),
            ("protocol".to_string(), "7".to_string()),
        ]
    );
}

#[test]
fn own_identity() {
    let ident = make_identity(&"id1".to_string(), &"Name".to_string(), DeviceType::Desktop, Some(1716));
    assert_eq!(ident.device_id, "id1");
    assert_eq!(ident.protocol_version, 7);
    assert_eq!(ident.tcp_port, Some(1716));
    assert_eq!(ident.incoming_capabilities.len(), 17);
    assert_eq!(ident.incoming_capabilities[0], "kdeconnect.ping");
    assert_eq!(ident.outgoing_capabilities, capabilities());
    assert!(!ident.incoming_capabilities.contains(&"kdeconnect.pair".to_string()));
}

#[test]
fn port_scan_offers_window_in_order() {
    let mut scan = PortScan::new();
    assert_eq!(scan.current(), Ok(60000));
    scan.port_taken();
    assert_eq!(scan.current(), Ok(60001));
}

#[test]
fn port_scan_exhausted() {
    let mut scan = PortScan::new();
    let mut tried = 0;
    while let Ok(port) = scan.current() {
        assert_eq!(port as u32, 60000 + tried);
        tried += 1;
        scan.port_taken();
    }
    assert_eq!(tried, 4001);
    assert_eq!(scan.current(), Err(KdeConnectError::NoPayloadTransferPortFound));
    let request = share_file_request(scan.current(), "a.txt".to_string(), 1024, None, None, false, None, None);
    assert_eq!(request.unwrap_err(), KdeConnectError::NoPayloadTransferPortFound);
}

#[test]
fn file_share_request_packet() {
    let (body, size, transfer) =
        share_file_request(Ok(60000), "a.txt".to_string(), 1024, Some(5), None, true, None, None).unwrap();
    assert_eq!(size, 1024);
    assert_eq!(transfer.port, 60000);
    match body {
        Body::ShareRequest(ShareRequest::File(f)) => {
            assert_eq!(f.filename, "a.txt");
            assert_eq!(f.creation_time, Some(5));
            assert_eq!(f.open, Some(true));
        }
        other => panic!("unexpected {:?}", other),
    }
}

#[test]
fn batch_residual_counts() {
    let (update, plan) = batch_plan(&vec![10, 20, 30]).unwrap();
    assert_eq!(update.number_of_files, Some(3));
    assert_eq!(update.total_payload_size, Some(60));
    assert_eq!(plan, vec![(3, 60), (2, 50), (1, 30)]);
    let (update, plan) = batch_plan(&vec![]).unwrap();
    assert_eq!(update.total_payload_size, Some(0));
    assert!(plan.is_empty());
    assert_eq!(batch_plan(&vec![i64::MAX, 1]), None);
}

#[test]
fn clock_is_after_2020() {
    assert!(get_time_ms() > 1_577_836_800_000);
}

#[test]
fn error_messages() {
    assert_eq!(KdeConnectError::DeviceRejectedPair.message(), "Device rejected pair");
    assert_eq!(KdeConnectError::NoPayloadTransferPortFound.message(), "Failed to find port for payload transfer");
}
