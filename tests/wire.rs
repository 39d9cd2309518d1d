use kdeconnect::framing::{frame_line, resolve_packet_id, LineReader, PacketId};
use kdeconnect::packets::{ConnectivityReportNetworkType, DeviceType, MousepadSpecialKey, PacketKind, Body, Pair};
use kdeconnect::text::{parse_u128, trim_start_matches};

#[test]
fn frame_appends_newline() {
    let line = frame_line(br#"{"id":1}"#).unwrap();
    assert_eq!(line, b"{\"id\":1}\n".to_vec());
    assert_eq!(frame_line(b"a\nb"), None);
    assert_eq!(frame_line(b""), Some(b"\n".to_vec()));
}

#[test]
fn frames_split_back_in_order() {
    let packets: Vec<&[u8]> = vec![b"{\"a\":1}", b"{\"b\":2}", b"", b"{\"c\":3}"];
    let mut wire = Vec::new();
    for p in &packets {
        wire.extend(frame_line(p).unwrap());
    }
    let mut reader = LineReader::new();
    let lines = reader.feed(&wire);
    assert_eq!(lines.len(), packets.len());
    for (l, p) in lines.iter().zip(packets.iter()) {
        assert_eq!(l.as_slice(), *p);
    }
}

#[test]
fn lines_arriving_in_pieces() {
    let mut reader = LineReader::new();
    assert!(reader.feed(b"{\"id\":").is_empty());
    let lines = reader.feed(b"1}\n{\"id\"");
    assert_eq!(lines, vec![b"{\"id\":1}".to_vec()]);
    let lines = reader.feed(b":2}\n");
    assert_eq!(lines, vec![b"{\"id\":2}".to_vec()]);
}

#[test]
fn string_id_equals_integer_id() {
    assert_eq!(resolve_packet_id(&PacketId::Text("1".to_string())), Some(1));
    assert_eq!(resolve_packet_id(&PacketId::Number(1)), Some(1));
    let n: u128 = 1_700_000_000_123;
    assert_eq!(resolve_packet_id(&PacketId::Text(n.to_string())), resolve_packet_id(&PacketId::Number(n)));
    assert_eq!(resolve_packet_id(&PacketId::Text("abc".to_string())), None);
}

#[test]
fn parse_u128_matches_std() {
    for s in ["0", "+7", "42", "340282366920938463463374607431768211455", "", "+", "-1", "1a",
              "340282366920938463463374607431768211456", "007"] {
        assert_eq!(parse_u128(s), s.parse::<u128>().ok(), "input {:?}", s);
    }
}

#[test]
fn trim_prefix_repeatedly() {
    assert_eq!(trim_start_matches("file://file:///x", "file://"), "/x");
    assert_eq!(trim_start_matches("abc", ""), "abc");
    assert_eq!(trim_start_matches("/x", "file://"), "/x");
}

#[test]
fn packet_kinds_round_trip() {
    let kinds = [
        PacketKind::Identity, PacketKind::Pair, PacketKind::Ping, PacketKind::Battery,
        PacketKind::BatteryRequest, PacketKind::Clipboard, PacketKind::ClipboardConnect,
        PacketKind::FindPhone, PacketKind::ConnectivityReport,
        PacketKind::ConnectivityReportRequest, PacketKind::Presenter, PacketKind::SystemVolume,
        PacketKind::SystemVolumeRequest, PacketKind::ShareRequest, PacketKind::ShareRequestUpdate,
        PacketKind::Mpris, PacketKind::MprisRequest, PacketKind::MousepadRequest,
        PacketKind::MousepadEcho, PacketKind::MousepadKeyboardState,
    ];
    for k in kinds {
        assert_eq!(PacketKind::from_type(k.type_str()), Some(k));
    }
    assert_eq!(PacketKind::from_type("kdeconnect.unknown"), None);
    assert_eq!(PacketKind::Pair.type_str(), "kdeconnect.pair");
    assert_eq!(PacketKind::ShareRequest.type_str(), "kdeconnect.share.request");
    assert_eq!(Body::Pair(Pair { pair: true }).kind(), PacketKind::Pair);
}

#[test]
fn names_on_the_wire() {
    assert_eq!(DeviceType::Desktop.as_str(), "desktop");
    assert_eq!(DeviceType::Tv.as_str(), "tv");
    assert_eq!(ConnectivityReportNetworkType::FiveG.as_str(), "5G");
    assert_eq!(ConnectivityReportNetworkType::Iden.as_str(), "iDEN");
}

#[test]
fn special_key_codes() {
    assert_eq!(MousepadSpecialKey::Backspace.code(), 1);
    assert_eq!(MousepadSpecialKey::F12.code(), 32);
    assert_eq!(MousepadSpecialKey::from_code(21), Some(MousepadSpecialKey::F1));
    assert_eq!(MousepadSpecialKey::from_code(3), None);
}
