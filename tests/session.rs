use kdeconnect::device::{Device, DeviceConfig, Effect, album_art_path};
use kdeconnect::error::KdeConnectError;
use kdeconnect::packets::{
    Battery, Body, Clipboard, ClipboardConnect, ConnectivityReport, DeviceType, Identity, Mpris,
    MprisPlayer, MprisRequest, PacketPayloadTransferInfo, Pair, Ping, ShareRequest,
    ShareRequestFile, SystemVolume, SystemVolumeRequest, SystemVolumeStream,
};
use std::collections::HashMap;

fn identity(id: &str) -> Identity {
    Identity {
        device_id: id.to_string(),
        device_name: "Peer".to_string(),
        device_type: DeviceType::Phone,
        incoming_capabilities: vec![],
        outgoing_capabilities: vec![],
        protocol_version: 7,
        tcp_port: None,
    }
}

fn cert() -> Vec<u8> {
    vec![0x30, 0x82, 1, 2, 3, 4]
}

fn unpaired() -> Device {
    Device::new(identity("peer"), None, cert())
}

fn paired() -> Device {
    let stored = DeviceConfig {
        id: "peer".to_string(),
        name: "Peer".to_string(),
        device_type: DeviceType::Phone,
        certificate: Some(cert()),
    };
    Device::new(identity("peer"), Some(stored), cert())
}

fn stream(name: &str, volume: i32) -> SystemVolumeStream {
    SystemVolumeStream {
        name: name.to_string(),
        description: format!("{} sink", name),
        enabled: None,
        muted: false,
        max_volume: Some(100),
        volume,
    }
}

fn player(name: &str, art: Option<&str>) -> MprisPlayer {
    MprisPlayer {
        player: name.to_string(),
        title: None,
        artist: None,
        album: None,
        is_playing: None,
        can_pause: None,
        can_play: None,
        can_go_next: None,
        can_go_previous: None,
        can_seek: None,
        loop_status: None,
        shuffle: None,
        pos: None,
        length: None,
        volume: None,
        album_art_url: art.map(|s| s.to_string()),
        url: None,
    }
}

#[test]
fn ping_is_echoed_and_forwarded() {
    let mut d = unpaired();
    let effects = d.on_packet(Body::Ping(Ping { message: Some("hi".to_string()) }), None, None);
    assert_eq!(effects.len(), 2);
    assert!(matches!(&effects[0], Effect::Forward(Body::Ping(Ping { message: Some(m) })) if m == "hi"));
    assert!(matches!(&effects[1], Effect::Send(Body::Ping(Ping { message: Some(m) })) if m == "hi"));
}

#[test]
fn ping_on_paired_session_pushes_paired_data() {
    let mut d = paired();
    let effects = d.on_packet(Body::Ping(Ping { message: None }), None, None);
    assert_eq!(effects.len(), 3);
    assert!(matches!(effects[2], Effect::PushPairedData));
}

#[test]
fn first_time_pair_accepted() {
    let mut d = unpaired();
    assert!(!d.is_paired());
    let effects = d.on_packet(Body::Pair(Pair { pair: true }), None, None);
    assert_eq!(effects.len(), 1);
    assert!(matches!(effects[0], Effect::AskPairing));
    assert!(!d.is_paired());
    let effects = d.on_pair_answer(Some(true));
    assert_eq!(effects.len(), 4);
    assert!(matches!(effects[0], Effect::Send(Body::Pair(Pair { pair: true }))));
    assert!(matches!(effects[1], Effect::StoreConfig));
    assert!(matches!(effects[2], Effect::PairStatusChanged(true)));
    assert!(matches!(effects[3], Effect::PushPairedData));
    assert!(d.is_paired());
    assert_eq!(d.config.certificate, Some(cert()));
}

#[test]
fn pair_prompt_timeout_declines() {
    let mut d = unpaired();
    d.on_packet(Body::Pair(Pair { pair: true }), None, None);
    let effects = d.on_pair_answer(None);
    assert_eq!(effects.len(), 1);
    assert!(matches!(effects[0], Effect::Send(Body::Pair(Pair { pair: false }))));
    assert!(d.config.certificate.is_none());
    assert!(!d.is_paired());
}

#[test]
fn pair_answer_without_prompt_does_nothing() {
    let mut d = unpaired();
    assert!(d.on_pair_answer(Some(true)).is_empty());
    assert!(!d.is_paired());
}

#[test]
fn self_initiated_pair_rejected() {
    let mut d = unpaired();
    let effects = d.begin_pair().unwrap();
    assert_eq!(effects.len(), 1);
    assert!(matches!(effects[0], Effect::Send(Body::Pair(Pair { pair: true }))));
    assert!(d.initiated_pair);
    let effects = d.on_packet(Body::Pair(Pair { pair: false }), None, None);
    assert_eq!(effects.len(), 1);
    assert!(matches!(effects[0], Effect::NotifyPairEvent));
    assert!(!d.initiated_pair);
    assert!(d.config.certificate.is_none());
    assert_eq!(d.pair_outcome(), Err(KdeConnectError::DeviceRejectedPair));
}

#[test]
fn self_initiated_pair_accepted() {
    let mut d = unpaired();
    d.begin_pair().unwrap();
    let effects = d.on_packet(Body::Pair(Pair { pair: true }), None, None);
    assert_eq!(effects.len(), 4);
    assert!(matches!(effects[0], Effect::StoreConfig));
    assert!(matches!(effects[3], Effect::NotifyPairEvent));
    assert!(d.is_paired());
    assert_eq!(d.pair_outcome(), Ok(()));
}

#[test]
fn pair_when_already_paired() {
    let mut d = paired();
    assert_eq!(d.begin_pair().unwrap_err(), KdeConnectError::DeviceAlreadyPaired);
    assert!(d.on_packet(Body::Pair(Pair { pair: true }), None, None).is_empty());
    assert!(d.is_paired());
}

#[test]
fn spurious_unpair_ignored() {
    let mut d = unpaired();
    assert!(d.on_packet(Body::Pair(Pair { pair: false }), None, None).is_empty());
}

#[test]
fn peer_unpair_clears_certificate() {
    let mut d = paired();
    let effects = d.on_packet(Body::Pair(Pair { pair: false }), None, None);
    assert_eq!(effects.len(), 2);
    assert!(matches!(effects[0], Effect::StoreConfig));
    assert!(matches!(effects[1], Effect::PairStatusChanged(false)));
    assert!(d.config.certificate.is_none());
    assert!(!d.is_paired());
}

#[test]
fn pair_then_unpair() {
    let mut d = unpaired();
    d.begin_pair().unwrap();
    d.on_packet(Body::Pair(Pair { pair: true }), None, None);
    assert!(d.is_paired());
    let effects = d.unpair();
    assert_eq!(effects.len(), 3);
    assert!(matches!(effects[2], Effect::Send(Body::Pair(Pair { pair: false }))));
    assert!(d.config.certificate.is_none());
    assert!(!d.is_paired());
}

#[test]
fn mismatched_certificate_is_not_paired() {
    let stored = DeviceConfig {
        id: "peer".to_string(),
        name: "Peer".to_string(),
        device_type: DeviceType::Phone,
        certificate: Some(vec![9, 9, 9]),
    };
    assert!(stored.is_paired());
    let d = Device::new(identity("peer"), Some(stored), cert());
    assert!(!d.is_paired());
}

#[test]
fn clipboard_connect_zero_timestamp_ignored() {
    let mut d = unpaired();
    let zero = ClipboardConnect { content: "x".to_string(), timestamp: 0 };
    assert!(d.on_packet(Body::ClipboardConnect(zero), None, None).is_empty());
    let later = ClipboardConnect { content: "x".to_string(), timestamp: 5 };
    let effects = d.on_packet(Body::ClipboardConnect(later), None, None);
    assert_eq!(effects.len(), 1);
    assert!(matches!(&effects[0], Effect::ClipboardContent(c) if c == "x"));
}

#[test]
fn clipboard_is_forwarded() {
    let mut d = unpaired();
    let effects = d.on_packet(Body::Clipboard(Clipboard { content: "y".to_string() }), None, None);
    assert!(matches!(&effects[0], Effect::ClipboardContent(c) if c == "y"));
}

#[test]
fn volume_list_then_update_patches_one_sink() {
    let mut d = unpaired();
    d.on_packet(
        Body::SystemVolume(SystemVolume::List { sink_list: vec![stream("a", 10), stream("b", 20)] }),
        None,
        None,
    );
    let effects = d.on_packet(
        Body::SystemVolume(SystemVolume::Update {
            name: "b".to_string(),
            enabled: Some(true),
            muted: Some(true),
            volume: None,
        }),
        None,
        None,
    );
    assert!(matches!(effects[0], Effect::Forward(Body::SystemVolume(_))));
    let sinks = d.sinks.as_ref().unwrap();
    assert_eq!(sinks[0].volume, 10);
    assert!(!sinks[0].muted);
    assert_eq!(sinks[0].enabled, None);
    assert_eq!(sinks[1].volume, 20);
    assert!(sinks[1].muted);
    assert_eq!(sinks[1].enabled, Some(true));
    assert_eq!(sinks[1].description, "b sink");
}

#[test]
fn volume_update_of_unknown_sink_changes_nothing() {
    let mut d = unpaired();
    d.on_packet(Body::SystemVolume(SystemVolume::List { sink_list: vec![stream("a", 10)] }), None, None);
    d.on_packet(
        Body::SystemVolume(SystemVolume::Update { name: "z".to_string(), enabled: None, muted: Some(true), volume: Some(1) }),
        None,
        None,
    );
    let sinks = d.sinks.as_ref().unwrap();
    assert_eq!(sinks.len(), 1);
    assert_eq!(sinks[0].volume, 10);
    assert!(!sinks[0].muted);
}

#[test]
fn volume_request_for_sinks_replies() {
    let mut d = unpaired();
    let req = SystemVolumeRequest { request_sinks: Some(true), name: None, enabled: None, muted: None, volume: None };
    let effects = d.on_packet(Body::SystemVolumeRequest(req), None, None);
    assert!(matches!(effects[0], Effect::ReplySystemVolume));
    let req = SystemVolumeRequest { request_sinks: None, name: Some("a".to_string()), enabled: None, muted: None, volume: Some(3) };
    let effects = d.on_packet(Body::SystemVolumeRequest(req), None, None);
    assert!(matches!(effects[0], Effect::Forward(Body::SystemVolumeRequest(_))));
}

fn share_file(name: &str) -> ShareRequestFile {
    ShareRequestFile {
        filename: name.to_string(),
        creation_time: None,
        last_modified: None,
        open: Some(false),
        number_of_files: None,
        total_payload_size: None,
    }
}

#[test]
fn file_share_with_payload_is_received() {
    let mut d = unpaired();
    let effects = d.on_packet(
        Body::ShareRequest(ShareRequest::File(share_file("a.txt"))),
        Some(1024),
        Some(PacketPayloadTransferInfo { port: 60001 }),
    );
    assert_eq!(effects.len(), 1);
    match &effects[0] {
        Effect::ReceiveFile { file, size, transfer } => {
            assert_eq!(file.filename, "a.txt");
            assert_eq!(*size, 1024);
            assert_eq!(transfer.port, 60001);
        }
        other => panic!("unexpected {:?}", other),
    }
}

#[test]
fn file_share_without_payload_is_dropped() {
    let mut d = unpaired();
    assert!(d.on_packet(Body::ShareRequest(ShareRequest::File(share_file("a"))), None, None).is_empty());
    assert!(d
        .on_packet(Body::ShareRequest(ShareRequest::File(share_file("a"))), Some(3), None)
        .is_empty());
}

#[test]
fn text_and_url_shares_are_forwarded() {
    let mut d = unpaired();
    let e = d.on_packet(Body::ShareRequest(ShareRequest::Text { text: "t".to_string() }), None, None);
    assert!(matches!(&e[0], Effect::TextShare(t) if t == "t"));
    let e = d.on_packet(Body::ShareRequest(ShareRequest::Url { url: "u".to_string() }), None, None);
    assert!(matches!(&e[0], Effect::UrlShare(u) if u == "u"));
}

#[test]
fn mpris_list_records_players_and_flag() {
    let mut d = unpaired();
    let e = d.on_packet(
        Body::Mpris(Mpris::List { player_list: vec!["p".to_string()], supports_album_art_payload: true }),
        None,
        None,
    );
    assert!(matches!(&e[0], Effect::PlayerList(l) if l.len() == 1));
    assert!(d.mpris_supports_album_art);
    assert_eq!(d.players, vec!["p".to_string()]);
}

#[test]
fn mpris_art_transfer_needs_payload() {
    let mut d = unpaired();
    let art = || Mpris::TransferringArt {
        player: "p".to_string(),
        album_art_url: "file:///x.png".to_string(),
        transferring_album_art: true,
    };
    assert!(d.on_packet(Body::Mpris(art()), None, None).is_empty());
    let e = d.on_packet(Body::Mpris(art()), Some(5), Some(PacketPayloadTransferInfo { port: 60002 }));
    assert!(matches!(&e[0], Effect::ReceiveAlbumArt { player, transfer } if player == "p" && transfer.port == 60002));
}

#[test]
fn mpris_art_request() {
    let mut d = unpaired();
    let e = d.on_packet(
        Body::MprisRequest(MprisRequest::PlayerRequest {
            player: "p".to_string(),
            request_now_playing: None,
            request_volume: None,
            request_album_art: Some("file:///tmp/x.png".to_string()),
        }),
        None,
        None,
    );
    let (player_name, request) = match &e[0] {
        Effect::ReplyMprisPlayer { player, request_album_art } => (player.clone(), request_album_art.clone()),
        other => panic!("unexpected {:?}", other),
    };
    assert_eq!(player_name, "p");
    let local = player("p", Some("file:///tmp/x.png"));
    assert_eq!(album_art_path(&request, &local), Some("/tmp/x.png".to_string()));
}

#[test]
fn mpris_art_request_mismatch_sends_no_art() {
    let local = player("p", Some("file:///tmp/y.png"));
    assert_eq!(album_art_path(&Some("file:///tmp/x.png".to_string()), &local), None);
    let web = player("p", Some("https://a/x.png"));
    assert_eq!(album_art_path(&Some("https://a/x.png".to_string()), &web), None);
    assert_eq!(album_art_path(&None, &local), None);
    let doubled = player("p", Some("file://file:///a"));
    assert_eq!(album_art_path(&Some("file://file:///a".to_string()), &doubled), Some("/a".to_string()));
}

#[test]
fn requests_get_replies() {
    let mut d = unpaired();
    let e = d.on_packet(Body::BatteryRequest(kdeconnect::packets::BatteryRequest { request: true }), None, None);
    assert!(matches!(e[0], Effect::ReplyBattery));
    let e = d.on_packet(Body::ConnectivityReportRequest(kdeconnect::packets::ConnectivityReportRequest {}), None, None);
    assert!(matches!(e[0], Effect::ReplyConnectivityReport));
    let e = d.on_packet(Body::MprisRequest(MprisRequest::List { request_player_list: true }), None, None);
    assert!(matches!(e[0], Effect::ReplyMprisPlayerList));
    let e = d.on_packet(Body::Identity(identity("x")), None, None);
    assert!(e.is_empty());
}

#[test]
fn paired_data_burst() {
    let battery = Battery { charge: 50, is_charging: true, under_threshold: false };
    let report = || ConnectivityReport { signal_strengths: HashMap::new() };
    let burst = unpaired().paired_data(battery, "c".to_string(), 7, report(), vec![]);
    assert!(burst.is_empty());
    let burst = paired().paired_data(battery, "c".to_string(), 7, report(), vec![stream("a", 1)]);
    assert_eq!(burst.len(), 4);
    assert!(matches!(burst[0], Body::Battery(Battery { charge: 50, .. })));
    assert!(matches!(&burst[1], Body::ClipboardConnect(ClipboardConnect { content, timestamp: 7 }) if content == "c"));
    assert!(matches!(burst[2], Body::ConnectivityReport(_)));
    assert!(matches!(&burst[3], Body::SystemVolume(SystemVolume::List { sink_list }) if sink_list.len() == 1));
}
