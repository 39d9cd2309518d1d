use kdeconnect::client;
use kdeconnect::packets::{Body, Mpris, MprisRequest, SystemVolume};

#[test]
fn volume_list_request_asks_for_sinks() {
    match client::request_volume_list() {
        Body::SystemVolumeRequest(r) => {
            assert_eq!(r.request_sinks, Some(true));
            assert!(r.name.is_none());
        }
        other => panic!("unexpected {:?}", other),
    }
}

#[test]
fn volume_request_names_sink() {
    match client::volume_request("s".to_string(), None, Some(true), Some(4)) {
        Body::SystemVolumeRequest(r) => {
            assert_eq!(r.request_sinks, None);
            assert_eq!(r.name.as_deref(), Some("s"));
            assert_eq!(r.muted, Some(true));
            assert_eq!(r.volume, Some(4));
        }
        other => panic!("unexpected {:?}", other),
    }
    match client::volume_stream_update("s".to_string(), Some(false), None, None) {
        Body::SystemVolume(SystemVolume::Update { name, enabled, .. }) => {
            assert_eq!(name, "s");
            assert_eq!(enabled, Some(false));
        }
        other => panic!("unexpected {:?}", other),
    }
}

#[test]
fn mpris_bodies() {
    match client::mpris_list(vec!["p".to_string()]) {
        Body::Mpris(Mpris::List { player_list, supports_album_art_payload }) => {
            assert_eq!(player_list, vec!["p".to_string()]);
            assert!(supports_album_art_payload);
        }
        other => panic!("unexpected {:?}", other),
    }
    match client::request_mpris_info("p".to_string(), Some("file:///a".to_string())) {
        Body::MprisRequest(MprisRequest::PlayerRequest { player, request_now_playing, request_volume, request_album_art }) => {
            assert_eq!(player, "p");
            assert_eq!(request_now_playing, Some(true));
            assert_eq!(request_volume, Some(true));
            assert_eq!(request_album_art.as_deref(), Some("file:///a"));
        }
        other => panic!("unexpected {:?}", other),
    }
    match client::album_art_transfer("p".to_string(), "file:///tmp/x.png".to_string()) {
        Body::Mpris(Mpris::TransferringArt { player, album_art_url, transferring_album_art }) => {
            assert_eq!(player, "p");
            assert_eq!(album_art_url, "file:///tmp/x.png");
            assert!(transferring_album_art);
        }
        other => panic!("unexpected {:?}", other),
    }
    assert!(matches!(client::request_mpris_list(), Body::MprisRequest(MprisRequest::List { request_player_list: true })));
}

#[test]
fn simple_bodies() {
    assert!(matches!(client::ping(Some("m".to_string())), Body::Ping(p) if p.message.as_deref() == Some("m")));
    assert!(matches!(client::find_phone(), Body::FindPhone(_)));
    assert!(matches!(client::share_text("t".to_string()), Body::ShareRequest(kdeconnect::packets::ShareRequest::Text { text }) if text == "t"));
    assert!(matches!(client::share_url("u".to_string()), Body::ShareRequest(kdeconnect::packets::ShareRequest::Url { url }) if url == "u"));
    assert!(matches!(client::mousepad_keyboard_state(), Body::MousepadKeyboardState(s) if s.state));
}
