//! The bodies behind the host's request verbs. Each verb sends exactly the
//! body built here.
use vstd::prelude::*;
use crate::packets::{
    Body, FindPhone, MousepadKeyboardState, Mpris, MprisPlayer, MprisRequest, MprisRequestAction,
    Ping, ShareRequest, SystemVolume, SystemVolumeRequest, SystemVolumeStream,
};

verus! {

/// A ping, optionally carrying a message.
pub fn ping(message: Option<String>) -> (r: Body)
    ensures
        r == Body::Ping(Ping { message }),
{
    Body::Ping(Ping { message })
}

/// The full list of local volume sinks.
pub fn volume_list(streams: Vec<SystemVolumeStream>) -> (r: Body)
    ensures
        r == Body::SystemVolume(SystemVolume::List { sink_list: streams }),
{
    Body::SystemVolume(SystemVolume::List { sink_list: streams })
}

/// A change of one local volume sink.
pub fn volume_stream_update(
    name: String,
    enabled: Option<bool>,
    muted: Option<bool>,
    volume: Option<i32>,
) -> (r: Body)
    ensures
        r == Body::SystemVolume(SystemVolume::Update { name, enabled, muted, volume }),
{
    Body::SystemVolume(SystemVolume::Update { name, enabled, muted, volume })
}

/// Asks the peer for its volume sinks.
pub fn request_volume_list() -> (r: Body)
    ensures
        r == Body::SystemVolumeRequest(
            SystemVolumeRequest {
                request_sinks: Some(true),
                name: None,
                enabled: None,
                muted: None,
                volume: None,
            },
        ),
{
    Body::SystemVolumeRequest(
        SystemVolumeRequest {
            request_sinks: Some(true),
            name: None,
            enabled: None,
            muted: None,
            volume: None,
        },
    )
}

/// Asks the peer to change one of its volume sinks.
pub fn volume_request(
    name: String,
    enabled: Option<bool>,
    muted: Option<bool>,
    volume: Option<i32>,
) -> (r: Body)
    ensures
        r == Body::SystemVolumeRequest(
            SystemVolumeRequest { request_sinks: None, name: Some(name), enabled, muted, volume },
        ),
{
    Body::SystemVolumeRequest(
        SystemVolumeRequest { request_sinks: None, name: Some(name), enabled, muted, volume },
    )
}

/// Makes the peer ring, or stop ringing.
pub fn find_phone() -> (r: Body)
    ensures
        r == Body::FindPhone(FindPhone {  }),
{
    Body::FindPhone(FindPhone {  })
}

/// Shares a text.
pub fn share_text(text: String) -> (r: Body)
    ensures
        r == Body::ShareRequest(ShareRequest::Text { text }),
{
    Body::ShareRequest(ShareRequest::Text { text })
}

/// Shares a URL.
pub fn share_url(url: String) -> (r: Body)
    ensures
        r == Body::ShareRequest(ShareRequest::Url { url }),
{
    Body::ShareRequest(ShareRequest::Url { url })
}

/// The local media players; album art is always offered as a payload.
pub fn mpris_list(list: Vec<String>) -> (r: Body)
    ensures
        r == Body::Mpris(Mpris::List { player_list: list, supports_album_art_payload: true }),
{
    Body::Mpris(Mpris::List { player_list: list, supports_album_art_payload: true })
}

/// Announces album art sent as a payload.
pub fn album_art_transfer(player: String, url: String) -> (r: Body)
    ensures
        r == Body::Mpris(
            Mpris::TransferringArt { player, album_art_url: url, transferring_album_art: true },
        ),
{
    Body::Mpris(Mpris::TransferringArt { player, album_art_url: url, transferring_album_art: true })
}

/// The state of one local media player.
pub fn mpris_info(player: MprisPlayer) -> (r: Body)
    ensures
        r == Body::Mpris(Mpris::Info(player)),
{
    Body::Mpris(Mpris::Info(player))
}

/// Asks the peer for its media players.
pub fn request_mpris_list() -> (r: Body)
    ensures
        r == Body::MprisRequest(MprisRequest::List { request_player_list: true }),
{
    Body::MprisRequest(MprisRequest::List { request_player_list: true })
}

/// Asks the peer for one player's state, and optionally its album art.
pub fn request_mpris_info(player: String, album_art: Option<String>) -> (r: Body)
    ensures
        r == Body::MprisRequest(
            MprisRequest::PlayerRequest {
                player,
                request_now_playing: Some(true),
                request_volume: Some(true),
                request_album_art: album_art,
            },
        ),
{
    Body::MprisRequest(
        MprisRequest::PlayerRequest {
            player,
            request_now_playing: Some(true),
            request_volume: Some(true),
            request_album_art: album_art,
        },
    )
}

/// Asks the peer's player to act.
pub fn request_mpris_action(action: MprisRequestAction) -> (r: Body)
    ensures
        r == Body::MprisRequest(MprisRequest::Action(action)),
{
    Body::MprisRequest(MprisRequest::Action(action))
}

/// Tells the peer the local keyboard is shown.
pub fn mousepad_keyboard_state() -> (r: Body)
    ensures
        r == Body::MousepadKeyboardState(MousepadKeyboardState { state: true }),
{
    Body::MousepadKeyboardState(MousepadKeyboardState { state: true })
}

} // verus!
