//! The packet bodies exchanged with a peer, and the wire-type strings that tag them.
use std::collections::HashMap;
use vstd::prelude::*;
use crate::text::same_text;

verus! {

/// Version of the protocol this engine speaks.
pub const PROTOCOL_VERSION: usize = 7;

/// Kind of device a peer announces itself as.
#[derive(Clone, Copy, Debug, PartialEq, Eq, Structural)]
pub enum DeviceType {
    Desktop,
    Laptop,
    Phone,
    Tablet,
    Tv,
}

pub open spec fn device_type_name(t: DeviceType) -> Seq<char> {
    match t {
        DeviceType::Desktop => "desktop"@,
        DeviceType::Laptop => "laptop"@,
        DeviceType::Phone => "phone"@,
        DeviceType::Tablet => "tablet"@,
        DeviceType::Tv => "tv"@,
    }
}

impl DeviceType {
    /// The lowercase name used on the wire and in mDNS TXT records.
    pub fn as_str(&self) -> (r: &'static str)
        ensures
            r@ == device_type_name(*self),
    {
        match self {
            DeviceType::Desktop => "desktop",
            DeviceType::Laptop => "laptop",
            DeviceType::Phone => "phone",
            DeviceType::Tablet => "tablet",
            DeviceType::Tv => "tv",
        }
    }
}

/// Side-channel location of a payload: a TCP port on the sender's address.
#[derive(Clone, Copy, Debug, PartialEq, Eq, Structural)]
pub struct PacketPayloadTransferInfo {
    pub port: u16,
}

/// A peer's self-description.
#[derive(Clone, Debug)]
pub struct Identity {
    pub device_id: String,
    pub device_name: String,
    pub device_type: DeviceType,
    pub incoming_capabilities: Vec<String>,
    pub outgoing_capabilities: Vec<String>,
    pub protocol_version: usize,
    pub tcp_port: Option<u16>,
}

#[derive(Clone, Copy, Debug, PartialEq, Eq, Structural)]
pub struct Pair {
    pub pair: bool,
}

#[derive(Clone, Debug)]
pub struct Ping {
    pub message: Option<String>,
}

#[derive(Clone, Copy, Debug, PartialEq, Eq, Structural)]
pub struct Battery {
    pub charge: i32,
    pub is_charging: bool,
    pub under_threshold: bool,
}

#[derive(Clone, Copy, Debug, PartialEq, Eq, Structural)]
pub struct BatteryRequest {
    pub request: bool,
}

#[derive(Clone, Debug)]
pub struct Clipboard {
    pub content: String,
}

#[derive(Clone, Debug)]
pub struct ClipboardConnect {
    pub content: String,
    /// Milliseconds since the Unix epoch; zero when the sender has no content.
    pub timestamp: u128,
}

#[derive(Clone, Copy, Debug, PartialEq, Eq, Structural)]
pub struct FindPhone {}

#[derive(Clone, Debug)]
pub struct ConnectivityReport {
    pub signal_strengths: HashMap<String, ConnectivityReportSignal>,
}

#[derive(Clone, Copy, Debug, PartialEq, Eq, Structural)]
pub struct ConnectivityReportSignal {
    pub network_type: ConnectivityReportNetworkType,
    pub signal_strength: i32,
}

#[derive(Clone, Copy, Debug, PartialEq, Eq, Structural)]
pub enum ConnectivityReportNetworkType {
    Gsm,
    Cdma,
    Iden,
    Umts,
    Cdma2000,
    Edge,
    Gprs,
    Hspa,
    Lte,
    FiveG,
    Unknown,
}

pub open spec fn network_type_name(t: ConnectivityReportNetworkType) -> Seq<char> {
    match t {
        ConnectivityReportNetworkType::Gsm => "GSM"@,
        ConnectivityReportNetworkType::Cdma => "CDMA"@,
        ConnectivityReportNetworkType::Iden => "iDEN"@,
        ConnectivityReportNetworkType::Umts => "UMTS"@,
        ConnectivityReportNetworkType::Cdma2000 => "CDMA2000"@,
        ConnectivityReportNetworkType::Edge => "EDGE"@,
        ConnectivityReportNetworkType::Gprs => "GPRS"@,
        ConnectivityReportNetworkType::Hspa => "HSPA"@,
        ConnectivityReportNetworkType::Lte => "LTE"@,
        ConnectivityReportNetworkType::FiveG => "5G"@,
        ConnectivityReportNetworkType::Unknown => "Unknown"@,
    }
}

impl ConnectivityReportNetworkType {
    /// The name used on the wire.
    pub fn as_str(&self) -> (r: &'static str)
        ensures
            r@ == network_type_name(*self),
    {
        match self {
            ConnectivityReportNetworkType::Gsm => "GSM",
            ConnectivityReportNetworkType::Cdma => "CDMA",
            ConnectivityReportNetworkType::Iden => "iDEN",
            ConnectivityReportNetworkType::Umts => "UMTS",
            ConnectivityReportNetworkType::Cdma2000 => "CDMA2000",
            ConnectivityReportNetworkType::Edge => "EDGE",
            ConnectivityReportNetworkType::Gprs => "GPRS",
            ConnectivityReportNetworkType::Hspa => "HSPA",
            ConnectivityReportNetworkType::Lte => "LTE",
            ConnectivityReportNetworkType::FiveG => "5G",
            ConnectivityReportNetworkType::Unknown => "Unknown",
        }
    }
}

#[derive(Clone, Copy, Debug, PartialEq, Eq, Structural)]
pub struct ConnectivityReportRequest {}

/// Volume state: either the whole sink list, or a patch of one named sink.
#[derive(Clone, Debug)]
pub enum SystemVolume {
    List { sink_list: Vec<SystemVolumeStream> },
    Update { name: String, enabled: Option<bool>, muted: Option<bool>, volume: Option<i32> },
}

#[derive(Clone, Debug)]
pub struct SystemVolumeStream {
    pub name: String,
    pub description: String,
    pub enabled: Option<bool>,
    pub muted: bool,
    pub max_volume: Option<i32>,
    pub volume: i32,
}

#[derive(Clone, Debug)]
pub struct SystemVolumeRequest {
    pub request_sinks: Option<bool>,
    pub name: Option<String>,
    pub enabled: Option<bool>,
    pub muted: Option<bool>,
    pub volume: Option<i32>,
}

/// A share: a file announced with a payload, a text, or a URL.
#[derive(Clone, Debug)]
pub enum ShareRequest {
    File(ShareRequestFile),
    Text { text: String },
    Url { url: String },
}

/// Announces a batch of files about to be shared.
#[derive(Clone, Copy, Debug, PartialEq, Eq, Structural)]
pub struct ShareRequestUpdate {
    pub number_of_files: Option<i32>,
    pub total_payload_size: Option<i64>,
}

#[derive(Clone, Debug)]
pub struct ShareRequestFile {
    pub filename: String,
    /// Milliseconds since the Unix epoch.
    pub creation_time: Option<u128>,
    /// Milliseconds since the Unix epoch.
    pub last_modified: Option<u128>,
    pub open: Option<bool>,
    pub number_of_files: Option<i32>,
    pub total_payload_size: Option<i64>,
}

/// Media-player state sent by a peer.
#[derive(Clone, Debug)]
pub enum Mpris {
    List { player_list: Vec<String>, supports_album_art_payload: bool },
    TransferringArt { player: String, album_art_url: String, transferring_album_art: bool },
    Info(MprisPlayer),
}

#[derive(Clone, Debug)]
pub struct MprisPlayer {
    pub player: String,
    pub title: Option<String>,
    pub artist: Option<String>,
    pub album: Option<String>,
    pub is_playing: Option<bool>,
    pub can_pause: Option<bool>,
    pub can_play: Option<bool>,
    pub can_go_next: Option<bool>,
    pub can_go_previous: Option<bool>,
    pub can_seek: Option<bool>,
    pub loop_status: Option<MprisLoopStatus>,
    pub shuffle: Option<bool>,
    pub pos: Option<i32>,
    pub length: Option<i32>,
    pub volume: Option<i32>,
    pub album_art_url: Option<String>,
    pub url: Option<String>,
}

#[derive(Clone, Copy, Debug, PartialEq, Eq, Structural)]
pub enum MprisLoopStatus {
    /// Written `None` on the wire.
    NoRepeat,
    Track,
    Playlist,
}

/// A request about the receiver's media players.
#[derive(Clone, Debug)]
pub enum MprisRequest {
    List { request_player_list: bool },
    PlayerRequest {
        player: String,
        request_now_playing: Option<bool>,
        request_volume: Option<bool>,
        /// A `file://` URL asks the receiver to send that album art as a payload.
        request_album_art: Option<String>,
    },
    Action(MprisRequestAction),
}

#[derive(Clone, Debug, Default)]
pub struct MprisRequestAction {
    pub player: String,
    pub seek: Option<i64>,
    pub set_volume: Option<i64>,
    pub set_loop_status: Option<MprisLoopStatus>,
    pub set_position: Option<i64>,
    pub set_shuffle: Option<bool>,
    pub action: Option<MprisAction>,
}

#[derive(Clone, Copy, Debug, PartialEq, Eq, Structural)]
pub enum MprisAction {
    Play,
    Pause,
    PlayPause,
    Stop,
    Next,
    Previous,
}

/// Special keys of the remote keyboard.
#[derive(Clone, Copy, Debug, PartialEq, Eq, Structural)]
pub enum MousepadSpecialKey {
    Backspace,
    Tab,
    DpadLeft,
    DpadUp,
    DpadRight,
    DpadDown,
    PageUp,
    PageDown,
    Home,
    End,
    Enter,
    Delete,
    Escape,
    SysRq,
    ScrollLock,
    F1,
    F2,
    F3,
    F4,
    F5,
    F6,
    F7,
    F8,
    F9,
    F10,
    F11,
    F12,
}

pub open spec fn special_key_code(k: MousepadSpecialKey) -> u8 {
    match k {
        MousepadSpecialKey::Backspace => 1,
        MousepadSpecialKey::Tab => 2,
        MousepadSpecialKey::DpadLeft => 4,
        MousepadSpecialKey::DpadUp => 5,
        MousepadSpecialKey::DpadRight => 6,
        MousepadSpecialKey::DpadDown => 7,
        MousepadSpecialKey::PageUp => 8,
        MousepadSpecialKey::PageDown => 9,
        MousepadSpecialKey::Home => 10,
        MousepadSpecialKey::End => 11,
        MousepadSpecialKey::Enter => 12,
        MousepadSpecialKey::Delete => 13,
        MousepadSpecialKey::Escape => 14,
        MousepadSpecialKey::SysRq => 15,
        MousepadSpecialKey::ScrollLock => 16,
        MousepadSpecialKey::F1 => 21,
        MousepadSpecialKey::F2 => 22,
        MousepadSpecialKey::F3 => 23,
        MousepadSpecialKey::F4 => 24,
        MousepadSpecialKey::F5 => 25,
        MousepadSpecialKey::F6 => 26,
        MousepadSpecialKey::F7 => 27,
        MousepadSpecialKey::F8 => 28,
        MousepadSpecialKey::F9 => 29,
        MousepadSpecialKey::F10 => 30,
        MousepadSpecialKey::F11 => 31,
        MousepadSpecialKey::F12 => 32,
    }
}

impl MousepadSpecialKey {
    /// The key's numeric code.
    pub fn code(&self) -> (r: u8)
        ensures
            r == special_key_code(*self),
    {
        match self {
            MousepadSpecialKey::Backspace => 1,
            MousepadSpecialKey::Tab => 2,
            MousepadSpecialKey::DpadLeft => 4,
            MousepadSpecialKey::DpadUp => 5,
            MousepadSpecialKey::DpadRight => 6,
            MousepadSpecialKey::DpadDown => 7,
            MousepadSpecialKey::PageUp => 8,
            MousepadSpecialKey::PageDown => 9,
            MousepadSpecialKey::Home => 10,
            MousepadSpecialKey::End => 11,
            MousepadSpecialKey::Enter => 12,
            MousepadSpecialKey::Delete => 13,
            MousepadSpecialKey::Escape => 14,
            MousepadSpecialKey::SysRq => 15,
            MousepadSpecialKey::ScrollLock => 16,
            MousepadSpecialKey::F1 => 21,
            MousepadSpecialKey::F2 => 22,
            MousepadSpecialKey::F3 => 23,
            MousepadSpecialKey::F4 => 24,
            MousepadSpecialKey::F5 => 25,
            MousepadSpecialKey::F6 => 26,
            MousepadSpecialKey::F7 => 27,
            MousepadSpecialKey::F8 => 28,
            MousepadSpecialKey::F9 => 29,
            MousepadSpecialKey::F10 => 30,
            MousepadSpecialKey::F11 => 31,
            MousepadSpecialKey::F12 => 32,
        }
    }

    /// The key with the given numeric code, if any.
    pub fn from_code(c: u8) -> (r: Option<MousepadSpecialKey>)
        ensures
            r matches Some(k) ==> special_key_code(k) == c,
            r is None ==> forall|k: MousepadSpecialKey| special_key_code(k) != c,
    {
        match c {
            1 => Some(MousepadSpecialKey::Backspace),
            2 => Some(MousepadSpecialKey::Tab),
            4 => Some(MousepadSpecialKey::DpadLeft),
            5 => Some(MousepadSpecialKey::DpadUp),
            6 => Some(MousepadSpecialKey::DpadRight),
            7 => Some(MousepadSpecialKey::DpadDown),
            8 => Some(MousepadSpecialKey::PageUp),
            9 => Some(MousepadSpecialKey::PageDown),
            10 => Some(MousepadSpecialKey::Home),
            11 => Some(MousepadSpecialKey::End),
            12 => Some(MousepadSpecialKey::Enter),
            13 => Some(MousepadSpecialKey::Delete),
            14 => Some(MousepadSpecialKey::Escape),
            15 => Some(MousepadSpecialKey::SysRq),
            16 => Some(MousepadSpecialKey::ScrollLock),
            21 => Some(MousepadSpecialKey::F1),
            22 => Some(MousepadSpecialKey::F2),
            23 => Some(MousepadSpecialKey::F3),
            24 => Some(MousepadSpecialKey::F4),
            25 => Some(MousepadSpecialKey::F5),
            26 => Some(MousepadSpecialKey::F6),
            27 => Some(MousepadSpecialKey::F7),
            28 => Some(MousepadSpecialKey::F8),
            29 => Some(MousepadSpecialKey::F9),
            30 => Some(MousepadSpecialKey::F10),
            31 => Some(MousepadSpecialKey::F11),
            32 => Some(MousepadSpecialKey::F12),
            _ => None,
        }
    }
}

#[derive(Clone, Copy, Debug, PartialEq, Eq, Structural)]
pub struct MousepadKeyboardState {
    pub state: bool,
}

/// Every packet type this engine knows, by wire-type string.
#[derive(Clone, Copy, Debug, PartialEq, Eq, Structural)]
pub enum PacketKind {
    Identity,
    Pair,
    Ping,
    Battery,
    BatteryRequest,
    Clipboard,
    ClipboardConnect,
    FindPhone,
    ConnectivityReport,
    ConnectivityReportRequest,
    Presenter,
    SystemVolume,
    SystemVolumeRequest,
    ShareRequest,
    ShareRequestUpdate,
    Mpris,
    MprisRequest,
    MousepadRequest,
    MousepadEcho,
    MousepadKeyboardState,
}

pub open spec fn kind_type_name(k: PacketKind) -> Seq<char> {
    match k {
        PacketKind::Identity => "kdeconnect.identity"@,
        PacketKind::Pair => "kdeconnect.pair"@,
        PacketKind::Ping => "kdeconnect.ping"@,
        PacketKind::Battery => "kdeconnect.battery"@,
        PacketKind::BatteryRequest => "kdeconnect.battery.request"@,
        PacketKind::Clipboard => "kdeconnect.clipboard"@,
        PacketKind::ClipboardConnect => "kdeconnect.clipboard.connect"@,
        PacketKind::FindPhone => "kdeconnect.findmyphone.request"@,
        PacketKind::ConnectivityReport => "kdeconnect.connectivity_report"@,
        PacketKind::ConnectivityReportRequest => "kdeconnect.connectivity_report.request"@,
        PacketKind::Presenter => "kdeconnect.presenter"@,
        PacketKind::SystemVolume => "kdeconnect.systemvolume"@,
        PacketKind::SystemVolumeRequest => "kdeconnect.systemvolume.request"@,
        PacketKind::ShareRequest => "kdeconnect.share.request"@,
        PacketKind::ShareRequestUpdate => "kdeconnect.share.request.update"@,
        PacketKind::Mpris => "kdeconnect.mpris"@,
        PacketKind::MprisRequest => "kdeconnect.mpris.request"@,
        PacketKind::MousepadRequest => "kdeconnect.mousepad.request"@,
        PacketKind::MousepadEcho => "kdeconnect.mousepad.echo"@,
        PacketKind::MousepadKeyboardState => "kdeconnect.mousepad.keyboardstate"@,
    }
}

impl PacketKind {
    /// The wire-type string of this kind.
    pub fn type_str(&self) -> (r: &'static str)
        ensures
            r@ == kind_type_name(*self),
    {
        match self {
            PacketKind::Identity => "kdeconnect.identity",
            PacketKind::Pair => "kdeconnect.pair",
            PacketKind::Ping => "kdeconnect.ping",
            PacketKind::Battery => "kdeconnect.battery",
            PacketKind::BatteryRequest => "kdeconnect.battery.request",
            PacketKind::Clipboard => "kdeconnect.clipboard",
            PacketKind::ClipboardConnect => "kdeconnect.clipboard.connect",
            PacketKind::FindPhone => "kdeconnect.findmyphone.request",
            PacketKind::ConnectivityReport => "kdeconnect.connectivity_report",
            PacketKind::ConnectivityReportRequest => "kdeconnect.connectivity_report.request",
            PacketKind::Presenter => "kdeconnect.presenter",
            PacketKind::SystemVolume => "kdeconnect.systemvolume",
            PacketKind::SystemVolumeRequest => "kdeconnect.systemvolume.request",
            PacketKind::ShareRequest => "kdeconnect.share.request",
            PacketKind::ShareRequestUpdate => "kdeconnect.share.request.update",
            PacketKind::Mpris => "kdeconnect.mpris",
            PacketKind::MprisRequest => "kdeconnect.mpris.request",
            PacketKind::MousepadRequest => "kdeconnect.mousepad.request",
            PacketKind::MousepadEcho => "kdeconnect.mousepad.echo",
            PacketKind::MousepadKeyboardState => "kdeconnect.mousepad.keyboardstate",
        }
    }

    /// The kind whose wire-type string is `t`; `None` for a type this engine ignores.
    pub fn from_type(t: &str) -> (r: Option<PacketKind>)
        ensures
            r matches Some(k) ==> kind_type_name(k) == t@,
            r is None ==> forall|k: PacketKind| kind_type_name(k) != t@,
    {
        let kinds = [
            PacketKind::Identity,
            PacketKind::Pair,
            PacketKind::Ping,
            PacketKind::Battery,
            PacketKind::BatteryRequest,
            PacketKind::Clipboard,
            PacketKind::ClipboardConnect,
            PacketKind::FindPhone,
            PacketKind::ConnectivityReport,
            PacketKind::ConnectivityReportRequest,
            PacketKind::Presenter,
            PacketKind::SystemVolume,
            PacketKind::SystemVolumeRequest,
            PacketKind::ShareRequest,
            PacketKind::ShareRequestUpdate,
            PacketKind::Mpris,
            PacketKind::MprisRequest,
            PacketKind::MousepadRequest,
            PacketKind::MousepadEcho,
            PacketKind::MousepadKeyboardState,
        ];
        let mut i: usize = 0;
        while i < 20
            invariant
                kinds@.len() == 20,
                forall|j: int| 0 <= j < i ==> kind_type_name(#[trigger] kinds@[j]) != t@,
                kinds@[0] == PacketKind::Identity,
                kinds@[1] == PacketKind::Pair,
                kinds@[2] == PacketKind::Ping,
                kinds@[3] == PacketKind::Battery,
                kinds@[4] == PacketKind::BatteryRequest,
                kinds@[5] == PacketKind::Clipboard,
                kinds@[6] == PacketKind::ClipboardConnect,
                kinds@[7] == PacketKind::FindPhone,
                kinds@[8] == PacketKind::ConnectivityReport,
                kinds@[9] == PacketKind::ConnectivityReportRequest,
                kinds@[10] == PacketKind::Presenter,
                kinds@[11] == PacketKind::SystemVolume,
                kinds@[12] == PacketKind::SystemVolumeRequest,
                kinds@[13] == PacketKind::ShareRequest,
                kinds@[14] == PacketKind::ShareRequestUpdate,
                kinds@[15] == PacketKind::Mpris,
                kinds@[16] == PacketKind::MprisRequest,
                kinds@[17] == PacketKind::MousepadRequest,
                kinds@[18] == PacketKind::MousepadEcho,
                kinds@[19] == PacketKind::MousepadKeyboardState,
            decreases 20 - i,
        {
            let k = kinds[i];
            if same_text(k.type_str(), t) {
                return Some(k);
            }
            i = i + 1;
        }
        assert forall|k: PacketKind| kind_type_name(k) != t@ by {
            match k {
                PacketKind::Identity => assert(kind_type_name(kinds@[0]) != t@),
                PacketKind::Pair => assert(kind_type_name(kinds@[1]) != t@),
                PacketKind::Ping => assert(kind_type_name(kinds@[2]) != t@),
                PacketKind::Battery => assert(kind_type_name(kinds@[3]) != t@),
                PacketKind::BatteryRequest => assert(kind_type_name(kinds@[4]) != t@),
                PacketKind::Clipboard => assert(kind_type_name(kinds@[5]) != t@),
                PacketKind::ClipboardConnect => assert(kind_type_name(kinds@[6]) != t@),
                PacketKind::FindPhone => assert(kind_type_name(kinds@[7]) != t@),
                PacketKind::ConnectivityReport => assert(kind_type_name(kinds@[8]) != t@),
                PacketKind::ConnectivityReportRequest => assert(kind_type_name(kinds@[9]) != t@),
                PacketKind::Presenter => assert(kind_type_name(kinds@[10]) != t@),
                PacketKind::SystemVolume => assert(kind_type_name(kinds@[11]) != t@),
                PacketKind::SystemVolumeRequest => assert(kind_type_name(kinds@[12]) != t@),
                PacketKind::ShareRequest => assert(kind_type_name(kinds@[13]) != t@),
                PacketKind::ShareRequestUpdate => assert(kind_type_name(kinds@[14]) != t@),
                PacketKind::Mpris => assert(kind_type_name(kinds@[15]) != t@),
                PacketKind::MprisRequest => assert(kind_type_name(kinds@[16]) != t@),
                PacketKind::MousepadRequest => assert(kind_type_name(kinds@[17]) != t@),
                PacketKind::MousepadEcho => assert(kind_type_name(kinds@[18]) != t@),
                PacketKind::MousepadKeyboardState => assert(kind_type_name(kinds@[19]) != t@),
            }
        }
        None
    }
}

/// A decoded packet body of any type the session logic handles.
#[derive(Clone, Debug)]
pub enum Body {
    Identity(Identity),
    Pair(Pair),
    Ping(Ping),
    Battery(Battery),
    BatteryRequest(BatteryRequest),
    Clipboard(Clipboard),
    ClipboardConnect(ClipboardConnect),
    FindPhone(FindPhone),
    ConnectivityReport(ConnectivityReport),
    ConnectivityReportRequest(ConnectivityReportRequest),
    SystemVolume(SystemVolume),
    SystemVolumeRequest(SystemVolumeRequest),
    ShareRequest(ShareRequest),
    ShareRequestUpdate(ShareRequestUpdate),
    Mpris(Mpris),
    MprisRequest(MprisRequest),
    MousepadKeyboardState(MousepadKeyboardState),
}

pub open spec fn body_kind(b: Body) -> PacketKind {
    match b {
        Body::Identity(_) => PacketKind::Identity,
        Body::Pair(_) => PacketKind::Pair,
        Body::Ping(_) => PacketKind::Ping,
        Body::Battery(_) => PacketKind::Battery,
        Body::BatteryRequest(_) => PacketKind::BatteryRequest,
        Body::Clipboard(_) => PacketKind::Clipboard,
        Body::ClipboardConnect(_) => PacketKind::ClipboardConnect,
        Body::FindPhone(_) => PacketKind::FindPhone,
        Body::ConnectivityReport(_) => PacketKind::ConnectivityReport,
        Body::ConnectivityReportRequest(_) => PacketKind::ConnectivityReportRequest,
        Body::SystemVolume(_) => PacketKind::SystemVolume,
        Body::SystemVolumeRequest(_) => PacketKind::SystemVolumeRequest,
        Body::ShareRequest(_) => PacketKind::ShareRequest,
        Body::ShareRequestUpdate(_) => PacketKind::ShareRequestUpdate,
        Body::Mpris(_) => PacketKind::Mpris,
        Body::MprisRequest(_) => PacketKind::MprisRequest,
        Body::MousepadKeyboardState(_) => PacketKind::MousepadKeyboardState,
    }
}

impl Body {
    /// The packet kind this body is sent as.
    pub fn kind(&self) -> (r: PacketKind)
        ensures
            r == body_kind(*self),
    {
        match self {
            Body::Identity(_) => PacketKind::Identity,
            Body::Pair(_) => PacketKind::Pair,
            Body::Ping(_) => PacketKind::Ping,
            Body::Battery(_) => PacketKind::Battery,
            Body::BatteryRequest(_) => PacketKind::BatteryRequest,
            Body::Clipboard(_) => PacketKind::Clipboard,
            Body::ClipboardConnect(_) => PacketKind::ClipboardConnect,
            Body::FindPhone(_) => PacketKind::FindPhone,
            Body::ConnectivityReport(_) => PacketKind::ConnectivityReport,
            Body::ConnectivityReportRequest(_) => PacketKind::ConnectivityReportRequest,
            Body::SystemVolume(_) => PacketKind::SystemVolume,
            Body::SystemVolumeRequest(_) => PacketKind::SystemVolumeRequest,
            Body::ShareRequest(_) => PacketKind::ShareRequest,
            Body::ShareRequestUpdate(_) => PacketKind::ShareRequestUpdate,
            Body::Mpris(_) => PacketKind::Mpris,
            Body::MprisRequest(_) => PacketKind::MprisRequest,
            Body::MousepadKeyboardState(_) => PacketKind::MousepadKeyboardState,
        }
    }
}

/// Distinct kinds have distinct wire-type strings, so a type string names at
/// most one kind and `from_type` inverts `type_str`.
pub proof fn lemma_kind_names_distinct(a: PacketKind, b: PacketKind)
    ensures
        kind_type_name(a) == kind_type_name(b) ==> a == b,
{
    if kind_type_name(a) == kind_type_name(b) && a != b {
        reveal_strlit("kdeconnect.identity");
        reveal_strlit("kdeconnect.pair");
        reveal_strlit("kdeconnect.ping");
        reveal_strlit("kdeconnect.battery");
        reveal_strlit("kdeconnect.battery.request");
        reveal_strlit("kdeconnect.clipboard");
        reveal_strlit("kdeconnect.clipboard.connect");
        reveal_strlit("kdeconnect.findmyphone.request");
        reveal_strlit("kdeconnect.connectivity_report");
        reveal_strlit("kdeconnect.connectivity_report.request");
        reveal_strlit("kdeconnect.presenter");
        reveal_strlit("kdeconnect.systemvolume");
        reveal_strlit("kdeconnect.systemvolume.request");
        reveal_strlit("kdeconnect.share.request");
        reveal_strlit("kdeconnect.share.request.update");
        reveal_strlit("kdeconnect.mpris");
        reveal_strlit("kdeconnect.mpris.request");
        reveal_strlit("kdeconnect.mousepad.request");
        reveal_strlit("kdeconnect.mousepad.echo");
        reveal_strlit("kdeconnect.mousepad.keyboardstate");
        match a {
            PacketKind::Identity => assert(kind_type_name(a).len() == 19),
            PacketKind::Pair => assert(kind_type_name(a).len() == 15),
            PacketKind::Ping => assert(kind_type_name(a).len() == 15),
            PacketKind::Battery => assert(kind_type_name(a).len() == 18),
            PacketKind::BatteryRequest => assert(kind_type_name(a).len() == 26),
            PacketKind::Clipboard => assert(kind_type_name(a).len() == 20),
            PacketKind::ClipboardConnect => assert(kind_type_name(a).len() == 28),
            PacketKind::FindPhone => assert(kind_type_name(a).len() == 30),
            PacketKind::ConnectivityReport => assert(kind_type_name(a).len() == 30),
            PacketKind::ConnectivityReportRequest => assert(kind_type_name(a).len() == 38),
            PacketKind::Presenter => assert(kind_type_name(a).len() == 20),
            PacketKind::SystemVolume => assert(kind_type_name(a).len() == 23),
            PacketKind::SystemVolumeRequest => assert(kind_type_name(a).len() == 31),
            PacketKind::ShareRequest => assert(kind_type_name(a).len() == 24),
            PacketKind::ShareRequestUpdate => assert(kind_type_name(a).len() == 31),
            PacketKind::Mpris => assert(kind_type_name(a).len() == 16),
            PacketKind::MprisRequest => assert(kind_type_name(a).len() == 24),
            PacketKind::MousepadRequest => assert(kind_type_name(a).len() == 27),
            PacketKind::MousepadEcho => assert(kind_type_name(a).len() == 24),
            PacketKind::MousepadKeyboardState => assert(kind_type_name(a).len() == 33),
        }
        match b {
            PacketKind::Identity => assert(kind_type_name(b).len() == 19),
            PacketKind::Pair => assert(kind_type_name(b).len() == 15),
            PacketKind::Ping => assert(kind_type_name(b).len() == 15),
            PacketKind::Battery => assert(kind_type_name(b).len() == 18),
            PacketKind::BatteryRequest => assert(kind_type_name(b).len() == 26),
            PacketKind::Clipboard => assert(kind_type_name(b).len() == 20),
            PacketKind::ClipboardConnect => assert(kind_type_name(b).len() == 28),
            PacketKind::FindPhone => assert(kind_type_name(b).len() == 30),
            PacketKind::ConnectivityReport => assert(kind_type_name(b).len() == 30),
            PacketKind::ConnectivityReportRequest => assert(kind_type_name(b).len() == 38),
            PacketKind::Presenter => assert(kind_type_name(b).len() == 20),
            PacketKind::SystemVolume => assert(kind_type_name(b).len() == 23),
            PacketKind::SystemVolumeRequest => assert(kind_type_name(b).len() == 31),
            PacketKind::ShareRequest => assert(kind_type_name(b).len() == 24),
            PacketKind::ShareRequestUpdate => assert(kind_type_name(b).len() == 31),
            PacketKind::Mpris => assert(kind_type_name(b).len() == 16),
            PacketKind::MprisRequest => assert(kind_type_name(b).len() == 24),
            PacketKind::MousepadRequest => assert(kind_type_name(b).len() == 27),
            PacketKind::MousepadEcho => assert(kind_type_name(b).len() == 24),
            PacketKind::MousepadKeyboardState => assert(kind_type_name(b).len() == 33),
        }
        match a {
            PacketKind::Pair => match b {
                    PacketKind::Ping => assert(kind_type_name(a)[12] != kind_type_name(b)[12]),
                    _ => {},
                },
            PacketKind::Ping => match b {
                    PacketKind::Pair => assert(kind_type_name(a)[12] != kind_type_name(b)[12]),
                    _ => {},
                },
            PacketKind::Clipboard => match b {
                    PacketKind::Presenter => assert(kind_type_name(a)[11] != kind_type_name(b)[11]),
                    _ => {},
                },
            PacketKind::FindPhone => match b {
                    PacketKind::ConnectivityReport => assert(kind_type_name(a)[11] != kind_type_name(b)[11]),
                    _ => {},
                },
            PacketKind::ConnectivityReport => match b {
                    PacketKind::FindPhone => assert(kind_type_name(a)[11] != kind_type_name(b)[11]),
                    _ => {},
                },
            PacketKind::Presenter => match b {
                    PacketKind::Clipboard => assert(kind_type_name(a)[11] != kind_type_name(b)[11]),
                    _ => {},
                },
            PacketKind::SystemVolumeRequest => match b {
                    PacketKind::ShareRequestUpdate => assert(kind_type_name(a)[12] != kind_type_name(b)[12]),
                    _ => {},
                },
            PacketKind::ShareRequest => match b {
                    PacketKind::MprisRequest => assert(kind_type_name(a)[11] != kind_type_name(b)[11]),
                    PacketKind::MousepadEcho => assert(kind_type_name(a)[11] != kind_type_name(b)[11]),
                    _ => {},
                },
            PacketKind::ShareRequestUpdate => match b {
                    PacketKind::SystemVolumeRequest => assert(kind_type_name(a)[12] != kind_type_name(b)[12]),
                    _ => {},
                },
            PacketKind::MprisRequest => match b {
                    PacketKind::ShareRequest => assert(kind_type_name(a)[11] != kind_type_name(b)[11]),
                    PacketKind::MousepadEcho => assert(kind_type_name(a)[12] != kind_type_name(b)[12]),
                    _ => {},
                },
            PacketKind::MousepadEcho => match b {
                    PacketKind::ShareRequest => assert(kind_type_name(a)[11] != kind_type_name(b)[11]),
                    PacketKind::MprisRequest => assert(kind_type_name(a)[12] != kind_type_name(b)[12]),
                    _ => {},
                },
            _ => {},
        }
    }
}

} // verus!
