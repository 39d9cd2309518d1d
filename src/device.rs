//! Per-peer session state and the decisions taken on each inbound packet and
//! each local request. The caller performs the resulting effects in order.
use vstd::prelude::*;
use crate::error::KdeConnectError;
use crate::text::{has_prefix, starts_with, strip_all_prefixes, trim_start_matches};
use crate::packets::{
    Battery, Body, ClipboardConnect, ConnectivityReport, DeviceType, Identity, Mpris,
    MprisPlayer, MprisRequest, PacketPayloadTransferInfo, Pair, Ping, ShareRequest, ShareRequestFile,
    SystemVolume, SystemVolumeStream,
};

verus! {

/// The persisted record of a known peer.
#[derive(Clone, Debug)]
pub struct DeviceConfig {
    pub id: String,
    pub name: String,
    pub device_type: DeviceType,
    /// DER bytes of the peer's TLS certificate, present once paired.
    pub certificate: Option<Vec<u8>>,
}

impl DeviceConfig {
    /// A record is paired when it carries a pinned certificate.
    pub fn is_paired(&self) -> (r: bool)
        ensures
            r == self.certificate.is_some(),
    {
        self.certificate.is_some()
    }
}

/// Bytes of an optional certificate.
pub open spec fn cert_view(c: Option<Vec<u8>>) -> Option<Seq<u8>> {
    match c {
        Some(v) => Some(v@),
        None => None,
    }
}

/// What the caller must do after a decision, in order.
#[derive(Debug)]
pub enum Effect {
    /// Write this packet to the peer.
    Send(Body),
    /// Send the paired-data burst (see `Device::paired_data`).
    PushPairedData,
    /// Hand this body to the host's handler.
    Forward(Body),
    /// New clipboard content for the handler.
    ClipboardContent(String),
    /// A shared text for the handler.
    TextShare(String),
    /// A shared URL for the handler.
    UrlShare(String),
    /// Open the peer's payload at `transfer` and hand it to the handler as a file.
    ReceiveFile { file: ShareRequestFile, size: i64, transfer: PacketPayloadTransferInfo },
    /// Open the peer's payload at `transfer` and hand it to the handler as album art.
    ReceiveAlbumArt { player: String, transfer: PacketPayloadTransferInfo },
    /// The peer's media-player list, for the handler.
    PlayerList(Vec<String>),
    /// Reply with the handler's battery state.
    ReplyBattery,
    /// Reply with the handler's connectivity report.
    ReplyConnectivityReport,
    /// Reply with the handler's volume sink list.
    ReplySystemVolume,
    /// Reply with the handler's media-player list.
    ReplyMprisPlayerList,
    /// Reply with the state of one local player (see `album_art_path`).
    ReplyMprisPlayer { player: String, request_album_art: Option<String> },
    /// Ask the handler whether to accept the peer's pair request (30 s, then no).
    AskPairing,
    /// Persist the device record.
    StoreConfig,
    /// Tell the handler the pair status changed.
    PairStatusChanged(bool),
    /// Wake the local pair request that waits for the peer's answer.
    NotifyPairEvent,
}

/// A connected peer: its record, the certificate it presented at the TLS
/// handshake, and the pairing and media state of the session.
pub struct Device {
    pub config: DeviceConfig,
    pub peer_certificate: Vec<u8>,
    /// A locally initiated pair request waits for the peer's answer.
    pub initiated_pair: bool,
    /// The handler is being asked about the peer's pair request.
    pub awaiting_pair_answer: bool,
    pub mpris_supports_album_art: bool,
    pub players: Vec<String>,
    pub sinks: Option<Vec<SystemVolumeStream>>,
}

/// The first index of a sink named `name`, or -1.
pub open spec fn first_named(s: Seq<SystemVolumeStream>, name: Seq<char>) -> int {
    if exists|i: int|
        0 <= i < s.len() && (#[trigger] s[i]).name@ == name && forall|j: int|
            0 <= j < i ==> (#[trigger] s[j]).name@ != name {
        choose|i: int|
            0 <= i < s.len() && (#[trigger] s[i]).name@ == name && forall|j: int|
                0 <= j < i ==> (#[trigger] s[j]).name@ != name
    } else {
        -1
    }
}

/// `s` with the given fields of a volume update applied.
pub open spec fn patch_stream(
    s: SystemVolumeStream,
    enabled: Option<bool>,
    muted: Option<bool>,
    volume: Option<i32>,
) -> SystemVolumeStream {
    SystemVolumeStream {
        name: s.name,
        description: s.description,
        enabled: match enabled {
            Some(e) => Some(e),
            None => s.enabled,
        },
        muted: match muted {
            Some(m) => m,
            None => s.muted,
        },
        max_volume: s.max_volume,
        volume: match volume {
            Some(v) => v,
            None => s.volume,
        },
    }
}

/// The sink list after an update of the sink named `name`: the first such sink
/// is patched; without one the list stays as it is.
pub open spec fn patched_sinks(
    s: Seq<SystemVolumeStream>,
    name: Seq<char>,
    enabled: Option<bool>,
    muted: Option<bool>,
    volume: Option<i32>,
) -> Seq<SystemVolumeStream> {
    let i = first_named(s, name);
    if i < 0 {
        s
    } else {
        s.update(i, patch_stream(s[i], enabled, muted, volume))
    }
}

/// Applies a volume update to a sink list.
pub fn apply_volume_update(
    sinks: &mut Vec<SystemVolumeStream>,
    name: &String,
    enabled: Option<bool>,
    muted: Option<bool>,
    volume: Option<i32>,
)
    ensures
        final(sinks)@ == patched_sinks(old(sinks)@, name@, enabled, muted, volume),
{
    let n = sinks.len();
    let mut i: usize = 0;
    while i < n
        invariant
            n == sinks@.len(),
            sinks@ == old(sinks)@,
            i <= n,
            forall|j: int| 0 <= j < i ==> (#[trigger] sinks@[j]).name@ != name@,
        decreases n - i,
    {
        if sinks[i].name == *name {
            let ghost s = sinks@;
            proof {
                let k = first_named(s, name@);
                assert(0 <= i < s.len() && s[i as int].name@ == name@ && forall|j: int|
                    0 <= j < i ==> (#[trigger] s[j]).name@ != name@);
                if k != i {
                    if k < i {
                        assert(s[k].name@ != name@);
                    } else {
                        assert(s[i as int].name@ != name@);
                    }
                }
            }
            let old_stream = &sinks[i];
            let patched = SystemVolumeStream {
                name: old_stream.name.clone(),
                description: old_stream.description.clone(),
                enabled: match enabled {
                    Some(e) => Some(e),
                    None => old_stream.enabled,
                },
                muted: match muted {
                    Some(m) => m,
                    None => old_stream.muted,
                },
                max_volume: old_stream.max_volume,
                volume: match volume {
                    Some(v) => v,
                    None => old_stream.volume,
                },
            };
            sinks.set(i, patched);
            return;
        }
        i = i + 1;
    }
    assert(first_named(sinks@, name@) == -1);
}

/// Applying an update to a list holding a sink named `name` patches that one
/// sink (the first of that name) and leaves every other sink as it was.
pub proof fn lemma_volume_update_patches_one_sink(
    s: Seq<SystemVolumeStream>,
    name: Seq<char>,
    enabled: Option<bool>,
    muted: Option<bool>,
    volume: Option<i32>,
)
    requires
        exists|i: int| 0 <= i < s.len() && (#[trigger] s[i]).name@ == name,
    ensures
        ({
            let r = patched_sinks(s, name, enabled, muted, volume);
            let k = first_named(s, name);
            &&& 0 <= k < s.len()
            &&& s[k].name@ == name
            &&& r.len() == s.len()
            &&& r[k] == patch_stream(s[k], enabled, muted, volume)
            &&& forall|j: int| 0 <= j < s.len() && j != k ==> r[j] == s[j]
        }),
{
    let w = choose|i: int| 0 <= i < s.len() && (#[trigger] s[i]).name@ == name;
    let m = first_index_named(s, name, w);
    assert(0 <= m < s.len() && s[m].name@ == name && forall|j: int|
        0 <= j < m ==> (#[trigger] s[j]).name@ != name);
}

/// Some index at or below `w` holds the first sink named `name`.
proof fn first_index_named(s: Seq<SystemVolumeStream>, name: Seq<char>, w: int) -> (m: int)
    requires
        0 <= w < s.len(),
        s[w].name@ == name,
    ensures
        0 <= m <= w,
        s[m].name@ == name,
        forall|j: int| 0 <= j < m ==> (#[trigger] s[j]).name@ != name,
    decreases w,
{
    if exists|j: int| 0 <= j < w && (#[trigger] s[j]).name@ == name {
        let j = choose|j: int| 0 <= j < w && (#[trigger] s[j]).name@ == name;
        first_index_named(s, name, j)
    } else {
        w
    }
}

/// Byte-wise equality.
fn same_bytes(a: &[u8], b: &[u8]) -> (r: bool)
    ensures
        r == (a@ == b@),
{
    if a.len() != b.len() {
        return false;
    }
    let mut i: usize = 0;
    while i < a.len()
        invariant
            a@.len() == b@.len(),
            i <= a@.len(),
            a@.subrange(0, i as int) == b@.subrange(0, i as int),
        decreases a@.len() - i,
    {
        if a[i] != b[i] {
            return false;
        }
        assert(a@.subrange(0, i + 1) == a@.subrange(0, i as int).push(a@[i as int]));
        assert(b@.subrange(0, i + 1) == b@.subrange(0, i as int).push(b@[i as int]));
        i = i + 1;
    }
    assert(a@ == a@.subrange(0, a@.len() as int));
    assert(b@ == b@.subrange(0, b@.len() as int));
    true
}

/// A copy of a byte vector.
fn copy_bytes(v: &Vec<u8>) -> (r: Vec<u8>)
    ensures
        r@ == v@,
{
    let mut out: Vec<u8> = Vec::new();
    let mut i: usize = 0;
    while i < v.len()
        invariant
            i <= v@.len(),
            out@ == v@.subrange(0, i as int),
        decreases v@.len() - i,
    {
        out.push(v[i]);
        i = i + 1;
    }
    assert(out@ == v@);
    out
}

/// A copy of a list of strings.
fn copy_strings(v: &Vec<String>) -> (r: Vec<String>)
    ensures
        r@ == v@,
{
    let mut out: Vec<String> = Vec::new();
    let mut i: usize = 0;
    while i < v.len()
        invariant
            i <= v@.len(),
            out@ == v@.subrange(0, i as int),
        decreases v@.len() - i,
    {
        out.push(v[i].clone());
        i = i + 1;
    }
    assert(out@ == v@);
    out
}

/// A copy of a sink.
fn copy_stream(s: &SystemVolumeStream) -> (r: SystemVolumeStream)
    ensures
        r == *s,
{
    SystemVolumeStream {
        name: s.name.clone(),
        description: s.description.clone(),
        enabled: s.enabled,
        muted: s.muted,
        max_volume: s.max_volume,
        volume: s.volume,
    }
}

/// A copy of a sink list.
fn copy_streams(v: &Vec<SystemVolumeStream>) -> (r: Vec<SystemVolumeStream>)
    ensures
        r@ == v@,
{
    let mut out: Vec<SystemVolumeStream> = Vec::new();
    let mut i: usize = 0;
    while i < v.len()
        invariant
            i <= v@.len(),
            out@ == v@.subrange(0, i as int),
        decreases v@.len() - i,
    {
        out.push(copy_stream(&v[i]));
        i = i + 1;
    }
    assert(out@ == v@);
    out
}

/// A copy of a ping body.
fn copy_ping(p: &Ping) -> (r: Ping)
    ensures
        r == *p,
{
    match &p.message {
        Some(m) => Ping { message: Some(m.clone()) },
        None => Ping { message: None },
    }
}

/// The pinning rule: paired when the record's certificate is byte-equal to the
/// one presented at the handshake.
pub open spec fn pinned(cert: Option<Seq<u8>>, peer: Seq<u8>) -> bool {
    cert == Some(peer)
}

/// Effects of receiving `Pair { pair: p }`.
pub open spec fn pair_effects(paired: bool, initiated: bool, p: bool) -> Seq<Effect> {
    if paired && p {
        seq![]
    } else if initiated && !paired && !p {
        seq![Effect::NotifyPairEvent]
    } else if !paired && !p {
        seq![]
    } else if !paired && p {
        if initiated {
            seq![
                Effect::StoreConfig,
                Effect::PairStatusChanged(true),
                Effect::PushPairedData,
                Effect::NotifyPairEvent,
            ]
        } else {
            seq![Effect::AskPairing]
        }
    } else {
        seq![Effect::StoreConfig, Effect::PairStatusChanged(false)]
    }
}

/// The pair state (certificate, initiated, awaiting answer) after receiving
/// `Pair { pair: p }`.
pub open spec fn pair_next(
    cert: Option<Seq<u8>>,
    peer: Seq<u8>,
    initiated: bool,
    awaiting: bool,
    p: bool,
) -> (Option<Seq<u8>>, bool, bool) {
    let paired = pinned(cert, peer);
    if paired && p {
        (cert, initiated, awaiting)
    } else if initiated && !paired && !p {
        (cert, false, awaiting)
    } else if !paired && !p {
        (cert, initiated, awaiting)
    } else if !paired && p {
        if initiated {
            (Some(peer), false, awaiting)
        } else {
            (cert, initiated, true)
        }
    } else {
        (None, initiated, awaiting)
    }
}

/// Effects of an inbound packet.
pub open spec fn inbound_effects(
    d: Device,
    body: Body,
    size: Option<i64>,
    transfer: Option<PacketPayloadTransferInfo>,
) -> Seq<Effect> {
    match body {
        Body::Ping(p) => if d.paired() {
            seq![Effect::Forward(Body::Ping(p)), Effect::Send(Body::Ping(p)), Effect::PushPairedData]
        } else {
            seq![Effect::Forward(Body::Ping(p)), Effect::Send(Body::Ping(p))]
        },
        Body::Pair(pr) => pair_effects(d.paired(), d.initiated_pair, pr.pair),
        Body::BatteryRequest(_) => seq![Effect::ReplyBattery],
        Body::Clipboard(c) => seq![Effect::ClipboardContent(c.content)],
        Body::ClipboardConnect(c) => if c.timestamp != 0 {
            seq![Effect::ClipboardContent(c.content)]
        } else {
            seq![]
        },
        Body::ConnectivityReportRequest(_) => seq![Effect::ReplyConnectivityReport],
        Body::SystemVolumeRequest(r) => if r.request_sinks == Some(true) {
            seq![Effect::ReplySystemVolume]
        } else {
            seq![Effect::Forward(body)]
        },
        Body::ShareRequest(r) => match r {
            ShareRequest::File(f) => match (size, transfer) {
                (Some(sz), Some(t)) => seq![Effect::ReceiveFile { file: f, size: sz, transfer: t }],
                _ => seq![],
            },
            ShareRequest::Text { text } => seq![Effect::TextShare(text)],
            ShareRequest::Url { url } => seq![Effect::UrlShare(url)],
        },
        Body::Mpris(m) => match m {
            Mpris::List { player_list, .. } => seq![Effect::PlayerList(player_list)],
            Mpris::TransferringArt { player, transferring_album_art, .. } => match transfer {
                Some(t) if transferring_album_art => seq![
                    Effect::ReceiveAlbumArt { player, transfer: t },
                ],
                _ => seq![],
            },
            Mpris::Info(_) => seq![Effect::Forward(body)],
        },
        Body::MprisRequest(r) => match r {
            MprisRequest::List { .. } => seq![Effect::ReplyMprisPlayerList],
            MprisRequest::PlayerRequest { player, request_album_art, .. } => seq![
                Effect::ReplyMprisPlayer { player, request_album_art },
            ],
            MprisRequest::Action(_) => seq![Effect::Forward(body)],
        },
        Body::Identity(_) => seq![],
        _ => seq![Effect::Forward(body)],
    }
}

/// How an inbound packet changes the session.
pub open spec fn inbound_next(d: Device, e: Device, body: Body) -> bool {
    &&& e.config.id == d.config.id
    &&& e.config.name == d.config.name
    &&& e.config.device_type == d.config.device_type
    &&& e.peer_certificate@ == d.peer_certificate@
    &&& match body {
        Body::Pair(pr) => (cert_view(e.config.certificate), e.initiated_pair, e.awaiting_pair_answer)
            == pair_next(
            cert_view(d.config.certificate),
            d.peer_certificate@,
            d.initiated_pair,
            d.awaiting_pair_answer,
            pr.pair,
        ),
        _ => {
            &&& cert_view(e.config.certificate) == cert_view(d.config.certificate)
            &&& e.initiated_pair == d.initiated_pair
            &&& e.awaiting_pair_answer == d.awaiting_pair_answer
        },
    }
    &&& match body {
        Body::Mpris(Mpris::List { player_list, supports_album_art_payload }) => {
            &&& e.mpris_supports_album_art == supports_album_art_payload
            &&& e.players@ == player_list@
        },
        _ => {
            &&& e.mpris_supports_album_art == d.mpris_supports_album_art
            &&& e.players@ == d.players@
        },
    }
    &&& match body {
        Body::SystemVolume(SystemVolume::List { sink_list }) => e.sinks matches Some(v) && v@
            == sink_list@,
        Body::SystemVolume(SystemVolume::Update { name, enabled, muted, volume }) => match d.sinks {
            Some(old) => e.sinks matches Some(v) && v@ == patched_sinks(
                old@,
                name@,
                enabled,
                muted,
                volume,
            ),
            None => e.sinks is None,
        },
        _ => sinks_view(e.sinks) == sinks_view(d.sinks),
    }
}

pub open spec fn sinks_view(s: Option<Vec<SystemVolumeStream>>) -> Option<Seq<SystemVolumeStream>> {
    match s {
        Some(v) => Some(v@),
        None => None,
    }
}

impl Device {
    pub open spec fn paired(&self) -> bool {
        pinned(cert_view(self.config.certificate), self.peer_certificate@)
    }

    /// The session with a freshly connected peer: its record is built from the
    /// identity it announced, keeping the pinned certificate of a stored record.
    pub fn new(identity: Identity, stored: Option<DeviceConfig>, peer_certificate: Vec<u8>) -> (r:
        Device)
        ensures
            r.config.id == identity.device_id,
            r.config.name == identity.device_name,
            r.config.device_type == identity.device_type,
            cert_view(r.config.certificate) == match stored {
                Some(c) => cert_view(c.certificate),
                None => None,
            },
            r.peer_certificate == peer_certificate,
            !r.initiated_pair,
            !r.awaiting_pair_answer,
            !r.mpris_supports_album_art,
            r.players@.len() == 0,
            r.sinks is None,
    {
        let certificate = match stored {
            Some(c) => c.certificate,
            None => None,
        };
        Device {
            config: DeviceConfig {
                id: identity.device_id,
                name: identity.device_name,
                device_type: identity.device_type,
                certificate,
            },
            peer_certificate,
            initiated_pair: false,
            awaiting_pair_answer: false,
            mpris_supports_album_art: false,
            players: Vec::new(),
            sinks: None,
        }
    }

    /// Whether the peer counts as paired: its record pins exactly the
    /// certificate it presented at the handshake.
    pub fn is_paired(&self) -> (r: bool)
        ensures
            r == self.paired(),
    {
        match &self.config.certificate {
            Some(c) => same_bytes(c.as_slice(), self.peer_certificate.as_slice()),
            None => false,
        }
    }

    /// Decides what an inbound packet does. `size` and `transfer` are the
    /// envelope's payload fields.
    pub fn on_packet(
        &mut self,
        body: Body,
        size: Option<i64>,
        transfer: Option<PacketPayloadTransferInfo>,
    ) -> (effects: Vec<Effect>)
        ensures
            effects@ == inbound_effects(*old(self), body, size, transfer),
            inbound_next(*old(self), *final(self), body),
    {
        let paired = self.is_paired();
        match body {
            Body::Ping(p) => {
                let echo = copy_ping(&p);
                let mut effects = vec![Effect::Forward(Body::Ping(p)), Effect::Send(Body::Ping(echo))];
                if paired {
                    effects.push(Effect::PushPairedData);
                }
                effects
            },
            Body::Pair(pr) => self.on_pair(pr.pair),
            Body::BatteryRequest(_) => vec![Effect::ReplyBattery],
            Body::Clipboard(c) => vec![Effect::ClipboardContent(c.content)],
            Body::ClipboardConnect(c) => {
                if c.timestamp != 0 {
                    vec![Effect::ClipboardContent(c.content)]
                } else {
                    Vec::new()
                }
            },
            Body::ConnectivityReportRequest(_) => vec![Effect::ReplyConnectivityReport],
            Body::SystemVolume(v) => {
                match &v {
                    SystemVolume::List { sink_list } => {
                        self.sinks = Some(copy_streams(sink_list));
                    },
                    SystemVolume::Update { name, enabled, muted, volume } => {
                        match &mut self.sinks {
                            Some(list) => apply_volume_update(list, name, *enabled, *muted, *volume),
                            None => {},
                        }
                    },
                }
                vec![Effect::Forward(Body::SystemVolume(v))]
            },
            Body::SystemVolumeRequest(r) => {
                if r.request_sinks == Some(true) {
                    vec![Effect::ReplySystemVolume]
                } else {
                    vec![Effect::Forward(Body::SystemVolumeRequest(r))]
                }
            },
            Body::ShareRequest(r) => match r {
                ShareRequest::File(f) => match (size, transfer) {
                    (Some(sz), Some(t)) => vec![Effect::ReceiveFile { file: f, size: sz, transfer: t }],
                    _ => Vec::new(),
                },
                ShareRequest::Text { text } => vec![Effect::TextShare(text)],
                ShareRequest::Url { url } => vec![Effect::UrlShare(url)],
            },
            Body::Mpris(m) => match m {
                Mpris::List { player_list, supports_album_art_payload } => {
                    self.mpris_supports_album_art = supports_album_art_payload;
                    self.players = copy_strings(&player_list);
                    vec![Effect::PlayerList(player_list)]
                },
                Mpris::TransferringArt { player, transferring_album_art, .. } => {
                    match transfer {
                        Some(t) => {
                            if transferring_album_art {
                                vec![Effect::ReceiveAlbumArt { player, transfer: t }]
                            } else {
                                Vec::new()
                            }
                        },
                        None => Vec::new(),
                    }
                },
                Mpris::Info(info) => vec![Effect::Forward(Body::Mpris(Mpris::Info(info)))],
            },
            Body::MprisRequest(r) => match r {
                MprisRequest::List { .. } => vec![Effect::ReplyMprisPlayerList],
                MprisRequest::PlayerRequest { player, request_album_art, .. } => vec![
                    Effect::ReplyMprisPlayer { player, request_album_art },
                ],
                MprisRequest::Action(a) => vec![Effect::Forward(Body::MprisRequest(MprisRequest::Action(a)))],
            },
            Body::Identity(_) => Vec::new(),
            Body::Battery(b) => vec![Effect::Forward(Body::Battery(b))],
            Body::FindPhone(f) => vec![Effect::Forward(Body::FindPhone(f))],
            Body::ConnectivityReport(c) => vec![Effect::Forward(Body::ConnectivityReport(c))],
            Body::ShareRequestUpdate(u) => vec![Effect::Forward(Body::ShareRequestUpdate(u))],
            Body::MousepadKeyboardState(k) => vec![Effect::Forward(Body::MousepadKeyboardState(k))],
        }
    }

    /// The pair state machine, on receipt of `Pair { pair: p }`.
    fn on_pair(&mut self, p: bool) -> (effects: Vec<Effect>)
        ensures
            effects@ == pair_effects(old(self).paired(), old(self).initiated_pair, p),
            (
                cert_view(final(self).config.certificate),
                final(self).initiated_pair,
                final(self).awaiting_pair_answer,
            ) == pair_next(
                cert_view(old(self).config.certificate),
                old(self).peer_certificate@,
                old(self).initiated_pair,
                old(self).awaiting_pair_answer,
                p,
            ),
            final(self).config.id == old(self).config.id,
            final(self).config.name == old(self).config.name,
            final(self).config.device_type == old(self).config.device_type,
            final(self).peer_certificate == old(self).peer_certificate,
            final(self).mpris_supports_album_art == old(self).mpris_supports_album_art,
            final(self).players == old(self).players,
            final(self).sinks == old(self).sinks,
    {
        let paired = self.is_paired();
        let initiated = self.initiated_pair;
        if paired && p {
            Vec::new()
        } else if initiated && !paired && !p {
            self.initiated_pair = false;
            vec![Effect::NotifyPairEvent]
        } else if !paired && !p {
            Vec::new()
        } else if !paired && p {
            if initiated {
                self.initiated_pair = false;
                self.config.certificate = Some(copy_bytes(&self.peer_certificate));
                vec![
                    Effect::StoreConfig,
                    Effect::PairStatusChanged(true),
                    Effect::PushPairedData,
                    Effect::NotifyPairEvent,
                ]
            } else {
                self.awaiting_pair_answer = true;
                vec![Effect::AskPairing]
            }
        } else {
            self.config.certificate = None;
            vec![Effect::StoreConfig, Effect::PairStatusChanged(false)]
        }
    }

    /// Completes a pair request from the peer with the handler's answer;
    /// `None` (no answer within 30 s) declines. Does nothing unless an answer
    /// is awaited.
    pub fn on_pair_answer(&mut self, answer: Option<bool>) -> (effects: Vec<Effect>)
        ensures
            !old(self).awaiting_pair_answer ==> effects@.len() == 0 && *final(self) == *old(self),
            old(self).awaiting_pair_answer && answer == Some(true) ==> {
                &&& effects@ == seq![
                    Effect::Send(Body::Pair(Pair { pair: true })),
                    Effect::StoreConfig,
                    Effect::PairStatusChanged(true),
                    Effect::PushPairedData,
                ]
                &&& cert_view(final(self).config.certificate) == Some(old(self).peer_certificate@)
            },
            old(self).awaiting_pair_answer && answer != Some(true) ==> {
                &&& effects@ == seq![Effect::Send(Body::Pair(Pair { pair: false }))]
                &&& final(self).config.certificate == old(self).config.certificate
            },
            old(self).awaiting_pair_answer ==> {
                &&& !final(self).awaiting_pair_answer
                &&& !final(self).initiated_pair
                &&& final(self).config.id == old(self).config.id
                &&& final(self).config.name == old(self).config.name
                &&& final(self).config.device_type == old(self).config.device_type
                &&& final(self).peer_certificate == old(self).peer_certificate
                &&& final(self).mpris_supports_album_art == old(self).mpris_supports_album_art
                &&& final(self).players == old(self).players
                &&& final(self).sinks == old(self).sinks
            },
    {
        if !self.awaiting_pair_answer {
            return Vec::new();
        }
        self.awaiting_pair_answer = false;
        self.initiated_pair = false;
        let accept = match answer {
            Some(a) => a,
            None => false,
        };
        if accept {
            self.config.certificate = Some(copy_bytes(&self.peer_certificate));
            vec![
                Effect::Send(Body::Pair(Pair { pair: true })),
                Effect::StoreConfig,
                Effect::PairStatusChanged(true),
                Effect::PushPairedData,
            ]
        } else {
            vec![Effect::Send(Body::Pair(Pair { pair: false }))]
        }
    }

    /// Starts a locally initiated pair: refused when already paired; else the
    /// request is sent and the session waits for the peer's answer.
    pub fn begin_pair(&mut self) -> (r: Result<Vec<Effect>, KdeConnectError>)
        ensures
            old(self).paired() ==> r == Err::<Vec<Effect>, _>(KdeConnectError::DeviceAlreadyPaired)
                && *final(self) == *old(self),
            !old(self).paired() ==> (r matches Ok(effects) && effects@ == seq![
                Effect::Send(Body::Pair(Pair { pair: true })),
            ]) && *final(self) == (Device { initiated_pair: true, ..*old(self) }),
    {
        if self.is_paired() {
            return Err(KdeConnectError::DeviceAlreadyPaired);
        }
        self.initiated_pair = true;
        Ok(vec![Effect::Send(Body::Pair(Pair { pair: true }))])
    }

    /// What a locally initiated pair returns once the peer has answered.
    pub fn pair_outcome(&self) -> (r: Result<(), KdeConnectError>)
        ensures
            self.paired() ==> r is Ok,
            !self.paired() ==> r == Err::<(), _>(KdeConnectError::DeviceRejectedPair),
    {
        if self.is_paired() {
            Ok(())
        } else {
            Err(KdeConnectError::DeviceRejectedPair)
        }
    }

    /// A locally initiated unpair: the pinned certificate is dropped, the record
    /// persisted, the handler told and the peer informed.
    pub fn unpair(&mut self) -> (effects: Vec<Effect>)
        ensures
            effects@ == seq![
                Effect::StoreConfig,
                Effect::PairStatusChanged(false),
                Effect::Send(Body::Pair(Pair { pair: false })),
            ],
            *final(self) == (Device {
                config: DeviceConfig { certificate: None, ..old(self).config },
                ..*old(self)
            }),
    {
        self.config.certificate = None;
        vec![
            Effect::StoreConfig,
            Effect::PairStatusChanged(false),
            Effect::Send(Body::Pair(Pair { pair: false })),
        ]
    }

    /// The paired-data burst built from the handler's current state: battery,
    /// clipboard stamped with `now_ms`, connectivity and volume sinks. Empty
    /// unless the peer is paired.
    pub fn paired_data(
        &self,
        battery: Battery,
        clipboard: String,
        now_ms: u128,
        connectivity: ConnectivityReport,
        sinks: Vec<SystemVolumeStream>,
    ) -> (r: Vec<Body>)
        ensures
            !self.paired() ==> r@.len() == 0,
            self.paired() ==> r@ == seq![
                Body::Battery(battery),
                Body::ClipboardConnect(ClipboardConnect { content: clipboard, timestamp: now_ms }),
                Body::ConnectivityReport(connectivity),
                Body::SystemVolume(SystemVolume::List { sink_list: sinks }),
            ],
    {
        if !self.is_paired() {
            return Vec::new();
        }
        vec![
            Body::Battery(battery),
            Body::ClipboardConnect(ClipboardConnect { content: clipboard, timestamp: now_ms }),
            Body::ConnectivityReport(connectivity),
            Body::SystemVolume(SystemVolume::List { sink_list: sinks }),
        ]
    }
}

/// A pair that the peer accepts, then an unpair, leaves the record without a
/// certificate and the session unpaired.
pub proof fn lemma_pair_then_unpair(d0: Device, d1: Device, d2: Device)
    requires
        !d0.paired(),
        d0.initiated_pair,
        (cert_view(d1.config.certificate), d1.initiated_pair, d1.awaiting_pair_answer)
            == pair_next(
            cert_view(d0.config.certificate),
            d0.peer_certificate@,
            d0.initiated_pair,
            d0.awaiting_pair_answer,
            true,
        ),
        d1.peer_certificate@ == d0.peer_certificate@,
        d2 == (Device { config: DeviceConfig { certificate: None, ..d1.config }, ..d1 }),
    ensures
        d1.paired(),
        !d1.initiated_pair,
        d2.config.certificate is None,
        !d2.paired(),
{
}

/// A ping is answered with a ping carrying the same message, in whatever
/// state the session is.
pub proof fn lemma_ping_is_echoed(
    d: Device,
    message: Option<String>,
    size: Option<i64>,
    transfer: Option<PacketPayloadTransferInfo>,
)
    ensures
        inbound_effects(d, Body::Ping(Ping { message }), size, transfer).len() >= 2,
        inbound_effects(d, Body::Ping(Ping { message }), size, transfer)[1] == Effect::Send(
            Body::Ping(Ping { message }),
        ),
{
}

/// Clipboard announcements with a zero timestamp are ignored; any other
/// timestamp hands the content to the handler.
pub proof fn lemma_clipboard_connect(
    d: Device,
    content: String,
    timestamp: u128,
    size: Option<i64>,
    transfer: Option<PacketPayloadTransferInfo>,
)
    ensures
        timestamp == 0 ==> inbound_effects(
            d,
            Body::ClipboardConnect(ClipboardConnect { content, timestamp }),
            size,
            transfer,
        ).len() == 0,
        timestamp != 0 ==> inbound_effects(
            d,
            Body::ClipboardConnect(ClipboardConnect { content, timestamp }),
            size,
            transfer,
        ) == seq![Effect::ClipboardContent(content)],
{
}

/// Where the local album art asked for lives: the request must be a `file://`
/// URL equal to the player's current art URL; the path is the URL without its
/// `file://` prefixes.
pub open spec fn album_art_request(req: Option<Seq<char>>, art: Option<Seq<char>>) -> Option<
    Seq<char>,
> {
    match req {
        Some(url) => if has_prefix(url, "file://"@) && art == Some(url) {
            Some(strip_all_prefixes(url, "file://"@))
        } else {
            None
        },
        None => None,
    }
}

pub open spec fn opt_text(s: Option<String>) -> Option<Seq<char>> {
    match s {
        Some(t) => Some(t@),
        None => None,
    }
}

/// The local file to send as album art in reply to a player request, if any.
pub fn album_art_path(request_album_art: &Option<String>, player: &MprisPlayer) -> (r: Option<
    String,
>)
    ensures
        opt_text(r) == album_art_request(opt_text(*request_album_art), opt_text(player.album_art_url)),
{
    let prefix = "file://";
    match request_album_art {
        Some(url) => {
            if !starts_with(url.as_str(), prefix) {
                return None;
            }
            match &player.album_art_url {
                Some(art) => {
                    if *art == *url {
                        Some(trim_start_matches(url.as_str(), prefix).to_owned())
                    } else {
                        None
                    }
                },
                None => None,
            }
        },
        None => None,
    }
}

} // verus!
