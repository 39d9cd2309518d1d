//! Discovery decisions: which identities lead to a connection, what this
//! device announces, and what it publishes over mDNS.
use vstd::prelude::*;
use crate::connections::ConnectedSet;
use crate::packets::{kind_type_name, DeviceType, Identity, PacketKind, PROTOCOL_VERSION};
use crate::text::same_text;

verus! {

/// TCP and UDP port of the protocol.
pub const KDECONNECT_PORT: u16 = 1716;

/// Largest identity datagram that is read.
pub const MAX_DATAGRAM_LEN: usize = 8192;

/// mDNS service type.
pub const MDNS_SERVICE_TYPE: &'static str = "_kdeconnect._udp.local.";

/// Whether a received datagram of `len` bytes fits the read buffer.
pub fn datagram_accepted(len: usize) -> (r: bool)
    ensures
        r == (len <= 8192),
{
    len <= MAX_DATAGRAM_LEN
}

/// Decides whether a UDP identity leads to an outbound connection: it must not
/// be our own, must carry a TCP port, and its device must not be connected.
/// When it does, the device is admitted to `connected` and the port returned.
pub fn admit_udp_identity(connected: &mut ConnectedSet, identity: &Identity, own_id: &str) -> (r:
    Option<u16>)
    requires
        old(connected).wf(),
    ensures
        final(connected).wf(),
        ({
            let admitted = identity.device_id@ != own_id@ && identity.tcp_port is Some
                && !old(connected)@.contains(identity.device_id@);
            &&& admitted ==> r == identity.tcp_port && final(connected)@ == old(connected)@.push(
                identity.device_id@,
            )
            &&& !admitted ==> r is None && final(connected)@ == old(connected)@
        }),
{
    if same_text(identity.device_id.as_str(), own_id) {
        return None;
    }
    match identity.tcp_port {
        Some(port) => {
            if connected.try_insert(identity.device_id.clone()) {
                Some(port)
            } else {
                None
            }
        },
        None => None,
    }
}

/// Decides whether a peer that dialed us gets a session: it must not be
/// connected already. When admitted, it is recorded in `connected`.
pub fn admit_tcp_identity(connected: &mut ConnectedSet, identity: &Identity) -> (r: bool)
    requires
        old(connected).wf(),
    ensures
        final(connected).wf(),
        r == !old(connected)@.contains(identity.device_id@),
        r ==> final(connected)@ == old(connected)@.push(identity.device_id@),
        !r ==> final(connected)@ == old(connected)@,
{
    connected.try_insert(identity.device_id.clone())
}

/// Whether a resolved mDNS service should be sent our identity: it advertises
/// an `id` other than ours and has an address.
pub fn mdns_should_contact(advertised_id: Option<&str>, own_id: &str, has_address: bool) -> (r:
    bool)
    ensures
        r == (advertised_id matches Some(id) && id@ != own_id@ && has_address),
{
    match advertised_id {
        Some(id) => !same_text(id, own_id) && has_address,
        None => false,
    }
}

/// The TXT properties published over mDNS.
pub fn mdns_properties(device_id: &String, device_name: &String, device_type: DeviceType) -> (r:
    Vec<(String, String)>)
    ensures
        r@.len() == 4,
        r@[0].0@ == "id"@ && r@[0].1@ == device_id@,
        r@[1].0@ == "name"@ && r@[1].1@ == device_name@,
        r@[2].0@ == "type"@ && r@[2].1@ == crate::packets::device_type_name(device_type),
        r@[3].0@ == "protocol"@ && r@[3].1@ == "7"@,
{
    vec![
        ("id".to_owned(), device_id.clone()),
        ("name".to_owned(), device_name.clone()),
        ("type".to_owned(), device_type.as_str().to_owned()),
        ("protocol".to_owned(), "7".to_owned()),
    ]
}

/// The packet kinds this engine both accepts and sends.
pub open spec fn capability_kinds() -> Seq<PacketKind> {
    seq![
        PacketKind::Ping,
        PacketKind::Battery,
        PacketKind::BatteryRequest,
        PacketKind::Clipboard,
        PacketKind::ClipboardConnect,
        PacketKind::FindPhone,
        PacketKind::ConnectivityReport,
        PacketKind::ConnectivityReportRequest,
        PacketKind::Presenter,
        PacketKind::SystemVolume,
        PacketKind::SystemVolumeRequest,
        PacketKind::ShareRequest,
        PacketKind::Mpris,
        PacketKind::MprisRequest,
        PacketKind::MousepadRequest,
        PacketKind::MousepadEcho,
        PacketKind::MousepadKeyboardState,
    ]
}

/// Wire-type strings of the capability kinds, in order.
pub fn capabilities() -> (r: Vec<String>)
    ensures
        r@.len() == capability_kinds().len(),
        forall|i: int| 0 <= i < r@.len() ==> (#[trigger] r@[i])@ == kind_type_name(capability_kinds()[i]),
{
    let kinds = [
        PacketKind::Ping,
        PacketKind::Battery,
        PacketKind::BatteryRequest,
        PacketKind::Clipboard,
        PacketKind::ClipboardConnect,
        PacketKind::FindPhone,
        PacketKind::ConnectivityReport,
        PacketKind::ConnectivityReportRequest,
        PacketKind::Presenter,
        PacketKind::SystemVolume,
        PacketKind::SystemVolumeRequest,
        PacketKind::ShareRequest,
        PacketKind::Mpris,
        PacketKind::MprisRequest,
        PacketKind::MousepadRequest,
        PacketKind::MousepadEcho,
        PacketKind::MousepadKeyboardState,
    ];
    assert(kinds@ == capability_kinds());
    let mut out: Vec<String> = Vec::new();
    let mut i: usize = 0;
    while i < 17
        invariant
            kinds@ == capability_kinds(),
            i <= 17,
            out@.len() == i,
            forall|j: int| 0 <= j < i ==> (#[trigger] out@[j])@ == kind_type_name(capability_kinds()[j]),
        decreases 17 - i,
    {
        out.push(kinds[i].type_str().to_owned());
        i = i + 1;
    }
    out
}

/// Our own identity; `tcp_port` is set on UDP announcements and left out on
/// the first line of a TCP connection.
pub fn make_identity(
    device_id: &String,
    device_name: &String,
    device_type: DeviceType,
    tcp_port: Option<u16>,
) -> (r: Identity)
    ensures
        r.device_id@ == device_id@,
        r.device_name@ == device_name@,
        r.device_type == device_type,
        r.protocol_version == 7,
        r.tcp_port == tcp_port,
        r.incoming_capabilities@.len() == capability_kinds().len(),
        r.outgoing_capabilities@.len() == capability_kinds().len(),
        forall|i: int|
            0 <= i < capability_kinds().len() ==> (#[trigger] r.incoming_capabilities@[i])@
                == kind_type_name(capability_kinds()[i]),
        forall|i: int|
            0 <= i < capability_kinds().len() ==> (#[trigger] r.outgoing_capabilities@[i])@
                == kind_type_name(capability_kinds()[i]),
{
    Identity {
        device_id: device_id.clone(),
        device_name: device_name.clone(),
        device_type,
        incoming_capabilities: capabilities(),
        outgoing_capabilities: capabilities(),
        protocol_version: PROTOCOL_VERSION,
        tcp_port,
    }
}

} // verus!
