//! Errors surfaced to the host.
use vstd::prelude::*;

verus! {

/// Everything that can go wrong, as the host sees it.
#[derive(Clone, Copy, Debug, PartialEq, Eq, Structural)]
pub enum KdeConnectError {
    Io,
    Mdns,
    Rcgen,
    Rustls,
    InvalidDnsName,
    SerdeJson,
    X509,
    ChannelSendError,
    ChannelRecvError,
    NoPeerCerts,
    ServerAlreadyStarted,
    OsStringConversionError,
    NoPayloadTransferPortFound,
    NoFileName,
    Other,
    DeviceRejectedPair,
    DeviceAlreadyPaired,
}

impl KdeConnectError {
    /// A short human-readable description.
    pub fn message(&self) -> &'static str {
        match self {
            KdeConnectError::Io => "I/O error",
            KdeConnectError::Mdns => "mDNS error",
            KdeConnectError::Rcgen => "Key or certificate generation error",
            KdeConnectError::Rustls => "TLS error",
            KdeConnectError::InvalidDnsName => "Invalid DNS name",
            KdeConnectError::SerdeJson => "JSON decode error",
            KdeConnectError::X509 => "X.509 parse error",
            KdeConnectError::ChannelSendError => "Channel send error",
            KdeConnectError::ChannelRecvError => "Channel recieve error",
            KdeConnectError::NoPeerCerts => "No peer certificates",
            KdeConnectError::ServerAlreadyStarted => "Server task already started",
            KdeConnectError::OsStringConversionError => "Failed to convert OsString to str",
            KdeConnectError::NoPayloadTransferPortFound => "Failed to find port for payload transfer",
            KdeConnectError::NoFileName => "No filename",
            KdeConnectError::Other => "Other",
            KdeConnectError::DeviceRejectedPair => "Device rejected pair",
            KdeConnectError::DeviceAlreadyPaired => "Already paired",
        }
    }
}

} // verus!
