//! Error taxonomy of the gateway core.
//!
//! Errors raised by collaborators outside this crate (configuration loading,
//! transports, codecs) are carried as their rendered message, so that the
//! taxonomy stays a plain value type.

use vstd::prelude::*;

verus! {

/// Top level error of the gateway core.
#[derive(Debug, Clone, PartialEq, Eq)]
pub enum Error {
    /// Bad startup configuration.
    Config(String),
    /// A custom or rare error that does not deserve a variant of its own.
    Custom(String),
    /// An input/output failure.
    IO(String),
    /// A signing or key failure.
    CryptoError(String),
    /// A message could not be encoded.
    Encode(EncodeError),
    /// A message or frame could not be decoded.
    Decode(DecodeError),
    /// An upstream service failed.
    Service(ServiceError),
    /// The packet forwarder link failed.
    Semtech(String),
    /// A beacon could not be constructed.
    Beacon(BeaconError),
    /// The gateway task failed.
    Gateway(String),
    /// Region parameters are missing or incomplete.
    Region(RegionError),
    /// The system clock is set before the unix epoch.
    SystemTime,
}

/// Result type used throughout the crate.
pub type Result<T = ()> = std::result::Result<T, Error>;

#[derive(Debug, Clone, PartialEq, Eq)]
pub enum EncodeError {
    /// Protobuf encoding failed.
    Prost(String),
}

#[derive(Debug, Clone, PartialEq, Eq)]
pub enum DecodeError {
    Uri(String),
    KeypairUri(String),
    Json(String),
    Base64(String),
    Addr(String),
    Prost(String),
    LoraWan(String),
    Semtech(String),
    InvalidCrc,
    InvalidEnvelope,
    NoRx1Window,
    NoDataRate,
    NotBeacon,
    InvalidBeaconDataRate(String),
}

#[derive(Debug, Clone, PartialEq, Eq)]
pub enum ServiceError {
    Service(String),
    Rpc(String),
    Stream,
    Channel,
    NoService,
    LocalClientConnect(String),
}

#[derive(Debug, Clone, Copy, PartialEq, Eq)]
pub enum RegionError {
    /// No region parameters found or active.
    NoRegionParams,
    /// No transmit power is defined in the region parameters.
    NoRegionTxPower,
}

#[derive(Debug, Clone, Copy, PartialEq, Eq)]
pub enum BeaconError {
    /// The entropies disagree on their version, or the version is unknown.
    InvalidVersion,
}

impl DecodeError {
    pub fn invalid_envelope() -> (e: Error)
        ensures
            e == Error::Decode(DecodeError::InvalidEnvelope),
    {
        Error::Decode(DecodeError::InvalidEnvelope)
    }

    pub fn invalid_crc() -> (e: Error)
        ensures
            e == Error::Decode(DecodeError::InvalidCrc),
    {
        Error::Decode(DecodeError::InvalidCrc)
    }

    pub fn prost_decode(msg: &'static str) -> (e: Error)
        ensures
            e matches Error::Decode(DecodeError::Prost(m)) && m@ == msg@,
    {
        Error::Decode(DecodeError::Prost(msg.to_string()))
    }

    pub fn keypair_uri(msg: String) -> (e: Error)
        ensures
            e == Error::Decode(DecodeError::KeypairUri(msg)),
    {
        Error::Decode(DecodeError::KeypairUri(msg))
    }

    pub fn no_rx1_window() -> (e: Error)
        ensures
            e == Error::Decode(DecodeError::NoRx1Window),
    {
        Error::Decode(DecodeError::NoRx1Window)
    }

    pub fn no_data_rate() -> (e: Error)
        ensures
            e == Error::Decode(DecodeError::NoDataRate),
    {
        Error::Decode(DecodeError::NoDataRate)
    }

    pub fn invalid_beacon_data_rate(datarate: String) -> (e: Error)
        ensures
            e == Error::Decode(DecodeError::InvalidBeaconDataRate(datarate)),
    {
        Error::Decode(DecodeError::InvalidBeaconDataRate(datarate))
    }

    pub fn not_beacon() -> (e: Error)
        ensures
            e == Error::Decode(DecodeError::NotBeacon),
    {
        Error::Decode(DecodeError::NotBeacon)
    }
}

impl RegionError {
    pub fn no_region_params() -> (e: Error)
        ensures
            e == Error::Region(RegionError::NoRegionParams),
    {
        Error::Region(RegionError::NoRegionParams)
    }

    pub fn no_region_tx_power() -> (e: Error)
        ensures
            e == Error::Region(RegionError::NoRegionTxPower),
    {
        Error::Region(RegionError::NoRegionTxPower)
    }
}

impl Error {
    /// Use for custom or rare errors that do not deserve a variant of their
    /// own.
    pub fn custom(msg: String) -> (e: Error)
        ensures
            e == Error::Custom(msg),
    {
        Error::Custom(msg)
    }

    pub fn channel() -> (e: Error)
        ensures
            e == Error::Service(ServiceError::Channel),
    {
        Error::Service(ServiceError::Channel)
    }

    pub fn no_service() -> (e: Error)
        ensures
            e == Error::Service(ServiceError::NoService),
    {
        Error::Service(ServiceError::NoService)
    }

    pub fn local_client_connect(cause: String) -> (e: Error)
        ensures
            e == Error::Service(ServiceError::LocalClientConnect(cause)),
    {
        Error::Service(ServiceError::LocalClientConnect(cause))
    }

    pub fn invalid_version() -> (e: Error)
        ensures
            e == Error::Beacon(BeaconError::InvalidVersion),
    {
        Error::Beacon(BeaconError::InvalidVersion)
    }

    /// The stream to an upstream service was closed while sending.
    pub fn stream_closed() -> (e: Error)
        ensures
            e == Error::Service(ServiceError::Stream),
    {
        Error::Service(ServiceError::Stream)
    }
}

} // verus!
