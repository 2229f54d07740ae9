//! Errors of the watcher.
use vstd::prelude::*;

verus! {

/// What went wrong, by kind.
#[derive(Clone, Copy, Debug, PartialEq, Eq, Structural)]
pub enum WatcherError {
    /// The configuration file could not be read or written.
    ConfigIo,
    /// The configuration file is not valid TOML for a configuration.
    ConfigDecode,
    /// The configuration could not be written as TOML.
    ConfigEncode,
    /// A threshold is not a decimal `u64`.
    ConfigParseU64,
    /// A duration text could not be read.
    ConfigDuration,
    /// The gRPC transport could not be set up.
    GrpcTransport,
    /// The packet commitments answer held no total.
    GetPacketCommitmentsTotal,
    /// The channel client state answer held no client state.
    GetChannelClientState,
    /// The channel consensus state answer held no consensus state.
    GetChannelConsensusState,
    /// A gauge could not be created or registered.
    MetricRegistration,
}

impl WatcherError {
    /// A one-line description of the error.
    pub fn message(&self) -> (r: &'static str) {
        match self {
            WatcherError::ConfigIo => "config I/O error",
            WatcherError::ConfigDecode => "invalid configuration",
            WatcherError::ConfigEncode => "invalid configuration",
            WatcherError::ConfigParseU64 => "invalid number",
            WatcherError::ConfigDuration => "invalid duration",
            WatcherError::GrpcTransport => "error in underlying transport when making gRPC call",
            WatcherError::GetPacketCommitmentsTotal => "error in getting packet commitments total",
            WatcherError::GetChannelClientState => "error in getting channel client state",
            WatcherError::GetChannelConsensusState => "error in getting channel consensus state",
            WatcherError::MetricRegistration => "metric could not be created or registered",
        }
    }
}

} // verus!
