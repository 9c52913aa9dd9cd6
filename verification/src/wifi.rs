//! Interfaces for devices that provide WiFi.
//!
//! Such devices fall in two categories: a station is a client of an
//! access point, and an access point accepts incoming connections. Some
//! devices can act as both at the same time.

use crate::errorcode::ErrorCode;
use vstd::prelude::*;

verus! {

/// The security scheme a network uses.
#[derive(Copy, Clone)]
pub enum Security {
    /// Wired-equivalent privacy.
    Wep,
    /// WiFi protected access.
    Wpa,
    /// WiFi protected access, second revision.
    Wpa2,
    /// WiFi protected access, third revision.
    Wpa3,
}

/// The state of the device in its role as a station.
pub enum StationStatus {
    /// The device is not a station; it might be an access point.
    Off,
    /// The station is connected to the network.
    Connected(Network),
    /// The station is in the process of connecting to the network.
    Connecting(Network),
    /// The station is not connected to any network.
    Disconnected,
    /// The station is disconnecting from a network.
    Disconnecting,
}

/// The state of the device in its role as an access point.
pub enum AccessPointStatus {
    /// The device is not an access point; it might be a station.
    Off,
    /// The access point's network name and security scheme have not been
    /// configured yet.
    NoConfiguration,
    /// The access point is in the process of starting and broadcasting
    /// the network.
    Starting(Network),
    /// The access point is started and is broadcasting the network.
    Started(Network),
    /// The access point is stopped.
    Stopped,
    /// The access point is in the process of stopping.
    Stopping,
}

/// The name of a network, at most 32 bytes long.
#[derive(Copy, Clone)]
pub struct Ssid {
    /// The name bytes; only the first `len` are meaningful.
    pub value: [u8; 32],
    /// The actual length of the name.
    pub len: u8,
}

impl Default for Ssid {
    /// The empty network name.
    fn default() -> (s: Self)
        ensures
            s.len == 0,
    {
        Ssid { value: [0u8; 32], len: 0 }
    }
}

/// A network a WiFi device can see, join or broadcast.
#[derive(Copy, Clone)]
pub struct Network {
    /// The network's name.
    pub ssid: Ssid,
    /// Received signal strength, from 0 to 255.
    pub rssi: u8,
    /// The network's security scheme, when one is known.
    pub security: Option<Security>,
}

impl Default for Network {
    /// An unnamed network with no signal and unknown security.
    fn default() -> (n: Self)
        ensures
            n.rssi == 0,
            n.security is None,
    {
        Network { ssid: Ssid { value: [0u8; 32], len: 0 }, rssi: 0, security: None }
    }
}

/// The functions used for handling WiFi connections as a station.
pub trait Station {
    /// Try to initiate a connection to the network.
    fn connect(&self, network: Network) -> Result<(), ErrorCode>;

    /// Try to disconnect from the network the station is currently
    /// connected to.
    fn disconnect(&self) -> Result<(), ErrorCode>;

    /// Return the station's status.
    fn get_status(&self) -> StationStatus;
}

/// The functions used to get information about existing networks.
pub trait Scanner<'a> {
    /// Start scanning the available WiFi networks.
    fn scan(&self) -> Result<(), (ErrorCode, &'a [Network])>;
}

/// The functions used for handling WiFi connections as an access point.
pub trait AccessPoint {
    /// Set the network name and security scheme of the access point.
    ///
    /// This function should be called only when the access point's
    /// status is `Stopped`, otherwise it should return `INVAL`. A
    /// successful return means the name and security scheme will be set
    /// and a call to the client's completion callback will follow.
    fn configure(&self, ssid: Ssid, security: Security) -> Result<(), ErrorCode>;

    /// Start the access point.
    ///
    /// This function should be called only when the access point's
    /// status is `Stopped`: it should return `OFF` when the device is
    /// off, `INVAL` when unconfigured or already started, and `BUSY`
    /// while starting or stopping. A successful return means the access
    /// point will try to start and a call to the client's completion
    /// callback will follow.
    fn start(&self) -> Result<(), ErrorCode>;

    /// Stop the access point.
    ///
    /// This function should be called only when the access point's
    /// status is `Started`: it should return `OFF` when the device is
    /// off, `INVAL` when unconfigured or stopped, and `BUSY` while
    /// starting or stopping. A successful return means the access point
    /// will try to stop and a call to the client's completion callback
    /// will follow.
    fn stop(&self) -> Result<(), ErrorCode>;

    /// Synchronously get the status of the access point.
    fn get_status(&self) -> AccessPointStatus;
}

/// Callback handler for the completion of station commands.
pub trait StationClient {
    /// Called when a station command completes, with the station's new
    /// status or the error encountered.
    fn command_complete(&self, network: Network, status: Result<StationStatus, ErrorCode>);
}

/// Callback handler for the completion of a scan.
pub trait ScannerClient {
    /// Called when a scan completes, with the networks found.
    fn scan_done(&self, networks: &[Network], len: usize, status: Result<(), ErrorCode>);
}

/// Callback handler for the completion of access-point commands.
pub trait AccessPointClient {
    /// Called when an access-point command completes, with the access
    /// point's new status or the error encountered.
    fn command_complete(&self, network: Network, status: Result<AccessPointStatus, ErrorCode>);
}

} // verus!
