//! Connectivity state of the device.

use vstd::prelude::*;
use vstd::string::*;

verus! {

/// The transport of the active network; `Disconnected` where there is none.
#[derive(Debug, Clone, PartialEq, Eq, Structural)]
pub enum NetworkType {
    Wifi,
    Cellular,
    Ethernet,
    Disconnected,
    Unknown,
}

/// The name under which a transport is shown; where there is no network it is
/// shown as `None`.
pub open spec fn network_type_name(t: NetworkType) -> Seq<char> {
    match t {
        NetworkType::Wifi => "Wifi"@,
        NetworkType::Cellular => "Cellular"@,
        NetworkType::Ethernet => "Ethernet"@,
        NetworkType::Disconnected => "None"@,
        NetworkType::Unknown => "Unknown"@,
    }
}

impl NetworkType {
    /// The transport's name, as shown to the user.
    pub fn name(&self) -> (s: String)
        ensures
            s@ == network_type_name(*self),
    {
        match self {
            NetworkType::Wifi => String::from_str("Wifi"),
            NetworkType::Cellular => String::from_str("Cellular"),
            NetworkType::Ethernet => String::from_str("Ethernet"),
            NetworkType::Disconnected => String::from_str("None"),
            NetworkType::Unknown => String::from_str("Unknown"),
        }
    }
}

/// A snapshot of the device's connectivity.
#[derive(Debug, Clone)]
pub struct NetworkState {
    pub is_connected: bool,
    pub network_type: NetworkType,
    pub ssid: Option<String>,
    pub signal_strength: Option<i32>,
}

impl NetworkState {
    pub fn is_connected(&self) -> (r: bool)
        ensures
            r == self.is_connected,
    {
        self.is_connected
    }

    pub fn network_type(&self) -> (r: &NetworkType)
        ensures
            *r == self.network_type,
    {
        &self.network_type
    }
}

/// The state reported where no platform connectivity service answers: connected
/// over Wi-Fi to "Desktop-Stub", at -50 dBm.
pub open spec fn is_stub_state(s: NetworkState) -> bool {
    &&& s.is_connected
    &&& s.network_type == NetworkType::Wifi
    &&& s.ssid matches Some(name) && name@ == "Desktop-Stub"@
    &&& s.signal_strength == Some(-50i32)
}

fn stub() -> (s: NetworkState)
    ensures
        is_stub_state(s),
{
    NetworkState {
        is_connected: true,
        network_type: NetworkType::Wifi,
        ssid: Some(String::from_str("Desktop-Stub")),
        signal_strength: Some(-50),
    }
}

/// What the platform's `ConnectivityManager` answered.
#[derive(Debug, Clone, Copy, PartialEq, Eq)]
pub enum NetworkProbe {
    /// The connectivity service could not be reached or a call into it failed.
    Unavailable,
    /// `getActiveNetwork()` returned no network.
    NoActiveNetwork,
    /// The active network reported no `NetworkCapabilities`.
    NoCapabilities,
    /// The capabilities of the active network: `NET_CAPABILITY_INTERNET` and the
    /// Wi-Fi, cellular and Ethernet transports.
    Capabilities { internet: bool, wifi: bool, cellular: bool, ethernet: bool },
}

/// Wi-Fi wins over cellular, which wins over Ethernet.
pub open spec fn transport_type(wifi: bool, cellular: bool, ethernet: bool) -> NetworkType {
    if wifi {
        NetworkType::Wifi
    } else if cellular {
        NetworkType::Cellular
    } else if ethernet {
        NetworkType::Ethernet
    } else {
        NetworkType::Unknown
    }
}

/// The state that a probe describes: `None` where the service did not answer.
pub open spec fn probe_state(probe: NetworkProbe) -> Option<(bool, NetworkType)> {
    match probe {
        NetworkProbe::Unavailable => None,
        NetworkProbe::NoActiveNetwork => Some((false, NetworkType::Disconnected)),
        NetworkProbe::NoCapabilities => Some((true, NetworkType::Unknown)),
        NetworkProbe::Capabilities { internet, wifi, cellular, ethernet } => Some(
            (internet, transport_type(wifi, cellular, ethernet)),
        ),
    }
}

/// Turns what the connectivity service answered into a network state.
///
/// A device never reports an SSID or a signal strength here.
pub fn read(probe: &NetworkProbe) -> (r: Option<NetworkState>)
    ensures
        match probe_state(*probe) {
            None => r is None,
            Some((connected, kind)) => r matches Some(s) && s.is_connected == connected
                && s.network_type == kind && s.ssid is None && s.signal_strength is None,
        },
{
    match probe {
        NetworkProbe::Unavailable => None,
        NetworkProbe::NoActiveNetwork => Some(
            NetworkState {
                is_connected: false,
                network_type: NetworkType::Disconnected,
                ssid: None,
                signal_strength: None,
            },
        ),
        NetworkProbe::NoCapabilities => Some(
            NetworkState {
                is_connected: true,
                network_type: NetworkType::Unknown,
                ssid: None,
                signal_strength: None,
            },
        ),
        NetworkProbe::Capabilities { internet, wifi, cellular, ethernet } => {
            let network_type = if *wifi {
                NetworkType::Wifi
            } else if *cellular {
                NetworkType::Cellular
            } else if *ethernet {
                NetworkType::Ethernet
            } else {
                NetworkType::Unknown
            };
            Some(
                NetworkState {
                    is_connected: *internet,
                    network_type,
                    ssid: None,
                    signal_strength: None,
                },
            )
        },
    }
}

/// Entry point to the device's connectivity state.
pub struct ConnectivityManager;

impl ConnectivityManager {
    /// The current network state where no connectivity service is available:
    /// simulated data.
    pub fn current() -> (s: NetworkState)
        ensures
            is_stub_state(s),
    {
        stub()
    }

    /// The current network state from what the connectivity service answered,
    /// the simulated state where it did not answer.
    pub fn from_probe(probe: &NetworkProbe) -> (s: NetworkState)
        ensures
            match probe_state(*probe) {
                None => is_stub_state(s),
                Some((connected, kind)) => s.is_connected == connected && s.network_type == kind
                    && s.ssid is None && s.signal_strength is None,
            },
    {
        match read(probe) {
            Some(s) => s,
            None => stub(),
        }
    }
}

} // verus!
