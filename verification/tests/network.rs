use sharedroid::network::{read, ConnectivityManager, NetworkProbe, NetworkType};

#[test]
fn current_is_the_simulated_state() {
    let s = ConnectivityManager::current();
    assert!(s.is_connected());
    assert_eq!(s.network_type(), &NetworkType::Wifi);
    assert_eq!(s.ssid.as_deref(), Some("Desktop-Stub"));
    assert_eq!(s.signal_strength, Some(-50));
}

#[test]
fn read_classifies_transports() {
    let caps = |internet, wifi, cellular, ethernet| NetworkProbe::Capabilities { internet, wifi, cellular, ethernet };
    let t = |p: NetworkProbe| read(&p).map(|s| (s.is_connected, s.network_type));
    assert_eq!(t(caps(true, true, true, true)), Some((true, NetworkType::Wifi)));
    assert_eq!(t(caps(true, false, true, true)), Some((true, NetworkType::Cellular)));
    assert_eq!(t(caps(false, false, false, true)), Some((false, NetworkType::Ethernet)));
    assert_eq!(t(caps(true, false, false, false)), Some((true, NetworkType::Unknown)));
    assert_eq!(t(NetworkProbe::NoActiveNetwork), Some((false, NetworkType::Disconnected)));
    assert_eq!(t(NetworkProbe::NoCapabilities), Some((true, NetworkType::Unknown)));
    assert_eq!(t(NetworkProbe::Unavailable), None);
}

#[test]
fn read_never_reports_ssid_or_signal() {
    let s = read(&NetworkProbe::NoActiveNetwork).unwrap();
    assert!(s.ssid.is_none());
    assert!(s.signal_strength.is_none());
}

#[test]
fn from_probe_falls_back_to_simulated_state() {
    let s = ConnectivityManager::from_probe(&NetworkProbe::Unavailable);
    assert_eq!(s.ssid.as_deref(), Some("Desktop-Stub"));
    let s = ConnectivityManager::from_probe(&NetworkProbe::NoActiveNetwork);
    assert!(!s.is_connected());
    assert_eq!(s.network_type, NetworkType::Disconnected);
}

#[test]
fn network_type_names_match_the_shown_text() {
    assert_eq!(NetworkType::Wifi.name(), "Wifi");
    assert_eq!(NetworkType::Cellular.name(), "Cellular");
    assert_eq!(NetworkType::Ethernet.name(), "Ethernet");
    assert_eq!(NetworkType::Disconnected.name(), "None");
    assert_eq!(NetworkType::Unknown.name(), "Unknown");
}
