use sharedroid::permissions::{
    all_granted, fire_request, request_outcome, Permission, PermissionError, RequestCodes, RequestEvent,
};

#[test]
fn android_names() {
    assert_eq!(Permission::Camera.android_name(), "android.permission.CAMERA");
    assert_eq!(Permission::BodySensors.android_name(), "android.permission.BODY_SENSORS");
    assert_eq!(Permission::Nfc.android_name(), "android.permission.NFC");
    assert_eq!(
        Permission::AccessBackgroundLocation.android_name(),
        "android.permission.ACCESS_BACKGROUND_LOCATION"
    );
}

#[test]
fn android_names_are_distinct_and_prefixed() {
    let all = [
        Permission::Camera,
        Permission::RecordAudio,
        Permission::AccessFineLocation,
        Permission::AccessCoarseLocation,
        Permission::AccessBackgroundLocation,
        Permission::BluetoothScan,
        Permission::BluetoothConnect,
        Permission::BluetoothAdvertise,
        Permission::Bluetooth,
        Permission::BluetoothAdmin,
        Permission::AccessWifiState,
        Permission::ChangeWifiState,
        Permission::Nfc,
        Permission::Vibrate,
        Permission::PostNotifications,
        Permission::ReadMediaImages,
        Permission::ReadMediaVideo,
        Permission::ReadExternalStorage,
        Permission::WriteExternalStorage,
        Permission::UseBiometric,
        Permission::UseFingerprint,
        Permission::WakeLock,
        Permission::WriteSettings,
        Permission::AccessNetworkState,
        Permission::ChangeNetworkState,
        Permission::BodySensors,
    ];
    let mut names: Vec<&str> = all.iter().map(|p| p.android_name()).collect();
    assert!(names.iter().all(|n| n.starts_with("android.permission.")));
    names.sort();
    names.dedup();
    assert_eq!(names.len(), all.len());
}

#[test]
fn request_codes_start_at_1000_and_wrap() {
    let mut codes = RequestCodes::new();
    assert_eq!(codes.take(), 1000);
    assert_eq!(codes.take(), 1001);
    assert_eq!(codes.take(), 1002);
}

#[test]
fn fire_request_lists_names_in_order() {
    let r = fire_request(&[Permission::AccessFineLocation, Permission::AccessCoarseLocation], 1003);
    assert_eq!(r.request_code, 1003);
    assert_eq!(
        r.names,
        vec!["android.permission.ACCESS_FINE_LOCATION", "android.permission.ACCESS_COARSE_LOCATION"]
    );
}

#[test]
fn all_granted_fast_path() {
    assert!(all_granted(&[]));
    assert!(all_granted(&[true, true]));
    assert!(!all_granted(&[true, false, true]));
}

#[test]
fn only_the_matching_answer_resolves() {
    let other = RequestEvent::Answer { request_code: 5, all_granted: true };
    assert!(request_outcome(7, &other).is_none());
    let granted = RequestEvent::Answer { request_code: 7, all_granted: true };
    assert!(matches!(request_outcome(7, &granted), Some(Ok(()))));
    let denied = RequestEvent::Answer { request_code: 7, all_granted: false };
    assert!(matches!(request_outcome(7, &denied), Some(Err(PermissionError::Denied))));
}

#[test]
fn timeouts_and_channel_errors_deny() {
    assert!(matches!(request_outcome(7, &RequestEvent::TimedOut), Some(Err(PermissionError::Denied))));
    assert!(matches!(request_outcome(7, &RequestEvent::ChannelError), Some(Err(PermissionError::Denied))));
}

#[test]
fn error_names_match_debug() {
    for e in [PermissionError::Denied, PermissionError::PermanentlyDenied, PermissionError::Unavailable] {
        assert_eq!(e.name(), format!("{:?}", e));
    }
}

#[test]
fn granted_only_on_code_zero() {
    assert!(sharedroid::permissions::is_granted(Some(0)));
    assert!(!sharedroid::permissions::is_granted(Some(-1)));
    assert!(!sharedroid::permissions::is_granted(None));
}
