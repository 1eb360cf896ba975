//! Runtime permissions: the platform names of permissions, the request codes that
//! tie a request to its answer, and what a request resolves to.

use crate::jni_names::ascii_upper;
use vstd::prelude::*;

verus! {

/// A runtime permission.
#[derive(Debug, Clone, PartialEq, Eq, Structural)]
pub enum Permission {
    Camera,
    RecordAudio,
    AccessFineLocation,
    AccessCoarseLocation,
    AccessBackgroundLocation,
    BluetoothScan,
    BluetoothConnect,
    BluetoothAdvertise,
    Bluetooth,
    BluetoothAdmin,
    AccessWifiState,
    ChangeWifiState,
    Nfc,
    Vibrate,
    PostNotifications,
    ReadMediaImages,
    ReadMediaVideo,
    ReadExternalStorage,
    WriteExternalStorage,
    UseBiometric,
    UseFingerprint,
    WakeLock,
    WriteSettings,
    AccessNetworkState,
    ChangeNetworkState,
    BodySensors,
}

/// The Android permission string, such as `"android.permission.CAMERA"`.
pub open spec fn permission_name(p: Permission) -> Seq<char> {
    match p {
        Permission::Camera => "android.permission.CAMERA"@,
        Permission::RecordAudio => "android.permission.RECORD_AUDIO"@,
        Permission::AccessFineLocation => "android.permission.ACCESS_FINE_LOCATION"@,
        Permission::AccessCoarseLocation => "android.permission.ACCESS_COARSE_LOCATION"@,
        Permission::AccessBackgroundLocation => "android.permission.ACCESS_BACKGROUND_LOCATION"@,
        Permission::BluetoothScan => "android.permission.BLUETOOTH_SCAN"@,
        Permission::BluetoothConnect => "android.permission.BLUETOOTH_CONNECT"@,
        Permission::BluetoothAdvertise => "android.permission.BLUETOOTH_ADVERTISE"@,
        Permission::Bluetooth => "android.permission.BLUETOOTH"@,
        Permission::BluetoothAdmin => "android.permission.BLUETOOTH_ADMIN"@,
        Permission::AccessWifiState => "android.permission.ACCESS_WIFI_STATE"@,
        Permission::ChangeWifiState => "android.permission.CHANGE_WIFI_STATE"@,
        Permission::Nfc => "android.permission.NFC"@,
        Permission::Vibrate => "android.permission.VIBRATE"@,
        Permission::PostNotifications => "android.permission.POST_NOTIFICATIONS"@,
        Permission::ReadMediaImages => "android.permission.READ_MEDIA_IMAGES"@,
        Permission::ReadMediaVideo => "android.permission.READ_MEDIA_VIDEO"@,
        Permission::ReadExternalStorage => "android.permission.READ_EXTERNAL_STORAGE"@,
        Permission::WriteExternalStorage => "android.permission.WRITE_EXTERNAL_STORAGE"@,
        Permission::UseBiometric => "android.permission.USE_BIOMETRIC"@,
        Permission::UseFingerprint => "android.permission.USE_FINGERPRINT"@,
        Permission::WakeLock => "android.permission.WAKE_LOCK"@,
        Permission::WriteSettings => "android.permission.WRITE_SETTINGS"@,
        Permission::AccessNetworkState => "android.permission.ACCESS_NETWORK_STATE"@,
        Permission::ChangeNetworkState => "android.permission.CHANGE_NETWORK_STATE"@,
        Permission::BodySensors => "android.permission.BODY_SENSORS"@,
    }
}

impl Permission {
    /// Returns the Android permission string (e.g. `"android.permission.CAMERA"`).
    pub fn android_name(&self) -> (name: &'static str)
        ensures
            name@ == permission_name(*self),
    {
        match self {
            Permission::Camera => "android.permission.CAMERA",
            Permission::RecordAudio => "android.permission.RECORD_AUDIO",
            Permission::AccessFineLocation => "android.permission.ACCESS_FINE_LOCATION",
            Permission::AccessCoarseLocation => "android.permission.ACCESS_COARSE_LOCATION",
            Permission::AccessBackgroundLocation => "android.permission.ACCESS_BACKGROUND_LOCATION",
            Permission::BluetoothScan => "android.permission.BLUETOOTH_SCAN",
            Permission::BluetoothConnect => "android.permission.BLUETOOTH_CONNECT",
            Permission::BluetoothAdvertise => "android.permission.BLUETOOTH_ADVERTISE",
            Permission::Bluetooth => "android.permission.BLUETOOTH",
            Permission::BluetoothAdmin => "android.permission.BLUETOOTH_ADMIN",
            Permission::AccessWifiState => "android.permission.ACCESS_WIFI_STATE",
            Permission::ChangeWifiState => "android.permission.CHANGE_WIFI_STATE",
            Permission::Nfc => "android.permission.NFC",
            Permission::Vibrate => "android.permission.VIBRATE",
            Permission::PostNotifications => "android.permission.POST_NOTIFICATIONS",
            Permission::ReadMediaImages => "android.permission.READ_MEDIA_IMAGES",
            Permission::ReadMediaVideo => "android.permission.READ_MEDIA_VIDEO",
            Permission::ReadExternalStorage => "android.permission.READ_EXTERNAL_STORAGE",
            Permission::WriteExternalStorage => "android.permission.WRITE_EXTERNAL_STORAGE",
            Permission::UseBiometric => "android.permission.USE_BIOMETRIC",
            Permission::UseFingerprint => "android.permission.USE_FINGERPRINT",
            Permission::WakeLock => "android.permission.WAKE_LOCK",
            Permission::WriteSettings => "android.permission.WRITE_SETTINGS",
            Permission::AccessNetworkState => "android.permission.ACCESS_NETWORK_STATE",
            Permission::ChangeNetworkState => "android.permission.CHANGE_NETWORK_STATE",
            Permission::BodySensors => "android.permission.BODY_SENSORS",
        }
    }
}

/// A few characters that tell the permission names apart: the length, the first
/// character after the prefix and the last character.
pub open spec fn name_key(s: Seq<char>) -> (nat, char, char) {
    (s.len(), s[19], s[s.len() - 1])
}

/// The key of each permission's name.
pub open spec fn permission_key(p: Permission) -> (nat, char, char) {
    match p {
        Permission::Camera => (25nat, 'C', 'A'),
        Permission::RecordAudio => (31nat, 'R', 'O'),
        Permission::AccessFineLocation => (39nat, 'A', 'N'),
        Permission::AccessCoarseLocation => (41nat, 'A', 'N'),
        Permission::AccessBackgroundLocation => (45nat, 'A', 'N'),
        Permission::BluetoothScan => (33nat, 'B', 'N'),
        Permission::BluetoothConnect => (36nat, 'B', 'T'),
        Permission::BluetoothAdvertise => (38nat, 'B', 'E'),
        Permission::Bluetooth => (28nat, 'B', 'H'),
        Permission::BluetoothAdmin => (34nat, 'B', 'N'),
        Permission::AccessWifiState => (36nat, 'A', 'E'),
        Permission::ChangeWifiState => (36nat, 'C', 'E'),
        Permission::Nfc => (22nat, 'N', 'C'),
        Permission::Vibrate => (26nat, 'V', 'E'),
        Permission::PostNotifications => (37nat, 'P', 'S'),
        Permission::ReadMediaImages => (36nat, 'R', 'S'),
        Permission::ReadMediaVideo => (35nat, 'R', 'O'),
        Permission::ReadExternalStorage => (40nat, 'R', 'E'),
        Permission::WriteExternalStorage => (41nat, 'W', 'E'),
        Permission::UseBiometric => (32nat, 'U', 'C'),
        Permission::UseFingerprint => (34nat, 'U', 'T'),
        Permission::WakeLock => (28nat, 'W', 'K'),
        Permission::WriteSettings => (33nat, 'W', 'S'),
        Permission::AccessNetworkState => (39nat, 'A', 'E'),
        Permission::ChangeNetworkState => (39nat, 'C', 'E'),
        Permission::BodySensors => (31nat, 'B', 'S'),
    }
}

/// Every name starts with `"android.permission."` and has the key listed for it.
pub proof fn lemma_permission_name_shape(p: Permission)
    ensures
        permission_name(p).len() > 19,
        permission_name(p).take(19) == "android.permission."@,
        name_key(permission_name(p)) == permission_key(p),
{
    reveal_strlit("android.permission.");
    match p {
        Permission::Camera => {
            reveal_strlit("android.permission.CAMERA");
        },
        Permission::RecordAudio => {
            reveal_strlit("android.permission.RECORD_AUDIO");
        },
        Permission::AccessFineLocation => {
            reveal_strlit("android.permission.ACCESS_FINE_LOCATION");
        },
        Permission::AccessCoarseLocation => {
            reveal_strlit("android.permission.ACCESS_COARSE_LOCATION");
        },
        Permission::AccessBackgroundLocation => {
            reveal_strlit("android.permission.ACCESS_BACKGROUND_LOCATION");
        },
        Permission::BluetoothScan => {
            reveal_strlit("android.permission.BLUETOOTH_SCAN");
        },
        Permission::BluetoothConnect => {
            reveal_strlit("android.permission.BLUETOOTH_CONNECT");
        },
        Permission::BluetoothAdvertise => {
            reveal_strlit("android.permission.BLUETOOTH_ADVERTISE");
        },
        Permission::Bluetooth => {
            reveal_strlit("android.permission.BLUETOOTH");
        },
        Permission::BluetoothAdmin => {
            reveal_strlit("android.permission.BLUETOOTH_ADMIN");
        },
        Permission::AccessWifiState => {
            reveal_strlit("android.permission.ACCESS_WIFI_STATE");
        },
        Permission::ChangeWifiState => {
            reveal_strlit("android.permission.CHANGE_WIFI_STATE");
        },
        Permission::Nfc => {
            reveal_strlit("android.permission.NFC");
        },
        Permission::Vibrate => {
            reveal_strlit("android.permission.VIBRATE");
        },
        Permission::PostNotifications => {
            reveal_strlit("android.permission.POST_NOTIFICATIONS");
        },
        Permission::ReadMediaImages => {
            reveal_strlit("android.permission.READ_MEDIA_IMAGES");
        },
        Permission::ReadMediaVideo => {
            reveal_strlit("android.permission.READ_MEDIA_VIDEO");
        },
        Permission::ReadExternalStorage => {
            reveal_strlit("android.permission.READ_EXTERNAL_STORAGE");
        },
        Permission::WriteExternalStorage => {
            reveal_strlit("android.permission.WRITE_EXTERNAL_STORAGE");
        },
        Permission::UseBiometric => {
            reveal_strlit("android.permission.USE_BIOMETRIC");
        },
        Permission::UseFingerprint => {
            reveal_strlit("android.permission.USE_FINGERPRINT");
        },
        Permission::WakeLock => {
            reveal_strlit("android.permission.WAKE_LOCK");
        },
        Permission::WriteSettings => {
            reveal_strlit("android.permission.WRITE_SETTINGS");
        },
        Permission::AccessNetworkState => {
            reveal_strlit("android.permission.ACCESS_NETWORK_STATE");
        },
        Permission::ChangeNetworkState => {
            reveal_strlit("android.permission.CHANGE_NETWORK_STATE");
        },
        Permission::BodySensors => {
            reveal_strlit("android.permission.BODY_SENSORS");
        },
    }
    assert(permission_name(p).take(19) =~= "android.permission."@);
}

/// Every permission has its own platform name, and every name starts with
/// `"android.permission."`.
pub proof fn lemma_permission_names_distinct(p: Permission, q: Permission)
    ensures
        permission_name(p).take(19) == "android.permission."@,
        permission_name(p) == permission_name(q) ==> p == q,
{
    lemma_permission_name_shape(p);
    lemma_permission_name_shape(q);
}

/// Why a permission request did not succeed.
#[derive(Debug)]
pub enum PermissionError {
    Denied,
    PermanentlyDenied,
    Unavailable,
}

/// The name of an error variant, as its `Debug` form prints it.
pub open spec fn error_name(e: PermissionError) -> Seq<char> {
    match e {
        PermissionError::Denied => "Denied"@,
        PermissionError::PermanentlyDenied => "PermanentlyDenied"@,
        PermissionError::Unavailable => "Unavailable"@,
    }
}

impl PermissionError {
    /// The variant's name, as its `Debug` form prints it.
    pub fn name(&self) -> (s: &'static str)
        ensures
            s@ == error_name(*self),
    {
        match self {
            PermissionError::Denied => "Denied",
            PermissionError::PermanentlyDenied => "PermanentlyDenied",
            PermissionError::Unavailable => "Unavailable",
        }
    }
}

/// `PackageManager.PERMISSION_GRANTED`.
pub open spec fn permission_granted_code() -> i32 {
    0
}

/// Whether the answer of `Context.checkSelfPermission` grants the permission: a
/// failed call (`None`) does not.
pub fn is_granted(check_result: Option<i32>) -> (r: bool)
    ensures
        r == (check_result == Some(permission_granted_code())),
{
    match check_result {
        Some(code) => code == 0,
        None => false,
    }
}

/// Hands out the request codes that tie a permission request to its answer.
/// Codes start at 1000 and go up by one, wrapping around at the end of `i32`.
pub struct RequestCodes {
    next: i32,
}

impl View for RequestCodes {
    type V = i32;

    closed spec fn view(&self) -> i32 {
        self.next
    }
}

/// The code that follows `c`.
pub open spec fn code_after(c: i32) -> i32 {
    if c == i32::MAX {
        i32::MIN
    } else {
        (c + 1) as i32
    }
}

impl RequestCodes {
    /// The first code handed out is 1000.
    pub fn new() -> (r: Self)
        ensures
            r@ == 1000,
    {
        RequestCodes { next: 1000 }
    }

    /// Returns the next code.
    pub fn take(&mut self) -> (code: i32)
        ensures
            code == old(self)@,
            final(self)@ == code_after(code),
    {
        let code = self.next;
        self.next = self.next.wrapping_add(1);
        code
    }
}

/// A request for permissions: the names handed to `Activity.requestPermissions`
/// and the request code that its answer will carry.
#[derive(Debug, Clone, PartialEq)]
pub struct PermissionRequest {
    pub names: Vec<&'static str>,
    pub request_code: i32,
}

/// Fires a permission request dialog without waiting for the result.
///
/// The request must be sent from the UI thread; after the user answers, `check`
/// tells the new state.
pub fn fire_request(permissions: &[Permission], request_code: i32) -> (r: PermissionRequest)
    ensures
        r.request_code == request_code,
        r.names@.len() == permissions@.len(),
        forall|i: int|
            0 <= i < permissions@.len() ==> (#[trigger] r.names@[i])@ == permission_name(
                permissions@[i],
            ),
{
    let mut names: Vec<&'static str> = Vec::new();
    let mut i: usize = 0;
    while i < permissions.len()
        invariant
            0 <= i <= permissions@.len(),
            names@.len() == i,
            forall|j: int| 0 <= j < i ==> (#[trigger] names@[j])@ == permission_name(permissions@[j]),
        decreases permissions@.len() - i,
    {
        names.push(permissions[i].android_name());
        i = i + 1;
    }
    PermissionRequest { names, request_code }
}

/// True when every permission already holds, so that a request can resolve at once.
pub fn all_granted(granted: &[bool]) -> (r: bool)
    ensures
        r == forall|i: int| 0 <= i < granted@.len() ==> #[trigger] granted@[i],
{
    let mut i: usize = 0;
    while i < granted.len()
        invariant
            0 <= i <= granted@.len(),
            forall|j: int| 0 <= j < i ==> #[trigger] granted@[j],
        decreases granted@.len() - i,
    {
        if !granted[i] {
            return false;
        }
        i = i + 1;
    }
    true
}

/// What reaches a request that waits for its answer.
#[derive(Debug, Clone, Copy, PartialEq, Eq)]
pub enum RequestEvent {
    /// An answer to the request with `request_code`: whether every permission in it
    /// was granted.
    Answer { request_code: i32, all_granted: bool },
    /// The channel of answers failed (it lagged or closed).
    ChannelError,
    /// No answer came in time.
    TimedOut,
}

/// What a request waiting for `code` resolves to on `event`; `None` while it keeps
/// waiting.
pub open spec fn outcome_of(code: i32, event: RequestEvent) -> Option<Result<(), PermissionError>> {
    match event {
        RequestEvent::Answer { request_code, all_granted } => if request_code != code {
            None
        } else if all_granted {
            Some(Ok(()))
        } else {
            Some(Err(PermissionError::Denied))
        },
        RequestEvent::ChannelError => Some(Err(PermissionError::Denied)),
        RequestEvent::TimedOut => Some(Err(PermissionError::Denied)),
    }
}

/// Decides a pending request: an answer for another request is ignored; the
/// matching answer grants or denies; a failed channel or a timeout denies.
pub fn request_outcome(code: i32, event: &RequestEvent) -> (r: Option<Result<(), PermissionError>>)
    ensures
        r == outcome_of(code, *event),
{
    match event {
        RequestEvent::Answer { request_code, all_granted } => {
            if *request_code != code {
                None
            } else if *all_granted {
                Some(Ok(()))
            } else {
                Some(Err(PermissionError::Denied))
            }
        },
        RequestEvent::ChannelError => Some(Err(PermissionError::Denied)),
        RequestEvent::TimedOut => Some(Err(PermissionError::Denied)),
    }
}

/// Answers to other requests never resolve a pending request, and the answer to
/// it always does: granted exactly when every permission was granted.
pub proof fn lemma_only_matching_answer_resolves(code: i32, other: i32, granted: bool)
    requires
        other != code,
    ensures
        outcome_of(code, RequestEvent::Answer { request_code: other, all_granted: granted }) is None,
        outcome_of(code, RequestEvent::Answer { request_code: code, all_granted: granted })
            == (if granted {
            Some(Ok::<(), PermissionError>(()))
        } else {
            Some(Err(PermissionError::Denied))
        }),
{
}

/// The permission's identifier, as it is written in this enum (and as its `Debug`
/// form prints it).
pub open spec fn permission_ident(p: Permission) -> Seq<char> {
    match p {
        Permission::Camera => "Camera"@,
        Permission::RecordAudio => "RecordAudio"@,
        Permission::AccessFineLocation => "AccessFineLocation"@,
        Permission::AccessCoarseLocation => "AccessCoarseLocation"@,
        Permission::AccessBackgroundLocation => "AccessBackgroundLocation"@,
        Permission::BluetoothScan => "BluetoothScan"@,
        Permission::BluetoothConnect => "BluetoothConnect"@,
        Permission::BluetoothAdvertise => "BluetoothAdvertise"@,
        Permission::Bluetooth => "Bluetooth"@,
        Permission::BluetoothAdmin => "BluetoothAdmin"@,
        Permission::AccessWifiState => "AccessWifiState"@,
        Permission::ChangeWifiState => "ChangeWifiState"@,
        Permission::Nfc => "Nfc"@,
        Permission::Vibrate => "Vibrate"@,
        Permission::PostNotifications => "PostNotifications"@,
        Permission::ReadMediaImages => "ReadMediaImages"@,
        Permission::ReadMediaVideo => "ReadMediaVideo"@,
        Permission::ReadExternalStorage => "ReadExternalStorage"@,
        Permission::WriteExternalStorage => "WriteExternalStorage"@,
        Permission::UseBiometric => "UseBiometric"@,
        Permission::UseFingerprint => "UseFingerprint"@,
        Permission::WakeLock => "WakeLock"@,
        Permission::WriteSettings => "WriteSettings"@,
        Permission::AccessNetworkState => "AccessNetworkState"@,
        Permission::ChangeNetworkState => "ChangeNetworkState"@,
        Permission::BodySensors => "BodySensors"@,
    }
}

/// From character `i` of the CamelCase identifier `s` and character `j` of `t`
/// on, `t` spells the rest of `s` in SCREAMING_SNAKE_CASE and then ends: every
/// letter upper-cased, and an `_` before each capital that does not start the
/// identifier (`ReadMediaVideo` is spelled `READ_MEDIA_VIDEO`).
pub open spec fn spells_screaming(s: Seq<char>, i: nat, t: Seq<char>, j: nat) -> bool
    decreases s.len() - i,
{
    if i >= s.len() {
        j == t.len()
    } else if i > 0 && 'A' <= s[i as int] <= 'Z' {
        &&& j + 1 < t.len()
        &&& t[j as int] == '_'
        &&& t[j + 1int] == s[i as int]
        &&& spells_screaming(s, i + 1, t, j + 2)
    } else {
        &&& j < t.len()
        &&& t[j as int] == ascii_upper(s[i as int])
        &&& spells_screaming(s, i + 1, t, j + 1)
    }
}

/// The platform name of a permission is `android.permission.` followed by the
/// permission's identifier in SCREAMING_SNAKE_CASE: `ReadMediaVideo` is
/// `android.permission.READ_MEDIA_VIDEO`.
#[verifier::rlimit(50)]
pub proof fn lemma_permission_name_from_ident(p: Permission)
    ensures
        permission_name(p).take(19) == "android.permission."@,
        spells_screaming(permission_ident(p), 0, permission_name(p), 19),
{
    reveal_strlit("android.permission.");
    reveal_with_fuel(spells_screaming, 30);
    match p {
        Permission::Camera => {
            reveal_strlit("Camera");
            reveal_strlit("android.permission.CAMERA");
        },
        Permission::RecordAudio => {
            reveal_strlit("RecordAudio");
            reveal_strlit("android.permission.RECORD_AUDIO");
        },
        Permission::AccessFineLocation => {
            reveal_strlit("AccessFineLocation");
            reveal_strlit("android.permission.ACCESS_FINE_LOCATION");
        },
        Permission::AccessCoarseLocation => {
            reveal_strlit("AccessCoarseLocation");
            reveal_strlit("android.permission.ACCESS_COARSE_LOCATION");
        },
        Permission::AccessBackgroundLocation => {
            reveal_strlit("AccessBackgroundLocation");
            reveal_strlit("android.permission.ACCESS_BACKGROUND_LOCATION");
        },
        Permission::BluetoothScan => {
            reveal_strlit("BluetoothScan");
            reveal_strlit("android.permission.BLUETOOTH_SCAN");
        },
        Permission::BluetoothConnect => {
            reveal_strlit("BluetoothConnect");
            reveal_strlit("android.permission.BLUETOOTH_CONNECT");
        },
        Permission::BluetoothAdvertise => {
            reveal_strlit("BluetoothAdvertise");
            reveal_strlit("android.permission.BLUETOOTH_ADVERTISE");
        },
        Permission::Bluetooth => {
            reveal_strlit("Bluetooth");
            reveal_strlit("android.permission.BLUETOOTH");
        },
        Permission::BluetoothAdmin => {
            reveal_strlit("BluetoothAdmin");
            reveal_strlit("android.permission.BLUETOOTH_ADMIN");
        },
        Permission::AccessWifiState => {
            reveal_strlit("AccessWifiState");
            reveal_strlit("android.permission.ACCESS_WIFI_STATE");
        },
        Permission::ChangeWifiState => {
            reveal_strlit("ChangeWifiState");
            reveal_strlit("android.permission.CHANGE_WIFI_STATE");
        },
        Permission::Nfc => {
            reveal_strlit("Nfc");
            reveal_strlit("android.permission.NFC");
        },
        Permission::Vibrate => {
            reveal_strlit("Vibrate");
            reveal_strlit("android.permission.VIBRATE");
        },
        Permission::PostNotifications => {
            reveal_strlit("PostNotifications");
            reveal_strlit("android.permission.POST_NOTIFICATIONS");
        },
        Permission::ReadMediaImages => {
            reveal_strlit("ReadMediaImages");
            reveal_strlit("android.permission.READ_MEDIA_IMAGES");
        },
        Permission::ReadMediaVideo => {
            reveal_strlit("ReadMediaVideo");
            reveal_strlit("android.permission.READ_MEDIA_VIDEO");
        },
        Permission::ReadExternalStorage => {
            reveal_strlit("ReadExternalStorage");
            reveal_strlit("android.permission.READ_EXTERNAL_STORAGE");
        },
        Permission::WriteExternalStorage => {
            reveal_strlit("WriteExternalStorage");
            reveal_strlit("android.permission.WRITE_EXTERNAL_STORAGE");
        },
        Permission::UseBiometric => {
            reveal_strlit("UseBiometric");
            reveal_strlit("android.permission.USE_BIOMETRIC");
        },
        Permission::UseFingerprint => {
            reveal_strlit("UseFingerprint");
            reveal_strlit("android.permission.USE_FINGERPRINT");
        },
        Permission::WakeLock => {
            reveal_strlit("WakeLock");
            reveal_strlit("android.permission.WAKE_LOCK");
        },
        Permission::WriteSettings => {
            reveal_strlit("WriteSettings");
            reveal_strlit("android.permission.WRITE_SETTINGS");
        },
        Permission::AccessNetworkState => {
            reveal_strlit("AccessNetworkState");
            reveal_strlit("android.permission.ACCESS_NETWORK_STATE");
        },
        Permission::ChangeNetworkState => {
            reveal_strlit("ChangeNetworkState");
            reveal_strlit("android.permission.CHANGE_NETWORK_STATE");
        },
        Permission::BodySensors => {
            reveal_strlit("BodySensors");
            reveal_strlit("android.permission.BODY_SENSORS");
        },
    }
    assert(permission_name(p).take(19) =~= "android.permission."@);
}

} // verus!
