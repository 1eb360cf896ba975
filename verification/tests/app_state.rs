use sharedroid::app_state::{request_log_line, trim_log, AppState, Command, Message, Screen};
use sharedroid::haptics::{Effect, LegacyFallback, VibrationRequest};
use sharedroid::notifications::NotificationRequest;
use sharedroid::permissions::{Permission, PermissionError};

fn fresh() -> AppState {
    AppState::new(false, true, false)
}

#[test]
fn labels() {
    let labels: Vec<&str> = Screen::all().into_iter().map(|s| s.label()).collect();
    assert_eq!(labels, vec!["Bateria", "Haptics", "Rede", "Notif", "Perms", "Sensores"]);
}

#[test]
fn trim_keeps_last_twenty() {
    let mut log: Vec<String> = (0..25).map(|i| i.to_string()).collect();
    trim_log(&mut log);
    assert_eq!(log.len(), 20);
    assert_eq!(log[0], "5");
    assert_eq!(log[19], "24");
    let mut short: Vec<String> = vec!["a".into()];
    trim_log(&mut short);
    assert_eq!(short, vec!["a".to_string()]);
}

#[test]
fn start_state() {
    let s = fresh();
    assert_eq!(s.screen, Screen::Battery);
    assert_eq!(s.notif_count, 0);
    assert!(!s.camera_ok && s.location_ok && !s.body_sensors_ok);
}

#[test]
fn haptic_messages() {
    let mut s = fresh();
    let c = s.update(Message::HapticEffect(Effect::HeavyClick), None);
    assert_eq!(
        c,
        vec![Command::Vibrate(VibrationRequest::Predefined { effect_id: 5, fallback_ms: 80, fallback_amplitude: 255 })]
    );
    let c = s.update(Message::HapticBuzz, None);
    assert_eq!(c, vec![Command::Vibrate(VibrationRequest::OneShot { ms: 500, amplitude: 255 })]);
    let c = s.update(Message::HapticPattern, None);
    assert_eq!(
        c,
        vec![Command::Vibrate(VibrationRequest::Waveform {
            timings: vec![80, 60, 80, 60, 200],
            amplitudes: vec![255, 0, 255, 0, 255],
            repeat: -1,
            legacy: LegacyFallback::Millis(360),
        })]
    );
    let c = s.update(Message::HapticCancel, None);
    assert_eq!(c, vec![Command::Vibrate(VibrationRequest::Cancel)]);
    assert_eq!(s.haptic_log, vec!["play(HeavyClick)", "buzz(500ms)", "pattern(80·80·200ms)", "cancel()"]);
}

#[test]
fn notification_messages() {
    let mut s = fresh();
    let c = s.update(Message::RegisterChannel, None);
    assert_eq!(
        c,
        vec![Command::Notify(NotificationRequest::CreateChannel {
            channel_id: "demo".into(),
            name: "Demo Notifications".into(),
            importance: 3,
        })]
    );
    assert!(s.notif_channel_ok);
    let c = s.update(Message::ShowNotification, None);
    assert_eq!(
        c,
        vec![Command::Notify(NotificationRequest::Notify {
            id: 1,
            channel_id: "demo".into(),
            title: Some("rustandroid".into()),
            body: Some("Notificação #1".into()),
            progress: None,
            ongoing: false,
            actions: vec![],
        })]
    );
    let c = s.update(Message::ShowProgress, None);
    assert_eq!(
        c,
        vec![Command::Notify(NotificationRequest::Notify {
            id: 2,
            channel_id: "demo".into(),
            title: Some("Download".into()),
            body: Some("Em progresso…".into()),
            progress: Some((100, 65)),
            ongoing: true,
            actions: vec![],
        })]
    );
    let c = s.update(Message::CancelNotification, None);
    assert_eq!(c, vec![Command::Notify(NotificationRequest::Cancel { id: 2 })]);
    assert_eq!(s.notif_count, 2);
    assert_eq!(
        s.notif_log,
        vec!["Canal 'demo' registrado", "show(id=1)", "progress(id=2, 65/100)", "cancel(id=2)"]
    );
}

#[test]
fn notification_ids_in_decimal() {
    let mut s = fresh();
    s.notif_count = 1234;
    s.update(Message::ShowNotification, None);
    assert_eq!(s.notif_log.last().unwrap(), "show(id=1235)");
    s.notif_count = 9;
    s.update(Message::ShowProgress, None);
    assert_eq!(s.notif_log.last().unwrap(), "progress(id=10, 65/100)");
}

#[test]
fn permission_messages() {
    let mut s = fresh();
    let c = s.update(Message::CheckAll, None);
    assert_eq!(
        c,
        vec![Command::CheckPermissions(vec![
            Permission::Camera,
            Permission::AccessFineLocation,
            Permission::BodySensors
        ])]
    );
    s.record_permissions(true, false, true);
    assert!(s.camera_ok && !s.location_ok && s.body_sensors_ok);
    let c = s.update(Message::RequestLocation, None);
    assert_eq!(
        c,
        vec![Command::RequestPermissions {
            permissions: vec![Permission::AccessFineLocation, Permission::AccessCoarseLocation],
            label: "Localização".into(),
        }]
    );
    s.update(Message::RequestCamera, None);
    s.update(Message::RequestBodySensors, None);
    assert_eq!(
        s.perm_log,
        vec![
            "check() concluído",
            "request(Location) disparado…",
            "request(Camera) disparado…",
            "request(BodySensors) disparado…"
        ]
    );
}

#[test]
fn async_lines_only_land_on_the_permissions_screen() {
    let mut s = fresh();
    s.update(Message::Tick, Some("lost".into()));
    assert!(s.perm_log.is_empty());
    s.update(Message::GoTo(Screen::Permissions), None);
    let c = s.update(Message::Tick, Some("Camera: concedida ✓".into()));
    assert_eq!(c, vec![Command::AbsorbAsyncLog, Command::RefreshSensors]);
    assert_eq!(s.perm_log, vec!["Camera: concedida ✓"]);
    s.absorb_log(Some("again".into()));
    assert_eq!(s.perm_log.len(), 2);
}

#[test]
fn sensor_and_refresh_messages() {
    let mut s = fresh();
    assert_eq!(s.update(Message::StartSensor, None), vec![Command::SetSensorsActive(true)]);
    assert!(s.sensor_active);
    assert_eq!(s.update(Message::StopSensor, None), vec![Command::SetSensorsActive(false)]);
    assert!(!s.sensor_active);
    assert_eq!(s.update(Message::RefreshBattery, None), vec![Command::RefreshBattery]);
    assert_eq!(s.update(Message::RefreshNetwork, None), vec![Command::RefreshNetwork]);
    assert_eq!(s.update(Message::SensorUpdate, None), vec![Command::AbsorbAsyncLog, Command::RefreshSensors]);
    assert!(s.update(Message::GoTo(Screen::Sensors), None).is_empty());
    assert_eq!(s.screen, Screen::Sensors);
}

#[test]
fn logs_stay_at_twenty() {
    let mut s = fresh();
    for _ in 0..30 {
        s.update(Message::HapticCancel, None);
    }
    assert_eq!(s.haptic_log.len(), 20);
}

#[test]
fn request_log_lines() {
    assert_eq!(request_log_line("Camera", &Ok(())), "Camera: concedida ✓");
    assert_eq!(request_log_line("Localização", &Err(PermissionError::Denied)), "Localização: negada (Denied)");
}

#[test]
fn battery_bands() {
    use_bands();
}

fn use_bands() {
    use_band(100, sharedroid::app_state::LevelBand::High);
    use_band(80, sharedroid::app_state::LevelBand::High);
    use_band(79, sharedroid::app_state::LevelBand::Medium);
    use_band(40, sharedroid::app_state::LevelBand::Medium);
    use_band(39, sharedroid::app_state::LevelBand::Low);
    use_band(101, sharedroid::app_state::LevelBand::Low);
}

fn use_band(pct: u8, band: sharedroid::app_state::LevelBand) {
    assert_eq!(sharedroid::app_state::battery_band(pct), band);
}
