//! State of the demo app and how it answers each UI message.
//!
//! `AppState::update` decides what a message changes and which `Command`s the
//! platform layer carries out (vibrate, notify, check or request permissions,
//! read the battery, network or sensors). What is read back comes in through
//! `absorb_log` and `record_permissions`.

use crate::durations::{duration_as_millis, millis};
use crate::haptics::{effect_name, is_pattern_request, Effect, VibrationRequest, Vibrator, Waveform};
use crate::notifications::{action_texts, Channel, Notification, NotificationRequest, Priority};
use crate::permissions::{error_name, permission_ident, Permission, PermissionError};
use crate::text::{decimal, decimal_text, opt_text, texts};
use vstd::prelude::*;
use vstd::string::*;

verus! {

/// The screens of the app.
#[derive(Debug, Clone, Copy, PartialEq, Eq, Structural)]
pub enum Screen {
    Battery,
    Haptics,
    Network,
    Notifications,
    Permissions,
    Sensors,
}

/// The tab label of a screen.
pub open spec fn screen_label(s: Screen) -> Seq<char> {
    match s {
        Screen::Battery => "Bateria"@,
        Screen::Haptics => "Haptics"@,
        Screen::Network => "Rede"@,
        Screen::Notifications => "Notif"@,
        Screen::Permissions => "Perms"@,
        Screen::Sensors => "Sensores"@,
    }
}

impl Screen {
    /// Every screen, in the order of the tabs.
    pub fn all() -> (v: Vec<Screen>)
        ensures
            v@ == seq![
                Screen::Battery,
                Screen::Haptics,
                Screen::Network,
                Screen::Notifications,
                Screen::Permissions,
                Screen::Sensors,
            ],
    {
        vec![
            Screen::Battery,
            Screen::Haptics,
            Screen::Network,
            Screen::Notifications,
            Screen::Permissions,
            Screen::Sensors,
        ]
    }

    /// The tab label.
    pub fn label(self) -> (s: &'static str)
        ensures
            s@ == screen_label(self),
    {
        match self {
            Screen::Battery => "Bateria",
            Screen::Haptics => "Haptics",
            Screen::Network => "Rede",
            Screen::Notifications => "Notif",
            Screen::Permissions => "Perms",
            Screen::Sensors => "Sensores",
        }
    }
}

/// How full the battery looks on the battery screen.
#[derive(Debug, Clone, Copy, PartialEq, Eq, Structural)]
pub enum LevelBand {
    /// 80 to 100 percent.
    High,
    /// 40 to 79 percent.
    Medium,
    /// Anything else.
    Low,
}

/// The band of a battery percentage.
pub open spec fn band_of(pct: u8) -> LevelBand {
    if 80 <= pct <= 100 {
        LevelBand::High
    } else if 40 <= pct <= 79 {
        LevelBand::Medium
    } else {
        LevelBand::Low
    }
}

/// The band in which the battery screen shows a percentage.
pub fn battery_band(pct: u8) -> (b: LevelBand)
    ensures
        b == band_of(pct),
{
    if 80 <= pct && pct <= 100 {
        LevelBand::High
    } else if 40 <= pct && pct <= 79 {
        LevelBand::Medium
    } else {
        LevelBand::Low
    }
}

/// A message from the UI.
#[derive(Debug, Clone)]
pub enum Message {
    GoTo(Screen),
    Tick,
    RefreshBattery,
    HapticEffect(Effect),
    HapticBuzz,
    HapticPattern,
    HapticCancel,
    RefreshNetwork,
    RegisterChannel,
    ShowNotification,
    ShowProgress,
    CancelNotification,
    CheckAll,
    RequestCamera,
    RequestLocation,
    RequestBodySensors,
    StartSensor,
    StopSensor,
    SensorUpdate,
}

/// Work that the platform layer carries out for a message.
#[derive(Debug, Clone, PartialEq)]
pub enum Command {
    /// Take the pending line of the asynchronous log and hand it to `absorb_log`.
    AbsorbAsyncLog,
    /// Advance the simulated sensor values while the sensors are active, then copy
    /// the shared sensor snapshot.
    RefreshSensors,
    /// Read the battery state again.
    RefreshBattery,
    /// Read the network state again.
    RefreshNetwork,
    /// Drive the vibrator.
    Vibrate(VibrationRequest),
    /// Talk to the notification manager.
    Notify(NotificationRequest),
    /// Check these permissions (camera, fine location, body sensors) and hand the
    /// answers to `record_permissions`.
    CheckPermissions(Vec<Permission>),
    /// Request these permissions in the background and put the outcome, written by
    /// `request_log_line` under `label`, into the asynchronous log.
    RequestPermissions { permissions: Vec<Permission>, label: String },
    /// Mark the shared sensor state active or inactive (on a device, activating
    /// also starts the sensor streams).
    SetSensorsActive(bool),
}

/// Most entries a log keeps.
pub open spec fn log_capacity() -> nat {
    20
}

/// The last `log_capacity()` entries of a log.
pub open spec fn keep_last<T>(log: Seq<T>) -> Seq<T> {
    if log.len() > log_capacity() {
        log.subrange(log.len() - log_capacity(), log.len() as int)
    } else {
        log
    }
}

/// Drops the oldest entries of a log so that at most 20 remain.
pub fn trim_log(log: &mut Vec<String>)
    ensures
        final(log)@ == keep_last(old(log)@),
{
    if log.len() > 20 {
        let cut = log.len() - 20;
        let tail = log.split_off(cut);
        *log = tail;
    }
}

/// Trimming keeps at most 20 entries, keeps the newest ones in order, and a
/// trimmed log is not trimmed any further.
pub proof fn lemma_keep_last<T>(log: Seq<T>)
    ensures
        keep_last(log).len() <= log_capacity(),
        keep_last(log).len() == if log.len() > log_capacity() {
            log_capacity()
        } else {
            log.len()
        },
        forall|i: int|
            0 <= i < keep_last(log).len() ==> keep_last(log)[i] == log[log.len() - keep_last(
                log,
            ).len() + i],
        keep_last(keep_last(log)) == keep_last(log),
{
}

/// Adding an entry to a log: the entry goes last and the log is trimmed.
pub open spec fn with_entry(log: Seq<Seq<char>>, entry: Seq<char>) -> Seq<Seq<char>> {
    keep_last(log.push(entry))
}

fn push_log(log: &mut Vec<String>, entry: String)
    ensures
        texts(final(log)@) == with_entry(texts(old(log)@), entry@),
{
    let ghost before = log@;
    log.push(entry);
    proof {
        assert(texts(log@) =~= texts(before).push(entry@));
    }
    let ghost pushed = log@;
    trim_log(log);
    proof {
        assert(texts(log@) =~= keep_last(texts(pushed)));
    }
}

/// What the app shows, as plain values.
pub struct AppView {
    pub screen: Screen,
    pub haptic_log: Seq<Seq<char>>,
    pub notif_channel_ok: bool,
    pub notif_count: u32,
    pub notif_log: Seq<Seq<char>>,
    pub camera_ok: bool,
    pub location_ok: bool,
    pub body_sensors_ok: bool,
    pub perm_log: Seq<Seq<char>>,
    pub sensor_active: bool,
}

/// The app's state, apart from what is read from the platform (battery, network
/// and sensor readings).
pub struct AppState {
    pub screen: Screen,
    pub haptic_log: Vec<String>,
    pub notif_channel_ok: bool,
    pub notif_count: u32,
    pub notif_log: Vec<String>,
    pub camera_ok: bool,
    pub location_ok: bool,
    pub body_sensors_ok: bool,
    pub perm_log: Vec<String>,
    pub sensor_active: bool,
}

impl View for AppState {
    type V = AppView;

    open spec fn view(&self) -> AppView {
        AppView {
            screen: self.screen,
            haptic_log: texts(self.haptic_log@),
            notif_channel_ok: self.notif_channel_ok,
            notif_count: self.notif_count,
            notif_log: texts(self.notif_log@),
            camera_ok: self.camera_ok,
            location_ok: self.location_ok,
            body_sensors_ok: self.body_sensors_ok,
            perm_log: texts(self.perm_log@),
            sensor_active: self.sensor_active,
        }
    }
}

/// The state after a pending line of the asynchronous log arrives: it is kept
/// only while the permissions screen is shown, and the log is not trimmed.
pub open spec fn absorbed(v: AppView, pending: Option<Seq<char>>) -> AppView {
    match pending {
        Some(line) => if v.screen == Screen::Permissions {
            AppView { perm_log: v.perm_log.push(line), ..v }
        } else {
            v
        },
        None => v,
    }
}

/// The body of the notification shown under `id`.
pub open spec fn notification_body(id: u32) -> Seq<char> {
    "Notificação #"@ + decimal(id as nat)
}

/// The state after a message, once any pending log line was absorbed.
pub open spec fn next_view(v: AppView, msg: Message) -> AppView {
    match msg {
        Message::GoTo(s) => AppView { screen: s, ..v },
        Message::HapticEffect(e) => AppView {
            haptic_log: with_entry(v.haptic_log, "play("@ + effect_name(e) + ")"@),
            ..v
        },
        Message::HapticBuzz => AppView { haptic_log: with_entry(v.haptic_log, "buzz(500ms)"@), ..v },
        Message::HapticPattern => AppView {
            haptic_log: with_entry(v.haptic_log, "pattern(80·80·200ms)"@),
            ..v
        },
        Message::HapticCancel => AppView { haptic_log: with_entry(v.haptic_log, "cancel()"@), ..v },
        Message::RegisterChannel => AppView {
            notif_channel_ok: true,
            notif_log: with_entry(v.notif_log, "Canal 'demo' registrado"@),
            ..v
        },
        Message::ShowNotification => AppView {
            notif_count: (v.notif_count + 1) as u32,
            notif_log: with_entry(
                v.notif_log,
                "show(id="@ + decimal((v.notif_count + 1) as nat) + ")"@,
            ),
            ..v
        },
        Message::ShowProgress => AppView {
            notif_count: (v.notif_count + 1) as u32,
            notif_log: with_entry(
                v.notif_log,
                "progress(id="@ + decimal((v.notif_count + 1) as nat) + ", 65/100)"@,
            ),
            ..v
        },
        Message::CancelNotification => AppView {
            notif_log: with_entry(v.notif_log, "cancel(id="@ + decimal(v.notif_count as nat) + ")"@),
            ..v
        },
        Message::CheckAll => AppView { perm_log: with_entry(v.perm_log, "check() concluído"@), ..v },
        Message::RequestCamera => AppView {
            perm_log: with_entry(v.perm_log, "request(Camera) disparado…"@),
            ..v
        },
        Message::RequestLocation => AppView {
            perm_log: with_entry(v.perm_log, "request(Location) disparado…"@),
            ..v
        },
        Message::RequestBodySensors => AppView {
            perm_log: with_entry(v.perm_log, "request(BodySensors) disparado…"@),
            ..v
        },
        Message::StartSensor => AppView { sensor_active: true, ..v },
        Message::StopSensor => AppView { sensor_active: false, ..v },
        Message::Tick | Message::SensorUpdate | Message::RefreshBattery
        | Message::RefreshNetwork => v,
    }
}

/// The waveform of the SOS-like pattern: on 80, off 60, on 80, off 60, on 200.
pub open spec fn demo_pattern() -> Seq<(u64, u8)> {
    seq![(80u64, 255u8), (60u64, 0u8), (80u64, 255u8), (60u64, 0u8), (200u64, 255u8)]
}

/// `r` posts the plain demo notification under `id`.
pub open spec fn is_plain_notify(r: NotificationRequest, id: u32) -> bool {
    &&& r matches NotificationRequest::Notify { id: nid, channel_id, title, body, progress, ongoing, actions }
    &&& nid == id as i32
    &&& channel_id@ == "demo"@
    &&& opt_text(title) == Some("rustandroid"@)
    &&& opt_text(body) == Some(notification_body(id))
    &&& progress is None
    &&& !ongoing
    &&& actions@.len() == 0
}

/// `r` posts the demo progress notification under `id`.
pub open spec fn is_progress_notify(r: NotificationRequest, id: u32) -> bool {
    &&& r matches NotificationRequest::Notify { id: nid, channel_id, title, body, progress, ongoing, actions }
    &&& nid == id as i32
    &&& channel_id@ == "demo"@
    &&& opt_text(title) == Some("Download"@)
    &&& opt_text(body) == Some("Em progresso…"@)
    &&& progress == Some((100i32, 65i32))
    &&& ongoing
    &&& actions@.len() == 0
}

fn plain_notification(id: u32, n: &String) -> (r: NotificationRequest)
    requires
        n@ == decimal(id as nat),
    ensures
        is_plain_notify(r, id),
{
    let mut body = text_of("Notificação #");
    body.append(n.as_str());
    let (r, _) = Notification::new("demo").title("rustandroid").body(body.as_str()).show(id);
    proof {
        assert(action_texts(r->actions@).len() == r->actions@.len());
    }
    r
}

fn progress_notification(id: u32) -> (r: NotificationRequest)
    ensures
        is_progress_notify(r, id),
{
    let (r, _) = Notification::new("demo").title("Download").body("Em progresso…").progress(
        65,
        100,
    ).ongoing(true).show(id);
    proof {
        assert(action_texts(r->actions@).len() == r->actions@.len());
    }
    r
}

/// `cmds` is the work that `msg` asks of the platform, where `v` is the state
/// after the message.
pub open spec fn commands_for(v: AppView, msg: Message, cmds: Seq<Command>) -> bool {
    match msg {
        Message::GoTo(_) => cmds.len() == 0,
        Message::Tick | Message::SensorUpdate => {
            &&& cmds.len() == 2
            &&& cmds[0] is AbsorbAsyncLog
            &&& cmds[1] is RefreshSensors
        },
        Message::RefreshBattery => cmds.len() == 1 && cmds[0] is RefreshBattery,
        Message::RefreshNetwork => cmds.len() == 1 && cmds[0] is RefreshNetwork,
        Message::HapticEffect(e) => cmds.len() == 1 && cmds[0] == Command::Vibrate(
            Vibrator::play_spec(e),
        ),
        Message::HapticBuzz => cmds.len() == 1 && cmds[0] == Command::Vibrate(
            VibrationRequest::OneShot { ms: 500, amplitude: 255 },
        ),
        Message::HapticPattern => {
            &&& cmds.len() == 1
            &&& cmds[0] matches Command::Vibrate(r)
            &&& is_pattern_request(demo_pattern(), r)
        },
        Message::HapticCancel => {
            &&& cmds.len() == 1
            &&& cmds[0] matches Command::Vibrate(r)
            &&& r is Cancel
        },
        Message::RegisterChannel => {
            &&& cmds.len() == 1
            &&& cmds[0] matches Command::Notify(r)
            &&& r matches NotificationRequest::CreateChannel { channel_id, name, importance }
            &&& channel_id@ == "demo"@
            &&& name@ == "Demo Notifications"@
            &&& importance == 3
        },
        Message::ShowNotification => {
            &&& cmds.len() == 1
            &&& cmds[0] matches Command::Notify(r)
            &&& is_plain_notify(r, v.notif_count)
        },
        Message::ShowProgress => {
            &&& cmds.len() == 1
            &&& cmds[0] matches Command::Notify(r)
            &&& is_progress_notify(r, v.notif_count)
        },
        Message::CancelNotification => {
            &&& cmds.len() == 1
            &&& cmds[0] matches Command::Notify(r)
            &&& r matches NotificationRequest::Cancel { id }
            &&& id == v.notif_count as i32
        },
        Message::CheckAll => {
            &&& cmds.len() == 1
            &&& cmds[0] matches Command::CheckPermissions(ps)
            &&& ps@ == seq![Permission::Camera, Permission::AccessFineLocation, Permission::BodySensors]
        },
        Message::RequestCamera => {
            &&& cmds.len() == 1
            &&& cmds[0] matches Command::RequestPermissions { permissions, label }
            &&& permissions@ == seq![Permission::Camera]
            &&& label@ == "Camera"@
        },
        Message::RequestLocation => {
            &&& cmds.len() == 1
            &&& cmds[0] matches Command::RequestPermissions { permissions, label }
            &&& permissions@ == seq![Permission::AccessFineLocation, Permission::AccessCoarseLocation]
            &&& label@ == "Localização"@
        },
        Message::RequestBodySensors => {
            &&& cmds.len() == 1
            &&& cmds[0] matches Command::RequestPermissions { permissions, label }
            &&& permissions@ == seq![Permission::BodySensors]
            &&& label@ == "BodySensors"@
        },
        Message::StartSensor => cmds.len() == 1 && cmds[0] == Command::SetSensorsActive(true),
        Message::StopSensor => cmds.len() == 1 && cmds[0] == Command::SetSensorsActive(false),
    }
}

/// A message that shows a notification needs a free notification id.
pub open spec fn can_update(v: AppView, msg: Message) -> bool {
    (msg is ShowNotification || msg is ShowProgress) ==> v.notif_count < u32::MAX
}

fn text_of(s: &str) -> (r: String)
    ensures
        r@ == s@,
{
    String::from_str(s)
}

impl AppState {
    /// The state at start-up, on the battery screen, given whether the camera, fine
    /// location and body sensor permissions are granted.
    pub fn new(camera_ok: bool, location_ok: bool, body_sensors_ok: bool) -> (s: Self)
        ensures
            s@ == (AppView {
                screen: Screen::Battery,
                haptic_log: Seq::empty(),
                notif_channel_ok: false,
                notif_count: 0,
                notif_log: Seq::empty(),
                camera_ok,
                location_ok,
                body_sensors_ok,
                perm_log: Seq::empty(),
                sensor_active: false,
            }),
    {
        let s = AppState {
            screen: Screen::Battery,
            haptic_log: Vec::new(),
            notif_channel_ok: false,
            notif_count: 0,
            notif_log: Vec::new(),
            camera_ok,
            location_ok,
            body_sensors_ok,
            perm_log: Vec::new(),
            sensor_active: false,
        };
        proof {
            assert(texts(s.haptic_log@) =~= Seq::<Seq<char>>::empty());
            assert(texts(s.notif_log@) =~= Seq::<Seq<char>>::empty());
            assert(texts(s.perm_log@) =~= Seq::<Seq<char>>::empty());
        }
        s
    }

    /// Takes in a line of the asynchronous log: it is kept only while the
    /// permissions screen is shown.
    pub fn absorb_log(&mut self, line: Option<String>)
        ensures
            final(self)@ == absorbed(old(self)@, opt_text(line)),
    {
        if let Some(l) = line {
            if self.screen == Screen::Permissions {
                let ghost before = self.perm_log@;
                self.perm_log.push(l);
                proof {
                    assert(texts(self.perm_log@) =~= texts(before).push(l@));
                }
            }
        }
    }

    /// Records the answers of a permission check.
    pub fn record_permissions(&mut self, camera_ok: bool, location_ok: bool, body_sensors_ok: bool)
        ensures
            final(self)@ == (AppView { camera_ok, location_ok, body_sensors_ok, ..old(self)@ }),
    {
        self.camera_ok = camera_ok;
        self.location_ok = location_ok;
        self.body_sensors_ok = body_sensors_ok;
    }

    /// Handles a UI message, after taking in the pending line of the asynchronous
    /// log, and returns the work that the platform layer carries out for it.
    pub fn update(&mut self, msg: Message, pending_log: Option<String>) -> (cmds: Vec<Command>)
        requires
            can_update(absorbed(old(self)@, opt_text(pending_log)), msg),
        ensures
            final(self)@ == next_view(absorbed(old(self)@, opt_text(pending_log)), msg),
            commands_for(final(self)@, msg, cmds@),
    {
        self.absorb_log(pending_log);
        let mut cmds: Vec<Command> = Vec::new();
        match msg {
            Message::GoTo(s) => {
                self.screen = s;
            },
            Message::Tick | Message::SensorUpdate => {
                cmds.push(Command::AbsorbAsyncLog);
                cmds.push(Command::RefreshSensors);
            },
            Message::RefreshBattery => {
                cmds.push(Command::RefreshBattery);
            },
            Message::HapticEffect(e) => {
                cmds.push(Command::Vibrate(Vibrator::play(e)));
                let mut line = text_of("play(");
                line.append(e.name());
                line.append(")");
                push_log(&mut self.haptic_log, line);
            },
            Message::HapticBuzz => {
                let half_second = millis(500);
                cmds.push(Command::Vibrate(Vibrator::buzz(half_second)));
                push_log(&mut self.haptic_log, text_of("buzz(500ms)"));
            },
            Message::HapticPattern => {
                let w = Waveform::new().on(80).off(60).on(80).off(60).on(200);
                proof {
                    assert(w.steps@ =~= demo_pattern());
                }
                cmds.push(Command::Vibrate(Vibrator::pattern(w)));
                push_log(&mut self.haptic_log, text_of("pattern(80·80·200ms)"));
            },
            Message::HapticCancel => {
                cmds.push(Command::Vibrate(Vibrator::cancel()));
                push_log(&mut self.haptic_log, text_of("cancel()"));
            },
            Message::RefreshNetwork => {
                cmds.push(Command::RefreshNetwork);
            },
            Message::RegisterChannel => {
                let request = Channel::new("demo", "Demo Notifications").importance(
                    Priority::Default,
                ).register();
                cmds.push(Command::Notify(request));
                self.notif_channel_ok = true;
                push_log(&mut self.notif_log, text_of("Canal 'demo' registrado"));
            },
            Message::ShowNotification => {
                self.notif_count = self.notif_count + 1;
                let n = decimal_text(self.notif_count);
                cmds.push(Command::Notify(plain_notification(self.notif_count, &n)));
                let mut line = text_of("show(id=");
                line.append(n.as_str());
                line.append(")");
                push_log(&mut self.notif_log, line);
            },
            Message::ShowProgress => {
                self.notif_count = self.notif_count + 1;
                cmds.push(Command::Notify(progress_notification(self.notif_count)));
                let n = decimal_text(self.notif_count);
                let mut line = text_of("progress(id=");
                line.append(n.as_str());
                line.append(", 65/100)");
                push_log(&mut self.notif_log, line);
            },
            Message::CancelNotification => {
                cmds.push(Command::Notify(Notification::cancel(self.notif_count)));
                let n = decimal_text(self.notif_count);
                let mut line = text_of("cancel(id=");
                line.append(n.as_str());
                line.append(")");
                push_log(&mut self.notif_log, line);
            },
            Message::CheckAll => {
                cmds.push(
                    Command::CheckPermissions(
                        vec![
                            Permission::Camera,
                            Permission::AccessFineLocation,
                            Permission::BodySensors,
                        ],
                    ),
                );
                push_log(&mut self.perm_log, text_of("check() concluído"));
            },
            Message::RequestCamera => {
                let permissions = vec![Permission::Camera];
                assert(permissions@ =~= seq![Permission::Camera]);
                cmds.push(Command::RequestPermissions { permissions, label: text_of("Camera") });
                push_log(&mut self.perm_log, text_of("request(Camera) disparado…"));
            },
            Message::RequestLocation => {
                cmds.push(
                    Command::RequestPermissions {
                        permissions: vec![
                            Permission::AccessFineLocation,
                            Permission::AccessCoarseLocation,
                        ],
                        label: text_of("Localização"),
                    },
                );
                push_log(&mut self.perm_log, text_of("request(Location) disparado…"));
            },
            Message::RequestBodySensors => {
                let permissions = vec![Permission::BodySensors];
                assert(permissions@ =~= seq![Permission::BodySensors]);
                cmds.push(Command::RequestPermissions { permissions, label: text_of("BodySensors") });
                push_log(&mut self.perm_log, text_of("request(BodySensors) disparado…"));
            },
            Message::StartSensor => {
                self.sensor_active = true;
                cmds.push(Command::SetSensorsActive(true));
            },
            Message::StopSensor => {
                self.sensor_active = false;
                cmds.push(Command::SetSensorsActive(false));
            },
        }
        cmds
    }
}

/// Only showing a notification (plain or with progress) takes a new notification
/// id, one more than the last; every other message keeps it.
pub proof fn lemma_notification_ids(v: AppView, msg: Message, pending: Option<Seq<char>>)
    requires
        can_update(absorbed(v, pending), msg),
    ensures
        next_view(absorbed(v, pending), msg).notif_count == if msg is ShowNotification
            || msg is ShowProgress {
            v.notif_count + 1
        } else {
            v.notif_count as int
        },
{
}

/// The haptics and notification logs never hold more than 20 entries, and neither
/// does the permissions log as long as no asynchronous line is taken in on the
/// permissions screen (such a line is added untrimmed).
pub proof fn lemma_logs_bounded(v: AppView, msg: Message, pending: Option<Seq<char>>)
    requires
        v.haptic_log.len() <= log_capacity(),
        v.notif_log.len() <= log_capacity(),
        v.perm_log.len() <= log_capacity(),
    ensures
        next_view(absorbed(v, pending), msg).haptic_log.len() <= log_capacity(),
        next_view(absorbed(v, pending), msg).notif_log.len() <= log_capacity(),
        (pending is None || v.screen != Screen::Permissions) ==> next_view(
            absorbed(v, pending),
            msg,
        ).perm_log.len() <= log_capacity(),
{
    let a = absorbed(v, pending);
    match msg {
        Message::HapticEffect(e) => lemma_keep_last(a.haptic_log.push("play("@ + effect_name(e) + ")"@)),
        Message::HapticBuzz => lemma_keep_last(a.haptic_log.push("buzz(500ms)"@)),
        Message::HapticPattern => lemma_keep_last(a.haptic_log.push("pattern(80·80·200ms)"@)),
        Message::HapticCancel => lemma_keep_last(a.haptic_log.push("cancel()"@)),
        Message::RegisterChannel => lemma_keep_last(a.notif_log.push("Canal 'demo' registrado"@)),
        Message::ShowNotification => lemma_keep_last(
            a.notif_log.push("show(id="@ + decimal((a.notif_count + 1) as nat) + ")"@),
        ),
        Message::ShowProgress => lemma_keep_last(
            a.notif_log.push("progress(id="@ + decimal((a.notif_count + 1) as nat) + ", 65/100)"@),
        ),
        Message::CancelNotification => lemma_keep_last(
            a.notif_log.push("cancel(id="@ + decimal(a.notif_count as nat) + ")"@),
        ),
        Message::CheckAll => lemma_keep_last(a.perm_log.push("check() concluído"@)),
        Message::RequestCamera => lemma_keep_last(a.perm_log.push("request(Camera) disparado…"@)),
        Message::RequestLocation => lemma_keep_last(
            a.perm_log.push("request(Location) disparado…"@),
        ),
        Message::RequestBodySensors => lemma_keep_last(
            a.perm_log.push("request(BodySensors) disparado…"@),
        ),
        _ => {},
    }
}

/// `name` ends with `suffix`.
pub open spec fn ends_with(name: Seq<char>, suffix: Seq<char>) -> bool {
    name.len() >= suffix.len() && name.skip(name.len() - suffix.len()) == suffix
}

/// Each permission button asks for what it names: the Camera and BodySensors
/// buttons request exactly the one permission whose identifier is the button's
/// label, and the location button requests location permissions only.
pub proof fn lemma_request_buttons_ask_what_they_name(v: AppView, cmds: Seq<Command>)
    ensures
        commands_for(v, Message::RequestCamera, cmds) ==> {
            &&& cmds.len() == 1
            &&& cmds[0] matches Command::RequestPermissions { permissions, label }
            &&& permissions@.len() == 1
            &&& permission_ident(permissions@[0]) == label@
        },
        commands_for(v, Message::RequestBodySensors, cmds) ==> {
            &&& cmds.len() == 1
            &&& cmds[0] matches Command::RequestPermissions { permissions, label }
            &&& permissions@.len() == 1
            &&& permission_ident(permissions@[0]) == label@
        },
        commands_for(v, Message::RequestLocation, cmds) ==> {
            &&& cmds.len() == 1
            &&& cmds[0] matches Command::RequestPermissions { permissions, label }
            &&& permissions@.len() > 0
            &&& forall|i: int|
                0 <= i < permissions@.len() ==> ends_with(
                    #[trigger] permission_ident(permissions@[i]),
                    "Location"@,
                )
        },
{
    reveal_strlit("Location");
    reveal_strlit("AccessFineLocation");
    reveal_strlit("AccessCoarseLocation");
    assert("AccessFineLocation"@.skip(10) =~= "Location"@);
    assert("AccessCoarseLocation"@.skip(12) =~= "Location"@);
}

/// Switching screens changes nothing but the screen, and a tick without a pending
/// line changes nothing at all.
pub proof fn lemma_navigation_and_ticks(v: AppView, s: Screen)
    ensures
        next_view(absorbed(v, None), Message::GoTo(s)) == (AppView { screen: s, ..v }),
        next_view(absorbed(v, None), Message::Tick) == v,
        next_view(absorbed(v, None), Message::SensorUpdate) == v,
{
}

/// The log line for the outcome of a permission request made under `label`:
/// `"<label>: concedida ✓"` when granted, `"<label>: negada (<error>)"` otherwise.
pub open spec fn request_log_text(label: Seq<char>, outcome: Result<(), PermissionError>) -> Seq<char> {
    match outcome {
        Ok(()) => label + ": concedida ✓"@,
        Err(e) => label + ": negada ("@ + error_name(e) + ")"@,
    }
}

/// Writes the log line for the outcome of a permission request.
pub fn request_log_line(label: &str, outcome: &Result<(), PermissionError>) -> (s: String)
    ensures
        s@ == request_log_text(label@, *outcome),
{
    let mut s = text_of(label);
    match outcome {
        Ok(()) => {
            s.append(": concedida ✓");
        },
        Err(e) => {
            s.append(": negada (");
            s.append(e.name());
            s.append(")");
        },
    }
    s
}

} // verus!
