# sharedroid

A small Android platform SDK (haptics, connectivity, notifications, runtime
permissions, push messages, sensors, background work) and the demo app that
exercises it, with its core logic verified by Verus.

## Layout

- `src/` — the verified library. Every operation that touches the platform
  computes, with a contract, what is sent to the platform (a `VibrationRequest`,
  a `NotificationRequest`, a `PermissionRequest`, ...) or decides what to do with
  what came back (`network::read`, `permissions::request_outcome`,
  `sensors::SensorPoll`, `workmanager::WorkRun::step`). The demo app's state
  machine is `app_state::AppState::update`, which turns each UI message into a new
  state and a list of `Command`s.
  - `haptics`, `network`, `notifications`, `permissions`, `push`, `sensors`,
    `workmanager`, `battery` — the SDK modules.
  - `jni_names` — names of JNI entry points (`Java_<package>_<Class>_<method>`).
  - `app_state` — the demo app's state and messages.
  - `durations`, `text` — what is known of `std::time::Duration`, and small text
    helpers.
- `app/` — the platform layer: JNI and NDK calls (on Android), tokio tasks and
  channels, the iced UI, and the `#[jni_call]` expansion. It carries out what the
  library decides: for background work, `app/workmanager.rs` runs the loop that
  performs each `WorkAction` and hands the next `WorkEvent` back to `WorkRun::step`.
- `tests/` — tests of the library on concrete values.
