//! Verified core of an Android platform SDK: haptics, connectivity, notifications,
//! permissions, push messaging, sensors, background work and the demo app's state.
//!
//! Everything that talks to the platform (JNI, the NDK, async runtimes, the UI
//! toolkit) lives outside this crate; the functions here compute what is sent to the
//! platform and decide what to do with what comes back.

pub mod app_state;
pub mod battery;
pub mod durations;
pub mod haptics;
pub mod jni_names;
pub mod network;
pub mod notifications;
pub mod permissions;
pub mod push;
pub mod sensors;
pub mod text;
pub mod workmanager;
