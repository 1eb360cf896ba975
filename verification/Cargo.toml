[package]
name = "sharedroid"
version = "0.1.0"
edition = "2021"
publish = false

[dependencies]
uuid = { version = "1", features = ["v4"] }
tokio = { version = "1", features = ["sync", "time", "rt", "rt-multi-thread", "macros"] }
futures = "0.3"
jni = "0.21"
ndk-context = "0.1"
ndk-sys = "0.6"
log = "0.4"
android_logger = "0.14"
syn = { version = "1", features = ["full"] }
quote = "1"
proc-macro2 = "1"
iced = { version = "0.13", default-features = false, features = ["tokio", "tiny-skia"] }
