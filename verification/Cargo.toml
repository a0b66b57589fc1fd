[package]
name = "async_hid"
version = "0.1.0"
edition = "2021"
publish = false

[dependencies]
async-channel = "2"
pollster = "0.4"
futures-core = "0.3"
log = "0.4"
serde = { version = "1", features = ["derive"] }
serde-wasm-bindgen = "0.6"
static_assertions = "1"
js-sys = "0.3"
wasm-bindgen = "0.2"
wasm-bindgen-futures = "0.4"
web-sys = { version = "0.3", features = ["Window", "Navigator", "Hid", "HidDevice", "HidDeviceRequestOptions", "HidInputReportEvent", "HidCollectionInfo"] }
jni = "0.21"
ndk-context = "0.1"
android_logger = "0.14"
