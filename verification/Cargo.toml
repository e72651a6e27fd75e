[package]
name = "can_dashboard"
version = "0.1.0"
edition = "2021"
publish = false

[dependencies]
bevy_app = { version = "0.16", default-features = false }
bevy_ecs = { version = "0.16", default-features = false }
circ_buffer = "=0.1.9"
critical-section = "=1.2.0"
embassy-embedded-hal = "0.3"
embassy-executor = "0.7"
embassy-sync = "0.6"
embassy-time = "0.4"
embedded-can = "=0.4.1"
embedded-graphics = "=0.8.2"
embedded-hal = "=1.0.0"
esp-alloc = "0.8"
esp-hal = { version = "=1.0.0-rc.0", features = ["esp32s3", "unstable"] }
esp-hal-embassy = { version = "=0.9.1", features = ["esp32s3"] }
esp-println = { version = "0.15", features = ["esp32s3"] }
lcd-async = "=0.1.3"
log = "0.4"
num-traits = { version = "=0.2.19", default-features = false, features = ["libm"] }
static_cell = "=2.1.1"
