[package]
name = "jellium_platform"
version = "0.1.0"
edition = "2021"
publish = false

[dependencies]
x11rb = { version = "=0.13.2", features = ["request-parsing", "xfixes", "shm", "sync", "cursor", "resource_manager"] }
slotmap = "=1.1.1"
nix = { version = "=0.30.1", features = ["socket", "uio", "poll", "fs", "event"] }
parking_lot = "0.12"
calloop = "=0.14.5"
crossbeam-channel = "0.5"
tempfile = "3"
gethostname = "1"
tracing = "0.1"
cursor-icon = "1"
smithay-client-toolkit = { version = "=0.21.1", default-features = false, features = ["calloop"] }
