[package]
name = "hisi_rf_ws63"
version = "0.1.0"
edition = "2021"
publish = false

[dependencies]
critical-section = { version = "=1.2.0", features = ["std"] }
embassy-net-driver = "=0.2.0"
embassy-sync = "=0.7.2"
embassy-time = { version = "=0.5.1", features = ["std"] }
hisi-alloc = "=0.1.0-alpha.3"
hisi-crypto = "=0.1.0-alpha.5"
hisi-crypto-ws63 = "=0.1.0-alpha.5"
hisi-hal = "=0.7.0-alpha.9"
hisi-rf-core = { version = "=0.1.0-alpha.26", features = ["embassy-net-driver", "incremental-backend-experiment", "smoltcp"] }
hisi-rf-rtos-driver = "=0.1.0-alpha.20"
portable-atomic = "=1.15.0"
smoltcp = { version = "0.13", default-features = false, features = ["medium-ethernet", "proto-ipv4", "socket-raw"] }
static_cell = "=2.1.1"
ws63-radio-sys = { version = "=0.1.0-alpha.26", features = ["ble"] }
