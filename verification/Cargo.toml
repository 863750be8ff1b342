[package]
name = "rdbc"
version = "0.1.0"
edition = "2021"
publish = false

[dependencies]
uuid = { version = "=1.29.0", features = ["v4"] }
thiserror = "=1.0.69"
log = "=0.4.34"
sqlite3-sys = "=0.18.2"
syn = "2"
quote = "1"
proc-macro2 = "1"
