[package]
name = "notifs_out"
version = "0.1.0"
edition = "2021"
publish = false

[dependencies]
futures = "0.3"
libp2p = { version = "0.52", default-features = false }
log = "0.4"
smallvec = "1"
void = "1"
