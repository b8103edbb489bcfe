[package]
name = "simple_nostr_client"
version = "0.1.0"
edition = "2021"
publish = false

[dependencies]
log = "0.4"
nostr = { version = "0.43", features = ["nip04"] }
websocket = { version = "0.27", default-features = false, features = ["sync", "sync-ssl"] }
