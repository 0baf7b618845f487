[package]
name = "oido"
version = "0.1.0"
edition = "2021"
publish = false

[dependencies]
anyhow = "1"
clap = { version = "4", features = ["derive"] }
crossbeam-channel = "0.5"
ctrlc = "3"
dark-light = "1"
hex = "=0.4.3"
minisign-verify = "=0.2.5"
misaki-rs = { version = "=0.3.0", default-features = false }
open = "5"
ort = { version = "2.0.0-rc.9", default-features = false, features = ["ndarray", "load-dynamic"] }
parking_lot = "0.12"
piper-plus-g2p = "=0.5.3"
reqwest = { version = "0.12", default-features = false, features = ["blocking", "rustls-tls"] }
self_update = { version = "=0.44.0", default-features = false, features = ["reqwest", "rustls"] }
serde = { version = "1", features = ["derive"] }
serde_json = "1"
sha2 = "=0.10.9"
thiserror = "2"
tracing = "0.1"
tracing-subscriber = { version = "0.3", features = ["env-filter"] }
zip = { version = "=2.6.1", default-features = false, features = ["deflate"] }
