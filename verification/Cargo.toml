[package]
name = "librespot-bridge"
version = "0.1.0"
edition = "2021"
publish = false

[dependencies]
base64 = "=0.22.1"
bytes = "=1.12.1"
clap = { version = "4", features = ["derive"] }
env_logger = "0.11"
futures = "0.3"
http-body = "1"
hyper = { version = "1", features = ["server", "http1"] }
hyper-util = { version = "0.1", features = ["tokio"] }
librespot-connect = { version = "0.8", default-features = false }
librespot-core = { version = "0.8", default-features = false, features = ["rustls-tls-webpki-roots"] }
librespot-metadata = { version = "0.8", default-features = false }
librespot-playback = { version = "0.8", default-features = false }
log = "0.4"
mp3lame-encoder = "=0.2.5"
native-tls = "0.2"
parking_lot = "0.12"
reqwest = { version = "0.12", default-features = false, features = ["json", "socks", "native-tls"] }
rustls = { version = "0.23", default-features = false, features = ["ring", "std"] }
serde_json = "=1.0.154"
tokio = { version = "1", features = ["full"] }
tokio-tungstenite = { version = "0.26", features = ["native-tls"] }

[dev-dependencies]
vergen = { version = "=9.0.6", default-features = false }
