[package]
name = "buildkite_waiter"
version = "0.3.0"
edition = "2021"
publish = false

[dependencies]
url = "2"
heck = "0.4"
chrono = "0.4"
chrono-humanize = "0.2"
anyhow = "1"
thiserror = "1"
clap = { version = "4", features = ["derive"] }
console = "0.15"
dialoguer = "0.11"
fern = "0.6"
log = "0.4"
indicatif = "0.17"
keyring = "2"
secrecy = "0.8"
once_cell = "1"
reqwest = { version = "0.12", default-features = false, features = ["json", "rustls-tls"] }
tokio = { version = "1", features = ["rt", "time", "macros"] }
serde = { version = "1", features = ["derive"] }
serde_json = "1"
notifica = "3"
