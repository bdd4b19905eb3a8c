[package]
name = "rshare"
version = "1.0.0"
edition = "2021"
publish = false

[dependencies]
aes-gcm = "0.10"
x25519-dalek = "2"
ed25519-dalek = "2"
hkdf = "0.12"
sha2 = "0.10"
hex = "0.4"
rand = "0.9"
tokio = { version = "1", features = ["rt-multi-thread", "macros", "net", "io-util", "fs", "time"] }
reqwest = { version = "0.12", default-features = false, features = ["json"] }
serde = { version = "1", features = ["derive"] }
serde_json = "1"
toml = "0.8"
clap = { version = "4", features = ["derive"] }
colored = "2"
indicatif = "0.17"
memmap2 = "0.9"
figlet-rs = "0.1"
local-ip-address = "0.6"
