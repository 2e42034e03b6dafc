[package]
name = "songbird"
version = "0.1.0"
edition = "2021"
publish = false

[dependencies]
xsalsa20poly1305 = "*"
audiopus = "0.2"
rand = "0.8"
url = "2"
serde = { version = "1", features = ["derive"] }
serde_json = "1"
tokio = { version = "1", features = ["net", "rt", "time", "process", "io-util", "sync", "macros"] }
flume = "*"
