[package]
name = "discord2"
version = "0.1.0"
edition = "2021"
publish = false

[dependencies]
ringbuf = "0.4"
serde_json = "1"
cpal = "0.15"
audiopus = "0.2"
samplerate = "0.2"
tokio = { version = "1", features = ["net", "sync", "time", "rt", "macros"] }
dirs = "6"
