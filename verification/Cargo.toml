[package]
name = "shout_core"
version = "0.1.0"
edition = "2021"
publish = false

[dependencies]
anyhow = "=1.0.104"
audioadapter-buffers = "=2.0.0"
csv = "=1.4.0"
mel_spec = "=0.5.0"
ndarray = "=0.16.1"
rubato = "=1.0.1"
serde = { version = "=1.0.229", features = ["derive"] }
serde_json = "=1.0.154"
symphonia = { version = "=0.5.5", features = ["mp3"] }
