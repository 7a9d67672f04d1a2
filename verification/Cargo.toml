[package]
name = "kz_dsp"
version = "0.1.0"
edition = "2021"
publish = false

[dependencies]
anyhow = "1"
arc-swap = "1"
dirs = "5"
egui = "0.29"
egui_plot = "0.29"
pipewire = "*"
serde = { version = "1", features = ["derive"] }
serde_json = "1"
thread-priority = "*"
tokio = { version = "1", features = ["rt-multi-thread", "net", "io-util", "sync"] }
toml = "*"
tracing = "0.1"
tracing-subscriber = { version = "0.3", features = ["env-filter", "fmt"] }
