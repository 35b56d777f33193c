[package]
name = "simtools"
version = "0.1.0"
edition = "2021"
publish = false

[dependencies]
anyhow = "=1.0.104"
cairo-rs = "=0.22.9"
clap = { version = "=4.6.7", features = ["derive"] }
colorgrad = "=0.6.2"
csscolorparser = "=0.6.2"
embedded-graphics = "=0.8.2"
hidapi = "=2.6.7"
itertools = "=0.15.0"
rusb = "=0.9.4"
serde = { version = "=1.0.229", features = ["derive"] }
serde_json = { version = "=1.0.154", features = ["raw_value"] }
simetry = { version = "=0.2.3", default-features = false }
tokio = { version = "=1.54.1", features = ["macros", "rt-multi-thread", "time"] }
uom = "=0.34.0"
uuid = { version = "=1.29.0", features = ["serde"] }
