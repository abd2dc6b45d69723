[package]
name = "mobus_operandi"
version = "0.1.0"
edition = "2021"
publish = false

[dependencies]
maud = "*"
comrak = { version = "*", default-features = false }
chrono = "*"
colored = "*"
futures = "*"
tokio = { version = "1", features = ["process", "macros", "rt-multi-thread", "fs", "io-util"] }
notify = "*"
portpicker = "*"
open = "*"
clap = { version = "4", features = ["derive"] }
camino = "*"
thiserror = "*"
live-server = "*"
reqwest = { version = "*", default-features = false }
