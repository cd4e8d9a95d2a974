[package]
name = "crankshaft_plugin"
version = "0.1.0"
edition = "2021"
publish = false

[dependencies]
serde = { version = "1", features = ["derive"] }
serde_json = "1"
thiserror = "*"
async-trait = "0.1"
futures = "0.3"
tokio = { version = "1", features = ["process", "net", "rt", "macros", "io-util", "time", "sync"] }
tokio-util = { version = "0.7", features = ["codec"] }
nonempty = { version = "*", features = ["serialize"] }
crankshaft-engine = "*"
