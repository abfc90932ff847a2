[package]
name = "donglora-client"
version = "1.0.2"
edition = "2021"
publish = false

[dependencies]
donglora-protocol = "1"
rand = "0.9"
thiserror = "2"
tokio = { version = "1", features = ["rt", "rt-multi-thread", "macros", "net", "io-util", "sync", "time"] }
tokio-serial = "5"
tracing = "0.1"
