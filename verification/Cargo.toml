[package]
name = "rayrust"
version = "0.1.0"
edition = "2021"
publish = false

[dependencies]
serde = "1"
rmp-serde = "1"
rmpv = { version = "1", features = ["with-serde"] }
thiserror = "1"
tokio = { version = "1", features = ["rt-multi-thread", "time"] }
syn = { version = "2", features = ["full"] }
quote = "1"
proc-macro2 = "1"
ctor = "0.2"
