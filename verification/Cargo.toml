[package]
name = "openscq30_lib"
version = "0.1.0"
edition = "2021"
publish = false

[dependencies]
macaddr = "1"
uuid = "1"
anyhow = "1"
clap = "4"
dirs = "*"
tokio = { version = "1", features = ["rt-multi-thread", "macros", "sync", "time"] }
tracing = "0.1"
tracing-subscriber = { version = "0.3", features = ["env-filter"] }
async-trait = "0.1"
objc2 = "0.6"
objc2-core-foundation = "0.3"
objc2-foundation = "0.3"
objc2-io-bluetooth = "0.3"
