[package]
name = "pingora_bench"
version = "0.1.0"
edition = "2021"
publish = false

[dependencies]
bytes = "1"
clap = { version = "4", features = ["derive"] }
http = "1"
pingora = "*"
tokio = { version = "1", features = ["rt-multi-thread", "macros"] }
url = "2"
