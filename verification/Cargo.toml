[package]
name = "e_core_detection"
version = "0.1.0"
edition = "2021"
publish = false

[dependencies]
num_cpus = "1"
tokio = { version = "1", features = ["rt-multi-thread", "macros"] }
futures = "0.3"
async-process = "2"
clap = { version = "4", features = ["derive"] }
