[package]
name = "wmi_query"
version = "0.1.0"
edition = "2021"
publish = false

[dependencies]
async-channel = "*"
ctrlc = "3"
serde = { version = "1", features = ["derive"] }
serde_json = "1"
sysinfo = "*"
thiserror = "*"
tokio = { version = "1", features = ["rt-multi-thread", "macros", "sync", "time"] }
