[package]
name = "simprint-runtime"
version = "0.1.0"
edition = "2021"
publish = false

[dependencies]
rand = "=0.8.8"
serde = { version = "=1.0.229", features = ["derive"] }
serde_json = "=1.0.154"
tokio = { version = "=1.54.1", features = ["full"] }
bytes = "=1.12.1"
async-trait = "=0.1.92"
thiserror = "=1.0.69"
reqwest = { version = "=0.12.28", default-features = false, features = ["json"] }
windows = { version = "0.58", features = ["Win32_Foundation", "Win32_Security", "Win32_System_JobObjects", "Win32_System_Threading"] }
