[package]
name = "femtoclaw_bench"
version = "0.1.0"
edition = "2021"
publish = false

[dependencies]
anyhow = "1"
clap = { version = "4", features = ["derive"] }
serde = { version = "1", features = ["derive"] }
serde_json = "1"
sysinfo = "0.29"
tokio = { version = "1", features = ["macros", "rt-multi-thread"] }
windows-sys = { version = "0.48", features = ["Win32_Foundation", "Win32_System_ProcessStatus", "Win32_System_Threading"] }
