[package]
name = "etw_control"
version = "0.1.0"
edition = "2021"
publish = false

[dependencies]
clap = { version = "=4.6.7", features = ["derive"] }
wildmatch = "=2.6.1"
windows = { version = "=0.58.0", features = ["Win32_Foundation", "Win32_System_Diagnostics_Etw"] }
