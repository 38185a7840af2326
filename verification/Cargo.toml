[package]
name = "opc_da_client"
version = "0.1.0"
edition = "2021"
publish = false

[dependencies]
thiserror = "1"
windows = { version = "0.58", default-features = false, features = ["Win32_Foundation", "Win32_System_Com", "Win32_System_Ole"] }
