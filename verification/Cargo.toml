[package]
name = "dpc_driver"
version = "0.1.0"
edition = "2021"
publish = false

[dependencies]
wdk = "*"
wdk-alloc = "*"
wdk-panic = "*"
wdk-sys = "*"
windows = { version = "0.58", features = ["Win32_Foundation", "Win32_Security", "Win32_Storage_FileSystem", "Win32_System_IO"] }
