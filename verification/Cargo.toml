[package]
name = "gheartbeat"
version = "0.1.0"
edition = "2021"
publish = false

[dependencies]
a2s = "*"
chrono = "*"
local-ip-address = "*"
rglua = "*"
sysinfo = "*"
thiserror = "*"
