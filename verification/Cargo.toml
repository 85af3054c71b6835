[package]
name = "proc-ctl"
version = "0.1.0"
edition = "2021"
publish = false

[dependencies]
async-recursion = "1.0"
procfs = "0.17"
retry = "2.0"
sysinfo = "0.32"
thiserror = "1.0"
tokio = { version = "1", features = ["time"] }
windows = { version = "0.58", features = ["Win32_Foundation", "Win32_Networking_WinSock", "Win32_NetworkManagement_IpHelper"] }
