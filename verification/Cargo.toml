[package]
name = "krun_whpx"
version = "0.1.0"
edition = "2021"
publish = false

[dependencies]
crossbeam-channel = "0.5"
libc = "0.2"
libslirp-sys = "*"
log = "0.4"
nix = { version = "0.30", features = ["time"] }
vm-memory = { version = "0.16", features = ["backend-mmap"] }
windows-sys = { version = "0.59", features = [
    "Win32_Foundation",
    "Win32_Networking_WinSock",
    "Win32_Security",
    "Win32_System_Hypervisor",
    "Win32_System_Threading",
] }
