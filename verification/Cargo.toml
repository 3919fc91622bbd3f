[package]
name = "netpoll"
version = "0.1.0"
edition = "2021"
publish = false

[dependencies]
bytes = "1"
tokio = { version = "1", features = ["full"] }
tokio-util = "0.7"
futures = "0.3"
futures-util = "0.3"
mio = { version = "0.8", features = ["os-poll", "net", "os-ext"] }
libc = "0.2"
nix = "0.26"
os_socketaddr = "0.2"
tempfile = "3"
clap = { version = "3.2", features = ["cargo"] }
windows-sys = { version = "0.48", features = ["Win32_Foundation", "Win32_NetworkManagement_IpHelper", "Win32_NetworkManagement_Ndis", "Win32_Networking_WinSock"] }
winapi = { version = "0.3", features = ["ws2def", "ws2tcpip"] }
windows = { version = "0.48", features = ["Foundation", "Foundation_Collections", "Networking", "Networking_Connectivity"] }
