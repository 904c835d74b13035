[package]
name = "pc_health"
version = "0.1.0"
edition = "2021"
publish = false

[dependencies]
chrono = "0.4"
serde = { version = "1", features = ["derive"] }
serde_json = "1"
rusqlite = { version = "*", features = ["bundled"] }
tauri = { version = "2", default-features = false, features = ["wry"] }
windows-sys = { version = "*", features = ["Win32_Foundation", "Win32_System_Threading", "Win32_System_Registry", "Win32_System_SystemInformation"] }
windows = { version = "*", features = ["Win32_Foundation", "Win32_NetworkManagement_IpHelper", "Win32_NetworkManagement_Ndis", "Win32_Networking_WinSock", "Win32_System_Com", "Win32_System_Variant", "Win32_System_Wmi"] }
