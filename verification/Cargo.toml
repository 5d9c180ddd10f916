[package]
name = "sync_ipc"
version = "0.1.0"
edition = "2021"
publish = false

[dependencies]
windows = { version = "0.39", features = ["implement", "Win32_Foundation", "Win32_Globalization", "Win32_System_Com", "Win32_System_Ole"] }
windows-implement = "0.39"
windows-interface = "0.39"
webview2-com = "0.19"
const-utf16 = "0.2"
