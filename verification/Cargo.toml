[package]
name = "bootkeeper"
version = "0.1.0"
edition = "2021"
publish = false

[dependencies]
chrono = "=0.4.45"
serde = { version = "=1.0.229", features = ["derive"] }
serde_json = "=1.0.154"
uuid = { version = "=1.29.0", features = ["v4"] }
clap = { version = "=4.6.7", features = ["derive"] }
winreg = "=0.55.0"
windows = { version = "=0.58.0", features = ["Win32_Foundation", "Win32_System_Com", "Win32_System_TaskScheduler", "Win32_System_Variant", "Win32_System_Ole", "Win32_UI_Shell", "Win32_UI_WindowsAndMessaging", "Win32_Security", "Win32_Security_WinTrust", "Win32_Security_Cryptography", "Win32_System_Services"] }
rmcp = { version = "=0.8.5", features = ["transport-io"] }
tokio = { version = "=1.54.1", features = ["macros", "rt-multi-thread", "io-std"] }
schemars = "=1.2.3"
anyhow = "=1.0.104"
getrandom = "=0.4.3"
