[package]
name = "tm_mumble_link"
version = "0.1.0"
edition = "2021"
publish = false

[dependencies]
byteorder = "1"
md-5 = "0.10"
serde = { version = "1", features = ["derive"] }
serde_json = "1"
message-io = "*"
mumble-link = "*"
cgmath = "0.18"
log = "0.4"
env_logger = "*"
lazy_static = "1"
windows = { version = "0.58", features = ["Win32_Foundation", "Win32_Security", "Win32_System_Memory", "Win32_UI_Input_KeyboardAndMouse"] }
windows-core = "0.58"
