[package]
name = "fossdeck_core"
version = "0.1.0"
edition = "2021"
publish = false

[dependencies]
anyhow = "1"
directories-next = "2"
env_logger = "0.11"
futures = "0.3"
get_if_addrs = "0.5"
hex = "0.4"
log = "0.4"
rand = "0.8"
serde = { version = "1", features = ["derive"] }
serde_json = "1"
sha2 = "0.10"
tokio = { version = "1", features = ["full"] }
tokio-util = "0.7"
warp = "0.3"
whoami = "1.5"
windows = { version = "0.58", features = ["Win32_Foundation", "Win32_Media_Audio", "Win32_Media_Audio_Endpoints", "Win32_System_Com", "Win32_UI_Input_KeyboardAndMouse"] }
