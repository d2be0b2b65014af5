[package]
name = "assistant_core"
version = "1.5.1"
edition = "2021"
publish = false

[dependencies]
anyhow = "1"
async-trait = "0.1"
clap = { version = "4", default-features = false, features = ["std", "derive", "help", "usage", "error-context"] }
hf-hub = { version = "=0.4.3", default-features = false, features = ["ureq"] }
hound = "=3.5.1"
sentencepiece-rs = "=0.2.2"
serde = { version = "1", features = ["derive"] }
serde_json = "1"
sha2 = "=0.10.9"
sherpa-onnx = "=2.0.1"
thiserror = "2"
tokio = { version = "1", default-features = false, features = ["rt-multi-thread", "macros", "sync", "time", "io-util", "signal", "net"] }
toml = "=0.9.12"
tracing = "0.1"
tracing-subscriber = { version = "0.3", default-features = false, features = ["env-filter", "fmt"] }
windows-sys = { version = "=0.61.2", features = ["Win32_Foundation", "Win32_Security", "Win32_Security_Authorization", "Win32_Storage_FileSystem", "Win32_System_Com", "Win32_System_ProcessStatus", "Win32_System_Registry", "Win32_System_Threading", "Win32_UI_Input_KeyboardAndMouse", "Win32_UI_Shell", "Win32_UI_WindowsAndMessaging"] }
