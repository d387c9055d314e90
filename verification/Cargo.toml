[package]
name = "venmo_tui"
version = "0.1.0"
edition = "2021"
publish = false

[dependencies]
regex = "1"
serde_json = "1"
serde = { version = "1", features = ["derive"] }
reqwest = { version = "0.11", features = ["json", "cookies"] }
sled = "0.34"
tokio = { version = "1", features = ["macros", "rt-multi-thread"] }
async-trait = "0.1"
crossterm = "0.25"
tui = "0.19"
tui-textarea = "0.2"
qrcode-generator = "4"
