[package]
name = "clipboard_history"
version = "0.1.0"
edition = "2021"
publish = false

[dependencies]
emojis = "0.6"
dirs-next = "2"
serde = { version = "1", features = ["derive"] }
serde_json = "1"
fs2 = "0.4"
once_cell = "1"
rust-embed = "8"
i18n-embed = { version = "0.15", features = ["fluent-system", "desktop-requester"] }
i18n-embed-fl = "0.9"
