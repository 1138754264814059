[package]
name = "td"
version = "0.1.0"
edition = "2021"
publish = false

[dependencies]
chrono = "0.4"
owo-colors = "4"
keyring = { version = "3", features = ["linux-native"] }
serde = { version = "1", features = ["derive"] }
serde_json = "1"
toml = "0.8"
directories = "5"
clap = { version = "4", features = ["derive", "env"] }
clap_complete = "4"
dialoguer = "0.11"
tokio = { version = "1", features = ["rt-multi-thread", "macros", "process"] }
uuid = { version = "1", features = ["v4"] }
thiserror = "1"
