[package]
name = "bridge_core"
version = "0.1.0"
edition = "2021"
publish = false

[dependencies]
sha2 = "*"
hex = "*"
serde = { version = "*", features = ["derive"] }
serde_json = "*"
toml = "*"
bincode = "1"
anyhow = "*"
thiserror = "*"
tracing = "*"
tracing-subscriber = "*"
clap = { version = "*", features = ["derive"] }
dotenv = "*"
tokio = { version = "*", features = ["macros", "rt-multi-thread", "time"] }
reqwest = { version = "*", default-features = false, features = ["json"] }
