[package]
name = "uquest"
version = "0.1.0"
edition = "2021"
publish = false

[dependencies]
async-openai = "0.26"
env_logger = { version = "0.11", default-features = false }
iced = { version = "0.13", default-features = false, features = ["tokio"] }
iced_aw = { version = "0.11", default-features = false, features = ["spinner"] }
log = "0.4"
schemars = "0.8"
serde = { version = "1", features = ["derive"] }
serde_json = "1"
tokio = { version = "1", features = ["macros", "rt-multi-thread", "sync", "time"] }
