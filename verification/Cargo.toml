[package]
name = "ffetch"
version = "0.1.0"
edition = "2021"
publish = false

[dependencies]
directories = "6"
serde = { version = "1", features = ["derive"] }
toml = "0.8"
clap = { version = "4", features = ["derive"] }
console = "0.15"
thiserror = "2"
tracing = "0.1"
tracing-subscriber = "0.3"
