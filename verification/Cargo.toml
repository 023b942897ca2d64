[package]
name = "autoplay"
version = "0.1.0"
edition = "2021"
publish = false

[dependencies]
eyre = "=0.6.14"
serde = "=1.0.229"
serde_derive = "=1.0.229"
structopt = "=0.3.26"
tokio = { version = "0.2", features = ["macros", "rt-threaded"] }
toml = "=0.5.11"
tracing = "=0.1.44"
tracing-subscriber = "=0.3.23"
twitchchat = { version = "=0.14.8", features = ["async", "serde", "tokio", "tokio-util"] }
