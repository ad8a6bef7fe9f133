[package]
name = "giggles"
version = "0.1.0"
edition = "2021"
publish = false

[dependencies]
anstream = "=0.6.21"
anstyle = "=1.0.14"
anyhow = "=1.0.104"
bytes = "=1.12.1"
clap = { version = "=4.6.7", features = ["derive"] }
dirs = "=5.0.1"
futures-util = "=0.3.34"
# The random source of uuid, called directly so that a failure to draw the
# bytes of an upload request id is an error rather than a panic.
getrandom = "=0.4.3"
indicatif = "=0.17.11"
open = "=5.4.5"
reqwest = { version = "=0.12.28", default-features = false, features = ["json", "stream", "rustls-tls"] }
serde = { version = "=1.0.229", features = ["derive"] }
serde_json = "=1.0.154"
tokio = { version = "=1.54.1", features = ["full"] }
toml = "=0.8.23"
url = "=2.5.8"
uuid = { version = "=1.29.0", features = ["v4"] }
