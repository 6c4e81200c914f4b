[package]
name = "streamgui"
version = "0.1.0"
edition = "2021"
publish = false

[dependencies]
tokio = { version = "*", features = ["full"] }
hyper = { version = "*", features = ["http1", "server"] }
hyper-util = { version = "*", features = ["tokio"] }
http-body-util = "*"
log = "*"
env_logger = "*"
reqwest = "*"
twitch_api = { version = "*", features = ["helix", "reqwest", "client"] }
serde = { version = "*", features = ["derive"] }
serde_derive = "*"
toml = "*"
directories-next = "*"
open = "*"
url = "*"
