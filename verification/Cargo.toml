[package]
name = "tart_oauth"
version = "0.1.0"
edition = "2021"
publish = false

[dependencies]
mlua = { version = "=0.12.2", features = ["lua54", "vendored"] }
rand = "=0.8.8"
rouille = "=3.6.2"
serde = { version = "=1.0.229", features = ["derive"] }
tokio = { version = "=1.54.1", features = ["macros", "rt-multi-thread"] }
tracing = "=0.1.44"
tracing-subscriber = "=0.3.23"
twitch_api = { version = "=0.8.0", features = ["helix", "ureq"] }
twitch_oauth2 = { version = "=0.17.1", features = ["client"] }
twitch_types = { version = "=0.4.10", features = ["points", "user"] }
ureq = { version = "=2.12.1", features = ["json"] }
url = "=2.5.8"
webbrowser = "=1.2.5"
xflags = "=0.3.2"

[dev-dependencies]
serde_json = "=1.0.154"
