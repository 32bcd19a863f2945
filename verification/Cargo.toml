[package]
name = "lemmy_api"
version = "0.1.0"
edition = "2021"
publish = false

[dependencies]
serde_json = "1"
serde_html_form = "0.2"
serde = { version = "1", features = ["derive"] }
regex = "1"
toml = "0.7"
anyhow = "1"
reqwest = { version = "0.11", default-features = false }
gloo-net = { version = "0.2", default-features = false, features = ["http"] }
web-sys = { version = "0.3", features = ["AbortController", "AbortSignal"] }
leptos = "0.4"
