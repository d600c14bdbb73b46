[package]
name = "cynthiaweb"
version = "0.1.0"
edition = "2021"
publish = false

[dependencies]
markdown = "=1.0.0"
regex = "=1.13.1"
strip-ansi-escapes = "=0.2.1"
urlencoding = "=2.1.3"
serde = { version = "=1.0.229", features = ["derive"] }
serde_json = "=1.0.154"
serde_yaml = "=0.9.34"
toml = "=0.8.23"
jsonc-parser = { version = "=0.34.0", features = ["serde"] }
serde_dhall = "=0.12.1"
actix-web = "=4.18.1"
tokio = { version = "=1.54.1", features = ["full"] }
futures = "=0.3.34"
log = "=0.4.35"
simplelog = "=0.12.2"
termsize = "=0.1.9"
time = { version = "=0.3.55", features = ["formatting", "parsing"] }
chrono = "=0.4.45"
handlebars = "=6.4.4"
reqwest = { version = "=0.12.28", default-features = false }
rand = "=0.8.8"
interactive_process = "=0.1.3"
inquire = "=0.7.5"
normalize-path = "=0.2.2"
tar = "=0.4.46"
