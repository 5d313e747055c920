[package]
name = "wazzup"
version = "0.1.0"
edition = "2021"
publish = false

[dependencies]
anyhow = "*"
axum = { version = "*", features = ["ws"] }
cargo-lock = "*"
clap = { version = "*", features = ["derive"] }
clap_complete = "*"
clap_mangen = "*"
color-eyre = "*"
directories = "*"
flume = "*"
ignore = "*"
minify-html = "*"
minify-js = "*"
notify = "*"
once_cell = "*"
semver = "*"
serde = { version = "*", features = ["derive"] }
serde_json = "*"
serde_path_to_error = "*"
tabled = "*"
tempfile = "*"
tokio = { version = "*", features = ["full"] }
tokio-shutdown = "*"
toml = "*"
tower-http = { version = "*", features = ["fs"] }
tracing = "*"
tracing-subscriber = "*"
which = "*"
yansi = "*"
