[package]
name = "fj-issue"
version = "0.1.0"
edition = "2021"
publish = false

[dependencies]
url = "=2.5.8"
forgejo-api = "=0.12.0"
tokio = { version = "=1.54.1", features = ["rt", "macros", "time"] }
clap = { version = "=4.6.7", features = ["derive"] }
serde = { version = "=1.0.229", features = ["derive"] }
serde_json = "=1.0.154"
thiserror = "=2.0.21"
time = { version = "=0.3.55", features = ["formatting"] }
libc = "=0.2.191"
