[package]
name = "star_randsrv"
version = "0.1.0"
edition = "2021"
publish = false

[dependencies]
ppoprf = "=0.3.1"
base64 = "=0.22.1"
axum = "=0.6.20"
clap = { version = "4", features = ["derive"] }
serde = { version = "*", features = ["derive"] }
thiserror = "*"
time = { version = "0.3", features = ["formatting"] }
tokio = { version = "1", features = ["macros", "rt-multi-thread", "time", "net"] }
tower-http = { version = "0.4", features = ["trace"] }
tracing = "*"
tracing-subscriber = "*"
