[package]
name = "ghdash"
version = "0.1.0"
edition = "2021"
publish = false

[dependencies]
ansi_term = "0.12"
term_grid = "0.2"
clap = { version = "4", features = ["derive"] }
confy = "*"
serde = "*"
serde_derive = "*"
octorust = "*"
tokio = { version = "1", features = ["macros", "rt-multi-thread"] }
bollard = "*"
log = "*"
opentelemetry = "*"
opentelemetry_sdk = "*"
opentelemetry-zipkin = "*"
tracing = "*"
tracing-opentelemetry = "*"
tracing-subscriber = { version = "*", features = ["env-filter"] }
