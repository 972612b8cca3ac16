[package]
name = "tan-lsp"
version = "0.1.0"
edition = "2021"
publish = false

[dependencies]
anyhow = "=1.0.104"
lsp-server = "=0.7.9"
lsp-types = "=0.94.1"
serde = { version = "=1.0.229", features = ["derive"] }
serde_json = "=1.0.154"
tan = "=0.5.0"
tracing = "=0.1.44"
tracing-subscriber = "=0.3.23"
