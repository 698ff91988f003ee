[package]
name = "lsp_session"
version = "0.1.0"
edition = "2021"
publish = false

[dependencies]
anyhow = "*"
dirs = "*"
git2 = "*"
lsp-types = "*"
serde = { version = "*", features = ["derive"] }
serde_json = "*"
