[package]
name = "vts_lint"
version = "0.1.0"
edition = "2021"
publish = false

[dependencies]
vts_parsing = "*"
serde = { version = "*", features = ["derive"] }
serde_json = "*"
proc-macro2 = "*"
quote = "*"
thiserror = "*"
