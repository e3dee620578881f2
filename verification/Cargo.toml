[package]
name = "nnue_convert"
version = "0.1.0"
edition = "2021"
publish = false

[dependencies]
cbnf-rs = "=0.1.0"
clap = { version = "=4.6.7", features = ["derive"] }
serde = { version = "=1.0.229", features = ["derive"] }
serde_json = { version = "=1.0.154", features = ["preserve_order"] }
