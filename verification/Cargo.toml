[package]
name = "step_history"
version = "0.1.0"
edition = "2021"
publish = false

[dependencies]
motoko = "=0.0.32"
lalrpop-util = { version = "=0.19.12", features = ["lexer"] }
serde = { version = "=1.0.229", features = ["derive"] }
serde_json = "=1.0.151"
