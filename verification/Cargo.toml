[package]
name = "bankaccount"
version = "0.1.0"
edition = "2021"
publish = false

[dependencies]
money2 = "*"
validator = "*"
cqrs-es = "*"
async-trait = "*"
serde = { version = "*", features = ["derive"] }
serde_json = "*"
tokio = { version = "*", features = ["rt", "macros"] }
