[package]
name = "doodle_game"
version = "0.1.0"
edition = "2021"
publish = false

[dependencies]
linera-base = "=0.15.23"
async-graphql = { version = "=7.0.17", default-features = false }
serde = { version = "=1.0.229", features = ["derive"] }
shakmaty = "0.29"
log = "=0.4.34"
tokio = { version = "=1.54.1", features = ["sync"] }
