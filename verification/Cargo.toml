[package]
name = "exec_governor"
version = "0.1.0"
edition = "2021"
publish = false

[dependencies]
lz4_flex = "*"
rmp-serde = "*"
serde = { version = "*", features = ["derive"] }
