[package]
name = "sorm_flow"
version = "0.1.0"
edition = "2021"
publish = false

[dependencies]
serde = { version = "1", features = ["derive"] }
async-trait = "0.1"
syn = "2"
quote = "1"
proc-macro2 = "1"
