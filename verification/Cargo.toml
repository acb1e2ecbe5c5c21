[package]
name = "retroqwest"
version = "0.1.0"
edition = "2021"
publish = false

[dependencies]
reqwest = { version = "0.11", default-features = false, features = ["json"] }
serde = "1"
thiserror = "1"
syn = { version = "1", features = ["full"] }
quote = "1"
proc-macro2 = "1"
async-trait = "0.1"
