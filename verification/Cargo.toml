[package]
name = "philipshue"
version = "0.1.0"
edition = "2021"
publish = false

[dependencies]
async-trait = "0.1"
reqwest = "0.11"
serde_json = "1"
thiserror = "1"
