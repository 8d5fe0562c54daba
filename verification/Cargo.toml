[package]
name = "search_core"
version = "0.1.0"
edition = "2021"
publish = false

[dependencies]
url = "2"
serde = "1"
serde_derive = "1"
serde_json = "1"
