[package]
name = "generate_reflection"
version = "0.1.0"
edition = "2021"
publish = false

[dependencies]
rbx_dom_weak = "1"
rbx_reflection = "4"
serde = { version = "1", features = ["derive"] }
serde_derive = "1"
serde_json = "1"
