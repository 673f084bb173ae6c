[package]
name = "bvm_lang"
version = "0.1.0"
edition = "2021"
publish = false

[dependencies]
value-lang = { version = "1", features = ["serde"] }
serde = { version = "1", features = ["derive"] }

[dev-dependencies]
serde_json = "1"
