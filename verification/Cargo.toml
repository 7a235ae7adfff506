[package]
name = "boxer"
version = "0.1.0"
edition = "2021"
publish = false

[dependencies]
colored = "=3.1.1"
git2 = { version = "=0.21.0", default-features = false }
once_cell = "=1.21.4"
reqwest = { version = "=0.13.5", default-features = false, features = ["blocking", "json"] }
serde = { version = "=1.0.229", features = ["derive"] }
toml = "=1.1.7"
tracing = "=0.1.44"
tracing-core = "=0.1.36"
tracing-subscriber = { version = "=0.3.23", features = ["fmt"] }
