[package]
name = "baiken"
version = "0.1.0"
edition = "2021"
publish = false

[dependencies]
regex = "1"
md-5 = "0.10"
poise = "0.6"
serde = { version = "1", features = ["derive"] }
serde_json = "1"
tokio = { version = "1", features = ["macros", "rt-multi-thread", "time"] }
colored = "2"
dotenv = "0.15"
futures = "0.3"
tracing = "0.1"
ureq = "2"
thiserror = "1"

[dev-dependencies]
tempfile = "3"
