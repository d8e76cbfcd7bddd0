[package]
name = "deque_loader"
version = "0.1.0"
edition = "2021"
publish = false

[dependencies]
async-trait = "0.1"
diesel-connection = "*"
flurry = "*"
rayon = "1"
serde = { version = "1", features = ["derive"] }
tokio = { version = "1", features = ["rt", "rt-multi-thread", "sync"] }
