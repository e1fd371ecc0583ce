[package]
name = "polygon_io_client_rust"
version = "0.1.0"
edition = "2021"
publish = false

[dependencies]
time = "0.3"
serde = { version = "1", features = ["derive"] }
reqwest = { version = "0.11", features = ["json"] }
