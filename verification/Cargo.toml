[package]
name = "stock_engine"
version = "0.1.0"
edition = "2021"
publish = false

[dependencies]
eyre = "0.6"
once_cell = "1"
sea-orm = { version = "0.12", default-features = false, features = ["macros", "with-chrono", "with-json"] }
serde = { version = "1", features = ["derive"] }
serde_json = "1"
tokio = { version = "1", features = ["time", "process", "rt"] }
