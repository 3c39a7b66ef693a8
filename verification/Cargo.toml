[package]
name = "todo_service"
version = "0.1.0"
edition = "2021"
publish = false

[dependencies]
rocket = { version = "*", features = ["json"] }
rusqlite = { version = "*", features = ["bundled"] }
serde = { version = "*", features = ["derive"] }
