[package]
name = "pw"
version = "0.1.0"
edition = "2021"
publish = false

[dependencies]
rusqlite = { version = "*", features = ["bundled"] }
docopt = "*"
serde = { version = "*", features = ["derive"] }
rustyline = "*"
clipboard = "*"
