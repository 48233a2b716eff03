[package]
name = "dd_bot"
version = "0.1.0"
edition = "2021"
publish = false

[dependencies]
rand = "=0.8.5"
enigo = "0.1"
reqwest = { version = "0.11", default-features = false, features = ["blocking"] }
rusqlite = { version = "0.31", features = ["bundled"] }
tokio = { version = "1", default-features = false, features = ["rt-multi-thread"] }
