[package]
name = "astro_agent"
version = "0.1.0"
edition = "2021"
publish = false

[dependencies]
chrono = "0.4"
chrono-tz = "0.10"
rand = "0.8"
reqwest = { version = "0.12", default-features = false, features = ["json", "rustls-tls"] }
tokio = { version = "1", features = ["macros", "rt-multi-thread", "time"] }
serde = { version = "1", features = ["derive"] }
console = "0.15"
dialoguer = "0.11"
rusqlite = { version = "0.32", features = ["bundled"] }
tzf-rs = "0.4"
once_cell = "1"
