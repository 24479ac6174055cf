[package]
name = "bacchus"
version = "0.1.0"
edition = "2021"
publish = false

[dependencies]
dotenv = "*"
futures = "*"
poise = "*"
r2d2 = "*"
r2d2_sqlite = "*"
rusqlite = { version = "*", features = ["bundled"] }
tokio = { version = "*", features = ["macros", "rt-multi-thread"] }
