[package]
name = "progress_log"
version = "0.1.0"
edition = "2021"
publish = false

[dependencies]
actix-rt = "*"
actix-web = { version = "*", default-features = false, features = ["macros"] }
askama = "*"
chrono = { version = "*", default-features = false, features = ["clock"] }
r2d2 = "*"
r2d2_sqlite = "*"
rusqlite = "*"
serde = { version = "*", features = ["derive"] }
thiserror = "*"
