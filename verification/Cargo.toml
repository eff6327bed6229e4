[package]
name = "redox"
version = "0.1.0"
edition = "2021"
publish = false

[dependencies]
termion = "*"
tokio = { version = "1", features = ["macros", "rt-multi-thread"] }
sqlx = { version = "0.8", default-features = false, features = ["sqlite", "runtime-tokio", "migrate"] }
clipboard = "0.5"

[dev-dependencies]
regex = "1"
