[package]
name = "zero2prod"
version = "0.1.0"
edition = "2021"
publish = false

[dependencies]
validator = "*"
unicode-segmentation = "1"
rand = "0.8"
uuid = { version = "1", features = ["v4"] }
chrono = { version = "0.4", default-features = false, features = ["clock"] }
actix-web = "4"
serde = { version = "1", features = ["derive"] }
sqlx = { version = "0.8", default-features = false, features = ["postgres", "runtime-tokio", "chrono", "uuid"] }
reqwest = { version = "0.12", default-features = false, features = ["json"] }
secrecy = "0.8"
tokio = { version = "1", features = ["macros", "rt-multi-thread"] }
