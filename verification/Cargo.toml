[package]
name = "axyl_tickets"
version = "0.1.0"
edition = "2021"
publish = false

[dependencies]
serenity = "0.12"
sqlx = { version = "0.8", default-features = false, features = ["runtime-tokio", "sqlite"] }
tokio = { version = "1", features = ["macros", "rt-multi-thread", "time"] }
