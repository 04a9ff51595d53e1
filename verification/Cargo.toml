[package]
name = "miniblog"
version = "0.1.0"
edition = "2021"
publish = false

[dependencies]
uuid = { version = "*", features = ["v4"] }
chrono = "*"
axum = { version = "*", features = ["multipart"] }
tokio = { version = "*", features = ["rt-multi-thread", "macros", "net", "fs"] }
sqlx = { version = "*", default-features = false, features = ["postgres", "runtime-tokio", "chrono"] }
reqwest = { version = "*", default-features = false }
askama = "*"
tower-http = { version = "*", features = ["fs"] }
dotenvy = "*"
thiserror = "*"
