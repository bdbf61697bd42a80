[package]
name = "chirpr"
version = "0.1.0"
edition = "2021"
publish = false

[dependencies]
async-std = { version = "1", features = ["attributes"] }
serde = { version = "1", features = ["derive"] }
sqlx = { version = "0.5", default-features = false, features = ["macros", "runtime-async-std-rustls", "sqlite"] }
thiserror = "1"
tide = { version = "0.16", default-features = false, features = ["h1-server"] }
uuid = { version = "0.8", features = ["v4"] }
