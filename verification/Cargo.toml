[package]
name = "wikicache"
version = "0.1.0"
edition = "2021"
publish = false

[dependencies]
select = "0.6"
axum = "*"
http = "*"
reqwest = { version = "*", default-features = false, features = ["rustls-tls"] }
serde = { version = "*", features = ["derive"] }
tokio = { version = "*", features = ["macros", "rt-multi-thread", "net"] }
tower-http = { version = "*", features = ["cors"] }
