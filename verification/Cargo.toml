[package]
name = "bbs_core"
version = "0.1.0"
edition = "2021"
publish = false

[dependencies]
actix-web = { version = "=4.15.0", default-features = false, features = ["macros"] }
async-trait = "=0.1.92"
chrono = { version = "=0.4.45", default-features = false, features = ["clock"] }
dotenv = "=0.15.0"
futures = "0.3"
log = "=0.4.34"
sea-orm = { version = "=1.1.20", default-features = false, features = ["sqlx-mysql", "runtime-tokio-rustls", "macros", "with-chrono"] }
serde = { version = "=1.0.229", features = ["derive"] }
tracing = "=0.1.44"
tracing-subscriber = "=0.3.23"
