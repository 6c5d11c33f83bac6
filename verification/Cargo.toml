[package]
name = "snapmaker_proxy"
version = "0.1.0"
edition = "2021"
publish = false

[dependencies]
serde_json = "=1.0.151"
chrono = { version = "=0.4.45", default-features = false, features = ["clock"] }
serde = { version = "=1.0.229", features = ["derive"] }
actix-web = { version = "=4.15.0", default-features = false, features = ["macros"] }
actix-files = "=0.7.0"
actix-multipart = "=0.8.5"
reqwest = { version = "=0.13.5", default-features = false, features = ["multipart", "form"] }
tokio = { version = "=1.53.2", features = ["macros", "rt-multi-thread", "sync", "time"] }
tera = { version = "=2.4.0", default-features = false, features = ["glob_fs"] }
env_logger = "=0.11.11"
log = "=0.4.34"
anyhow = "=1.0.104"
