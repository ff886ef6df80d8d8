[package]
name = "dsvideo_passthrough"
version = "0.1.0"
edition = "2021"
publish = false

[dependencies]
axum = "0.8"
clap = { version = "4", features = ["derive"] }
flate2 = "1"
form_urlencoded = "1"
futures-util = "0.3"
reqwest = { version = "0.12", default-features = false, features = ["stream"] }
rpassword = "7"
serde_json = "1"
tokio = { version = "1", features = ["macros", "net", "rt-multi-thread"] }
