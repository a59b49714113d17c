[package]
name = "session_capture"
version = "0.1.0"
edition = "2021"
publish = false

[dependencies]
base64 = "*"
thirtyfour = "*"
tokio = { version = "*", features = ["macros", "rt-multi-thread"] }
