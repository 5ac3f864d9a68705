[package]
name = "otp_export"
version = "0.1.0"
edition = "2021"
publish = false

[dependencies]
data-encoding = "*"
urlencoding = "*"
serde_json = "*"
quircs = "*"
image = "*"
clap = { version = "*", features = ["derive"] }
thiserror = "*"
