[package]
name = "s3_browser_tool"
version = "0.1.0"
edition = "2021"
publish = false

[dependencies]
aws-config = "1.13.0"
aws-sdk-s3 = "1.157.0"
tokio = { version = "1.54.1", features = ["full"] }
clap = { version = "4.6.7", features = ["derive", "env"] }
dotenvy = "0.15.7"
tracing-subscriber = "0.3.23"
