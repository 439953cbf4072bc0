[package]
name = "select_bot"
version = "0.1.0"
edition = "2021"
publish = false

[dependencies]
tokio = { version = "1", features = ["macros", "rt-multi-thread"] }
twilight-gateway = "0.16"
twilight-http = "0.16"
twilight-model = "0.16"
twilight-util = { version = "0.16", features = ["builder"] }
