[package]
name = "aws_instance"
version = "0.1.0"
edition = "2021"
publish = false

[dependencies]
chrono = "0.4"
clap = { version = "4", features = ["derive"] }
clap_complete = "4"
dirs = "5"
env_logger = "0.10"
regex = "1"
rusoto_core = "0.48"
rusoto_credential = "0.48"
rusoto_ec2 = "0.48"
serde = { version = "1", features = ["derive"] }
serde_json = "1"
serde-xml-rs = "0.6"
snafu = "0.7"
tokio = { version = "1", features = ["macros", "rt-multi-thread"] }
