[package]
name = "file_storage"
version = "0.1.0"
edition = "2021"
publish = false

[dependencies]
aws-config = "*"
aws-sdk-s3 = "*"
aws-smithy-types = "*"
tokio = { version = "*", features = ["rt-multi-thread"] }
