[package]
name = "smithy_retry"
version = "0.1.0"
edition = "2021"
publish = false

[dependencies]
aws-smithy-async = "0.55.3"
aws-smithy-http = "0.55.3"
aws-smithy-types = "0.55.3"
fastrand = "1.9"
tower = { version = "0.4", features = ["retry"] }
tracing = "0.1"
