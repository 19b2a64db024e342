[package]
name = "storage_client"
version = "0.1.0"
edition = "2021"
publish = false

[dependencies]
aws-sdk-s3 = { version = "=1.152.0", default-features = false }
aws-smithy-runtime-api = "=1.19.0"
aws-smithy-types = "=1.8.1"
google-cloud-storage = "=0.24.0"
