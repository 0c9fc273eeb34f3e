[package]
name = "opentelemetry-datadog"
version = "0.1.0"
edition = "2021"
publish = false

[dependencies]
opentelemetry = { version = "*", default-features = false, features = ["trace"] }
