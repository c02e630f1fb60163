[package]
name = "pgwire_metrics"
version = "0.1.0"
edition = "2021"
publish = false

[dependencies]
prometheus = { version = "=0.13.4", default-features = false }
