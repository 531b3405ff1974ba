[package]
name = "localization"
version = "0.1.0"
edition = "2021"
publish = false

[dependencies]
fluent = "=0.16.1"
fluent-fallback = "=0.7.0"
thin-vec = "=0.2.21"
unic-langid = "=0.9.6"

[dev-dependencies]
futures = "=0.3.34"
rustc-hash = "=1.1.0"
