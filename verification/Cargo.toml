[package]
name = "actix_error_core"
version = "0.1.0"
edition = "2021"
publish = false

[dependencies]
actix-web = { version = "4", default-features = false }
thiserror = "1"
