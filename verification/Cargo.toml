[package]
name = "query_params"
version = "0.1.0"
edition = "2021"
publish = false

[dependencies]
form_urlencoded = "1"
serde = "1"
thiserror = "1"
