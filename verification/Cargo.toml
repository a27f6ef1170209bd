[package]
name = "governed_token_wrapper"
version = "0.1.0"
edition = "2021"
publish = false

[dependencies]
ink_env = "=3.3.1"
ink_lang = "=3.3.1"
ink_prelude = "=3.3.1"
ink_storage = "=3.3.1"
parity-scale-codec = { version = "=3.7.5", default-features = false, features = ["derive"] }
scale-info = { version = "=2.11.6", default-features = false, features = ["derive"] }
