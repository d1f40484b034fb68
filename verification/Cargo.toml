[package]
name = "keycloak_builder"
version = "0.1.0"
edition = "2021"
publish = false

[dependencies]
anyhow = "1"
oauth2 = { version = "4", default-features = false, features = ["reqwest"] }
tokio = { version = "1", features = ["macros", "rt-multi-thread"] }
