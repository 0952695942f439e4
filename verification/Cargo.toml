[package]
name = "oidc_graphql_client"
version = "0.1.0"
edition = "2021"
publish = false

[dependencies]
openidconnect = "3"
reqwest = { version = "0.11", default-features = false, features = ["blocking", "json", "rustls-tls"] }
graphql_client = { version = "0.10", features = ["reqwest-blocking"] }
serde = { version = "1", features = ["derive"] }
serde_json = "1"
