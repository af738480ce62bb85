[package]
name = "fame"
version = "0.3.9"
edition = "2021"
publish = false

[dependencies]
anyhow = "1"
axum = "=0.8.9"
cedar-policy = "=4.14.1"
figment = { version = "=0.10.19", features = ["toml", "env"] }
futures = "0.3"
pep = { version = "=0.5.17", features = ["cedar", "oidc-resource-server"] }
reqwest = { version = "=0.12.28", default-features = false, features = ["json", "rustls-tls-webpki-roots"] }
serde = { version = "1", features = ["derive"] }
serde_json = "1"
sha2 = "=0.10.9"
thiserror = "2"
tokio = { version = "1", features = ["rt-multi-thread", "macros", "net"] }
toml = "=0.8.23"
tower = "=0.5.3"
tower-http = { version = "=0.6.11", features = ["cors"] }
tracing = "0.1"
tracing-subscriber = { version = "0.3", features = ["env-filter"] }
utoipa = "=5.5.0"
utoipa-swagger-ui = { version = "=9.0.2", features = ["axum", "vendored"] }
