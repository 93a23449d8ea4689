[package]
name = "ory_auth"
version = "0.1.0"
edition = "2021"
publish = false

[dependencies]
url = "2"
uuid = { version = "1", features = ["v4"] }
serde = { version = "1", features = ["derive"] }
tracing = "0.1"
leptos = { version = "0.6", features = ["ssr"] }
leptos_meta = { version = "0.6", features = ["ssr"] }
leptos_router = { version = "0.6", features = ["ssr"] }
leptos_axum = "0.6"
axum-extra = { version = "0.9", features = ["cookie"] }
reqwest = { version = "0.11", default-features = false, features = ["json", "cookies"] }
sqlx = { version = "0.7", default-features = false, features = ["sqlite", "runtime-tokio"] }
ory-keto-client = "*"
ory-kratos-client = "*"
