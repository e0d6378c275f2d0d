[package]
name = "eal_leptos_web"
version = "0.1.0"
edition = "2021"
publish = false

[dependencies]
anyhow = "1"
axum = "*"
chrono = { version = "0.4", features = ["serde"] }
dotenvy = "*"
leptos = { version = "*", features = ["ssr"] }
serde = { version = "1", features = ["derive"] }
serde_json = "1"
tokio = { version = "1", features = ["full"] }
tower-http = { version = "*", features = ["trace"] }
tracing = "*"
tracing-subscriber = { version = "*", features = ["env-filter", "fmt"] }
uuid = { version = "1", features = ["serde", "v4"] }
reqwest = { version = "*", default-features = false, features = ["json"] }
