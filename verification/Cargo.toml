[package]
name = "mtl-vision"
version = "0.1.0"
edition = "2021"
publish = false

[dependencies]
axum = { version = "0.8", features = ["multipart"] }
base64 = "0.22"
dotenvy = "0.15"
image = { version = "0.25", default-features = false, features = ["png"] }
pdfium-render = "0.8"
reqwest = { version = "0.12", default-features = false, features = ["json"] }
serde = { version = "1", features = ["derive"] }
tokio = { version = "1", features = ["full"] }
tower-http = { version = "0.6", features = ["cors", "fs", "trace"] }
tracing = "0.1"
tracing-subscriber = { version = "0.3", features = ["env-filter"] }
utoipa = "5"
utoipa-swagger-ui = { version = "9", features = ["axum", "vendored"] }
