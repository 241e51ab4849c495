[package]
name = "factura_pdf"
version = "0.1.0"
edition = "2021"
publish = false

[dependencies]
qrcodegen = "1.8"
serde = { version = "1", features = ["derive"] }
serde_json = "1"
printpdf = "0.7"
image = { version = "0.25", default-features = false, features = ["jpeg", "png"] }
lettre = { version = "0.11", default-features = false, features = ["builder", "smtp-transport", "rustls-tls", "tokio1", "tokio1-rustls-tls"] }
axum = "0.7"
tokio = { version = "1", features = ["full"] }
tracing = "0.1"
tracing-subscriber = "0.3"
