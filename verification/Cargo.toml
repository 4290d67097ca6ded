[package]
name = "video_digest"
version = "0.1.0"
edition = "2021"
publish = false

[dependencies]
epub-builder = "=0.8.3"
pulldown-cmark = "=0.13.4"
serde_json = "*"
serde = { version = "*", features = ["derive"] }
reqwest = { version = "*", default-features = false, features = ["json", "rustls-tls"] }
tokio = { version = "*", features = ["macros", "rt-multi-thread"] }
anyhow = "*"
dotenv = "*"
chrono = "*"
lettre = { version = "*", default-features = false, features = ["smtp-transport", "builder", "hostname", "tokio1", "tokio1-rustls-tls"] }
