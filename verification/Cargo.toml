[package]
name = "shared_clipboard"
version = "0.1.0"
edition = "2021"
publish = false

[dependencies]
actix-web = "*"
actix-multipart = "*"
actix-rt = "*"
futures = "*"
handlebars = "*"
serde_json = "*"
tokio = { version = "*", default-features = false, features = ["sync"] }
