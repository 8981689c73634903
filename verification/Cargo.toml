[package]
name = "fast_search"
version = "0.1.0"
edition = "2021"
publish = false

[dependencies]
tantivy = "=0.13.3"
serde_json = "=1.0.154"
serde = { version = "=1.0.229", features = ["derive"] }
whatlang = "=0.11.1"
csv = "=1.4.0"
actix-web = "=4.18.1"
actix-cors = "=0.7.2"
