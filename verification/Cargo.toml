[package]
name = "hackceler8"
version = "0.1.0"
edition = "2021"
publish = false

[dependencies]
heapless = "0.8"
log = "0.4"
tiled = "*"
handlebars = "*"
serde = { version = "1", features = ["derive"] }
serde_derive = "1"
