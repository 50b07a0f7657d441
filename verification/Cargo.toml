[package]
name = "ibis"
version = "0.1.0"
edition = "2021"
publish = false

[dependencies]
diffy = "*"
chrono = "0.4"
url = "2"
serde = { version = "1", features = ["derive"] }
