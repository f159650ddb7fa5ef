[package]
name = "pulsar"
version = "0.1.0"
edition = "2021"
publish = false

[dependencies]
url = "2"
quick-xml = { version = "*", features = ["serialize"] }
serde = { version = "1", features = ["derive"] }
serde_json = "1"
chrono = "0.4"
zip = { version = "*", default-features = false, features = ["deflate"] }
sevenz-rust = "*"
unrar = "*"
reqwest = { version = "*", default-features = false, features = ["rustls-tls"] }
tokio = { version = "1", features = ["rt", "rt-multi-thread"] }
