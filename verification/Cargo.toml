[package]
name = "record"
version = "0.1.0"
edition = "2021"
publish = false

[dependencies]
secure-string = "=0.3.0"
serde = { version = "=1.0.229", features = ["derive"] }
serde_repr = "=0.1.21"
smol = "=2.0.2"
futures = "=0.3.34"
surf = { version = "=2.3.2", default-features = false, features = ["h1-client-rustls"] }
async-trait = "=0.1.92"
strum = "*"
