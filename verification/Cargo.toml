[package]
name = "pkcs1"
version = "0.1.0"
edition = "2021"
publish = false

[dependencies]
der = { version = "0.7", features = ["alloc"] }
pem-rfc7468 = { version = "0.7", features = ["alloc"] }
