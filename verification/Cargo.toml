[package]
name = "tls_trust"
version = "0.1.0"
edition = "2021"
publish = false

[dependencies]
webpki = "=0.21.4"
sct = "=0.6.1"

[dev-dependencies]
rcgen = "=0.14.10"
ring = "0.16"
