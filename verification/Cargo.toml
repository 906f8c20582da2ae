[package]
name = "lndk_offers"
version = "0.1.0"
edition = "2021"
publish = false

[dependencies]
bitcoin = "*"
futures = "*"
lightning = "*"
log = "*"
tokio = { version = "*", features = ["time", "sync", "rt", "macros"] }
tonic_lnd = "*"
