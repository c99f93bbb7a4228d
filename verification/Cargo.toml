[package]
name = "domain_service"
version = "0.1.0"
edition = "2021"
publish = false

[dependencies]
ink = { version = "5", default-features = false, features = ["std"] }
parity-scale-codec = { version = "3", default-features = false, features = ["std", "derive"] }
scale-info = { version = "2", default-features = false, features = ["std", "derive"] }
