[package]
name = "log4rs_email"
version = "0.1.0"
edition = "2021"
publish = false

[dependencies]
lettre = "0.9"
lettre_email = "0.9"
log = "0.4"
log4rs = "0.13"
serde = { version = "1", features = ["derive"] }
