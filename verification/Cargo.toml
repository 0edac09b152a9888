[package]
name = "tunebar"
version = "0.1.0"
edition = "2021"
publish = false

[dependencies]
log = "0.4"
souvlaki = { version = "=0.8.3", default-features = false, features = ["use_zbus"] }
