[package]
name = "infinitecloud"
version = "0.1.0"
edition = "2021"
publish = false

[dependencies]
mime2ext = "=0.1.54"
candid = "=0.10.37"
frankenstein = "=0.52.1"
ic-cdk = "=0.20.3"
ic-stable-structures = "=0.7.2"
serde = "=1.0.229"
serde_json = "=1.0.151"
