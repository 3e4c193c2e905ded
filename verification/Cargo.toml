[package]
name = "jen"
version = "1.0.0"
edition = "2021"
publish = false

[dependencies]
bson = "=3.1.0"
clap = "=4.6.7"
fake = "=5.1.0"
nanoid = "=0.5.0"
rand = "=0.10.3"
serde = "=1.0.229"
serde_json = "=1.0.151"
tera = "=1.20.1"
uuid = { version = "=1.27.0", features = ["v4"] }
