[package]
name = "sicd_rs"
version = "0.1.0"
edition = "2021"
publish = false

[dependencies]
quick-xml = { version = "*", features = ["serialize"] }
serde = "*"
nitf-rs = "*"
ndarray = "*"
num-complex = "*"
