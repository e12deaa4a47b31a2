[package]
name = "light_sensor"
version = "0.1.0"
edition = "2021"

[dependencies]
byteorder = "1"
embedded-hal = "1"

[dev-dependencies]
embedded-hal-mock = { version = "0.11", default-features = false, features = ["eh1"] }
