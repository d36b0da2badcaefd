[package]
name = "wipple"
version = "0.1.0"
edition = "2021"
publish = false

[dependencies]
bigdecimal = "0.2"
uuid = { version = "0.8", features = ["v4"] }
structopt = "0.3"
colored = "2"
