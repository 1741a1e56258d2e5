[package]
name = "spinoso"
version = "0.1.0"
edition = "2021"
publish = false

[dependencies]
bstr = { version = "=1.13.1", default-features = false }
tz-rs = "=0.6.14"
tzdb = "=0.6.1"
