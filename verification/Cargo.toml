[package]
name = "cloudstate"
version = "0.1.0"
edition = "2021"
publish = false

[dependencies]
actix = "=0.13.5"
futures-util = "=0.3.34"
http = "=1.5.0"
log = "=0.4.34"
log4rs = "=1.4.0"
prost = "=0.13.5"
rustc_version = "=0.4.1"
tokio = { version = "=1.54.1", features = ["rt-multi-thread", "net", "time"] }
tonic = "=0.12.3"
tower = "=0.4.13"
