[package]
name = "nat_greeter"
version = "0.1.0"
edition = "2021"
publish = false

[dependencies]
anyhow = "1"
argh = "0.1"
h3-masque = "*"
http = "=1.5.0"
prost = "=0.14.4"
rand = "=0.8.8"
schannel = "0.1"
tempfile = "3"
tokio = { version = "1", features = ["full"] }
tokio-util = "0.7"
tonic = "=0.14.9"
tonic-prost = "0.14"
tonic-h3 = "=0.0.6"
tracing = "0.1"
tracing-subscriber = { version = "0.3", features = ["env-filter"] }
