[package]
name = "exonum_lvm"
version = "0.1.0"
edition = "2021"
publish = false

[dependencies]
exonum = "=0.10.4"
exonum-derive = "=0.10.0"
failure = "=0.1.8"
hex = "=0.3.2"
protobuf = { version = "=2.28.0", features = ["with-serde"] }
rlua = "=0.16.3"
serde = "=1.0.229"
serde_derive = "=1.0.229"
