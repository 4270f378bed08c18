[package]
name = "dot_crocotile"
version = "0.1.0"
edition = "2021"
publish = false

[dependencies]
serde_json = "1"
base64 = "0.9"
num-traits = "0.2"
