[package]
name = "nova_demo"
version = "0.1.0"
edition = "2021"
publish = false

[dependencies]
nova-scotia = "=0.5.0"
nova-snark = "=0.23.0"
serde_json = "=1.0.154"
