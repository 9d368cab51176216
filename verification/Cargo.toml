[package]
name = "emit_elasticsearch"
version = "0.1.0"
edition = "2021"
publish = false

[dependencies]
chrono = "=0.2.25"
emit = "=0.10.0"
hyper = "=0.9.18"
log = "=0.3.9"
serde = "=0.7.15"
serde_json = "=0.7.4"
