[package]
name = "crusader"
version = "0.1.0"
edition = "2021"
publish = false

[dependencies]
curl = "*"
rustc-serialize = "*"
threadpool = "*"
num_cpus = "*"
toml = "*"
log = "*"
env_logger = "*"
