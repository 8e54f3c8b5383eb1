[package]
name = "ffs"
version = "0.1.0"
edition = "2021"
publish = false

[dependencies]
num_cpus = "*"
tokio = { version = "*", features = ["macros", "rt-multi-thread", "sync"] }
notify = "*"
log = "*"
env_logger = "*"
colored = "*"
rayon = "*"
