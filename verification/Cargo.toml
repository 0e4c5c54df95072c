[package]
name = "shmem_lab"
version = "0.1.0"
edition = "2021"
publish = false

[dependencies]
shared_memory = "*"
raw_sync = "*"
serde = { version = "*", features = ["derive"] }
serde_json = "*"
