[package]
name = "dsdm"
version = "0.1.0"
edition = "2021"
publish = false

[dependencies]
clap = { version = "=4.6.7", features = ["derive"] }
dirs-next = "=2.0.0"
env_logger = "=0.11.11"
fs_extra = "=1.3.0"
inquire = "=0.9.4"
log = "=0.4.34"
ptree = "=0.5.2"
serde = { version = "=1.0.229", features = ["derive"] }
serde_yaml = "=0.9.34"
shellexpand = "=3.1.2"
thiserror = "=2.0.21"
upon = { version = "=0.11.0", features = ["syntax"] }
walkdir = "=2.5.0"
