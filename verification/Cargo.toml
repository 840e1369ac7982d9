[package]
name = "pinocchio_fundraiser"
version = "0.1.0"
edition = "2021"
publish = false

[dependencies]
pinocchio = { version = "=0.12.0", features = ["account-resize"] }
pinocchio-log = "=0.5.1"
pinocchio-pubkey = "=0.3.0"
pinocchio-system = "=0.7.0"
pinocchio-token = "=0.8.0"
pinocchio-associated-token-account = "=0.5.0"
wincode = "=0.6.3"
