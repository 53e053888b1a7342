[package]
name = "wakfarm"
version = "0.1.0"
edition = "2021"
publish = false

[dependencies]
sha2 = "=0.11.0"
keyring = "=4.2.0"
keyring-core = "=1.0.0"
mac_address = "=1.2.0"
