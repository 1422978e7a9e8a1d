[package]
name = "icrepl"
version = "0.1.0"
edition = "2021"
publish = false

[dependencies]
candid = "=0.10.37"
candid_parser = "=0.4.1"
ic-agent = { version = "=0.49.2", default-features = false, features = ["pem"] }
ic-identity-hsm = "=0.49.2"
ed25519-consensus = "=2.1.0"
rand = "=0.8.8"
shellexpand = "=3.1.2"
console = "=0.16.6"
pem = "=3.0.6"
pkcs8 = "=0.10.2"
