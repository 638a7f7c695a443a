[package]
name = "gas_tracking_backend"
version = "0.1.0"
edition = "2021"
publish = false

[dependencies]
ic-cdk = "=0.20.3"
candid = "=0.10.37"
# candid's Deserialize derive on the wire-format types in app/ expands to
# serde paths, so serde must be a direct dependency.
serde = "*"
