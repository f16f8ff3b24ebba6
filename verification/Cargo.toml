[package]
name = "htlc_orders"
version = "0.1.0"
edition = "2021"
publish = false

[dependencies]
bitcoin = "=0.32.102"
hex = "=0.4.3"
candid = "=0.10.37"
ic-cdk = "=0.18.7"
