[package]
name = "lending_market"
version = "0.1.0"
edition = "2021"
publish = false

[dependencies]
scrypto = "=1.4.0"
indexmap = "=2.14.2"
