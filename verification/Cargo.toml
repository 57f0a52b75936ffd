[package]
name = "psila_sniffer"
version = "0.1.0"
edition = "2021"
publish = false

[dependencies]
ieee802154 = "*"
byte = "*"
