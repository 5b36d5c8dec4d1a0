[package]
name = "apdu_comm"
version = "0.1.0"
edition = "2021"
publish = false

[dependencies]
ledger_secure_sdk_sys = "*"
