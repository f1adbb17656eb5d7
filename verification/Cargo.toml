[package]
name = "rsc8_core"
version = "0.1.0"
edition = "2021"

[dependencies]
ratatui = "0.29"
