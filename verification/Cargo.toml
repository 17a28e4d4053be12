[package]
name = "oxi_harness"
version = "0.1.0"
edition = "2021"
publish = false

[dependencies]
miniserde = "0.1"
