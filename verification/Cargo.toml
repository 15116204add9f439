[package]
name = "oss_rtld"
version = "0.1.0"
edition = "2021"
publish = false

[dependencies]
modular-bitfield = "0.11"
static_assertions = "1.1"
