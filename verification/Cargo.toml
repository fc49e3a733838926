[package]
name = "system_ability_fwk"
version = "0.1.0"
edition = "2021"
publish = false

[dependencies]
cxx = "1"
