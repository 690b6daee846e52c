[package]
name = "cddl_itr"
version = "0.1.0"
edition = "2021"
publish = false

[dependencies]
cddl = "*"
