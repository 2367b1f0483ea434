[package]
name = "zellij_home"
version = "0.1.0"
edition = "2021"
publish = false

[dependencies]
directories-next = "2.0.0"
