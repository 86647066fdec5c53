[package]
name = "crust_of_rust"
version = "0.1.0"
edition = "2021"
publish = false
