[package]
name = "rusty8080"
version = "0.1.0"
edition = "2021"
publish = false
