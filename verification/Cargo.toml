[package]
name = "generic_global_variables"
version = "0.1.0"
edition = "2021"
publish = false
