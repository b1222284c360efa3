[package]
name = "xr_utils"
version = "0.1.0"
edition = "2021"
publish = false
