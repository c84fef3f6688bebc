[package]
name = "accel_mma84"
version = "0.1.0"
edition = "2021"
publish = false

[dependencies]
tessel = "0.3.1"
unix_socket = "=0.5.0"
