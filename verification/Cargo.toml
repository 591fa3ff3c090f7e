[package]
name = "response_time_monitor"
version = "0.1.0"
edition = "2021"
publish = false

[dependencies]
actix = "*"
actix-rt = "*"
time = "*"
