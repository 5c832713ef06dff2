[package]
name = "actix_ipquery"
version = "0.1.0"
edition = "2021"
publish = false

[dependencies]
ipapi = "*"
actix-web = "4"
futures-util = "0.3"
