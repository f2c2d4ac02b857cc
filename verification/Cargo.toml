[package]
name = "webapi_gen"
version = "0.1.0"
edition = "2021"
publish = false

[dependencies]
heck = "=0.3.3"
weedle = "=0.4.0"
