[package]
name = "staticfile"
version = "0.1.0"
edition = "2021"
publish = false

[dependencies]
httpdate = "1"
url = "2"
percent-encoding = "2"
filetime = "0.2"
