[package]
name = "tii"
version = "0.1.0"
edition = "2021"
publish = false

[dependencies]
urlencoding = "=2.1.3"
libflate = "=2.3.2"
sha1 = "=0.10.7"
base64 = "=0.22.1"
regex = "1"
