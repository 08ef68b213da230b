[package]
name = "spnav"
version = "0.1.0"
edition = "2021"
publish = false

[dependencies]
libspnav-bindings = "*"
