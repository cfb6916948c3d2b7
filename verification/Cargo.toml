[package]
name = "fltk_evented"
version = "0.1.0"
edition = "2021"
publish = false

[dependencies]
fltk = "1"
tokio = { version = "1", default-features = false, features = ["rt"] }
