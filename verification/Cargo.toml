[package]
name = "todo_list"
version = "0.1.0"
edition = "2021"
publish = false

[dependencies]
ink = { version = "=5.0.0", default-features = false, features = ["std"] }
