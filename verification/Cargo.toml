[package]
name = "todo_list"
version = "0.1.0"
edition = "2021"
publish = false

[dependencies]
bounded-collections = "=0.3.2"
frame-support = "*"
frame-system = "*"
