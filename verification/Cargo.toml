[package]
name = "micromouse_control"
version = "0.1.0"
edition = "2021"
publish = false

[dependencies]
arrayvec = "0.5"
pid_control = "*"
