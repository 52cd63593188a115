[package]
name = "rudle"
version = "0.1.0"
edition = "2021"
publish = false

[dependencies]
ncurses = "=5.101.0"
rand = "=0.10.3"
