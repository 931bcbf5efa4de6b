[package]
name = "emu8080"
version = "0.1.0"
edition = "2021"
publish = false

[dependencies]
ncurses = "=5.101.0"
time = "=0.1.45"
