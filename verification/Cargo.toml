[package]
name = "exercicios"
version = "0.1.0"
edition = "2021"
publish = false

[dependencies]
crossterm = "0.27.0"
rand = "0.8.5"
