[package]
name = "change_shelf"
version = "0.1.0"
edition = "2021"
publish = false

[dependencies]
chrono = "=0.4.45"
petgraph = "=0.8.3"
