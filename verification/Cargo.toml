[package]
name = "fbas_graph"
version = "0.1.0"
edition = "2021"
publish = false

[dependencies]
fbas_analyzer = { version = "0.7.4", default-features = false }
structopt = "0.3"
