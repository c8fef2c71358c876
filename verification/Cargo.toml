[package]
name = "idea_graph"
version = "0.1.0"
edition = "2021"
publish = false

[dependencies]
vec_map = "*"
rusqlite = { version = "*", features = ["backup"] }
