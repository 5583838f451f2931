[package]
name = "simple_tqdm"
version = "0.1.0"
edition = "2021"

[dependencies]
indicatif = { version = "=0.17.11", features = ["rayon", "in_memory"] }
rayon = "=1.12.0"
unicode-width = "=0.2.2"
