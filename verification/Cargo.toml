[package]
name = "nico_ranking"
version = "0.1.0"
edition = "2021"
publish = false

[dependencies]
chrono = { version = "0.4", features = ["serde"] }
num-format = "0.4"
regex = "1"
rayon = "1"
serde = { version = "1", features = ["derive"] }
serde_json = "1"
bincode = "1"
indicatif = "0.15"
itertools = "0.9"
clap = "2"
parse_duration = "2"
tempfile = "3"
ansi_term = "0.12"
crossbeam = "0.7"
either = "1"
lazy_static = "1"
num = "0.3"
reqwest = { version = "0.10", default-features = false, features = ["json"] }
tokio = { version = "0.2", features = ["full"] }
