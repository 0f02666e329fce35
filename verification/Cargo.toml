[package]
name = "co_tester"
version = "0.1.0"
edition = "2021"
publish = false

[dependencies]
rand = "0.8"
rand_distr = "0.4"
clap = "2"
futures = "0.3"
num_cpus = "1"
strum = "0.20"
strum_macros = "0.20"
tempfile = "3"
tokio = { version = "0.2", features = ["full"] }
