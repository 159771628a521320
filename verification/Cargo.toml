[package]
name = "loadgen"
version = "0.1.0"
edition = "2021"
publish = false

[dependencies]
rand = "0.8"
rand_distr = "0.4"
rand_mt = "4"
clap = "2"
dialoguer = "0.11"
