[package]
name = "ger"
version = "0.1.0"
edition = "2021"
publish = false

[dependencies]
chrono = "0.4"
clap = "2"
crossterm = "0.19"
failure = "0.1"
legion = "0.3"
log = "0.4"
num-traits = "0.2"
termcolor = "1"
