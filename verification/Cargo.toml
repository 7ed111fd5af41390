[package]
name = "wat_parser"
version = "0.1.0"
edition = "2021"
publish = false

[dependencies]
regex = "*"
json = "*"
log = "*"
env_logger = "*"
structopt = "*"
failure = "*"
cassandra-cpp = "*"
futures = "*"
