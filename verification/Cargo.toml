[package]
name = "rs_collector"
version = "0.1.0"
edition = "2021"
publish = false

[dependencies]
bosun_emitter = "=1.2.0"
bson = "=0.12.3"
chan = "=0.1.23"
chan-signal = "=0.3.3"
chrono = "=0.4.45"
clap = "=2.34.0"
env_logger = "=0.4.3"
get_if_addrs = "=0.5.3"
is_executable = "=1.0.6"
itertools = "=0.15.0"
log = "=0.3.9"
mongodb = "=0.3.10"
mysql = "=12.3.1"
procinfo = "=0.4.2"
regex = "=1.13.1"
rustc-serialize = "=0.3.25"
time = "=0.1.45"
toml = "=0.2.1"
