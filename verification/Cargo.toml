[package]
name = "fastgen"
version = "0.1.0"
edition = "2021"
publish = false

[dependencies]
byteorder = "1"
chrono = "0.4"
clap = "2"
ctrlc = "3"
glob = "0.3"
libc = "0.2"
log = "0.4"
memmap = "0.7"
min-max-heap = "1"
nix = "0.17"
num-derive = "0.4"
num-traits = "0.2"
pretty_env_logger = "0.4"
priority-queue = "1"
rand = "0.8"
twoway = "0.2"
wait-timeout = "0.2"
