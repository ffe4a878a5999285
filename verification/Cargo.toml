[package]
name = "qubes_converter"
version = "0.1.0"
edition = "2021"
publish = false

[dependencies]
clap = { version = "=3.2.25", features = ["derive"] }
crossterm = "0.25"
env_logger = "=0.9.3"
glob = "=0.3.4"
home = "=0.5.12"
image = { version = "=0.24.9", default-features = false, features = ["png", "jpeg", "gif", "bmp", "ico", "pnm", "tga", "tiff"] }
log = "=0.4.34"
mime = "=0.3.17"
num_cpus = "=1.17.0"
tree_magic = "=0.2.3"
tui = { version = "0.19", default-features = false, features = ["crossterm"] }
uuid = { version = "=1.29.0", features = ["v4"] }
