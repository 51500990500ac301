[package]
name = "replay"
version = "0.1.0"
edition = "2021"
publish = false

[dependencies]
async-std = { version = "1", features = ["attributes"] }
cdr = "=0.2.4"
clap = { version = "=4.6.7", default-features = false, features = ["std", "derive", "env", "help", "usage", "error-context"] }
ctrlc = "=3.5.2"
dma-buf = "=0.5.0"
dma-heap = "=0.4.1"
edgefirst-schemas = "=1.2.11"
env_logger = { version = "=0.11.11", default-features = false }
libloading = "=0.8.9"
log = "=0.4.34"
mcap = { version = "=0.26.0", default-features = false }
memmap2 = "=0.9.12"
nix = { version = "=0.31.3", features = ["ioctl"] }
serde_json = "=1.0.154"
tokio = { version = "=1.54.1", features = ["rt"] }
tracing = "=0.1.44"
turbojpeg = { version = "=1.5.1", features = ["image"] }
videostream = "=2.6.1"
zenoh = { version = "=1.10.1", default-features = false, features = ["transport_tcp"] }
