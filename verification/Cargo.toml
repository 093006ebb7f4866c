[package]
name = "cargo_embed"
version = "0.14.2"
edition = "2021"
publish = false

[dependencies]
anyhow = "=1.0.104"
chrono = "=0.4.45"
colored = "=2.2.0"
defmt-decoder = { version = "=0.3.11", features = ["unstable"] }
gdb-server = "=0.14.2"
git-version = "=0.3.9"
lazy_static = "=1.5.1"
log = "=0.4.35"
# The ELF reader of defmt-decoder. Without this feature it refuses a file that does
# not begin at an aligned address, so the same bytes could be read or refused.
object = { version = "=0.35.0", default-features = false, features = ["unaligned"] }
probe-rs = "=0.14.2"
probe-rs-cli-util = "=0.14.2"
probe-rs-rtt = "=0.14.2"
serde = { version = "=1.0.229", features = ["derive"] }
toml = "=0.5.11"
