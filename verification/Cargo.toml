[package]
name = "swapd_core"
version = "0.1.0"
edition = "2021"
publish = false

[dependencies]
bitcoin = "=0.28.2"
monero = "=0.17.3"
farcaster_core = "=0.6.4"
clap = { version = "=3.2.25", features = ["derive"] }
clap_complete = "3"
# Not used directly. monero 0.17 reaches into serde's private helpers, which
# later serde releases moved: this line holds serde at a release that still
# has them, so that monero and farcaster_core build.
serde = "=1.0.152"
