[package]
name = "caesura"
version = "0.1.0"
edition = "2021"
publish = false

[dependencies]
sha1 = "*"
num_cpus = "*"
claxon = "*"
html-escape = "*"
lava_torrent = "*"
tokio = { version = "*", features = ["rt-multi-thread", "macros", "fs", "process", "sync", "time"] }
serde = { version = "*", features = ["derive"] }
serde_json = "*"
serde_yaml = "*"
log = "*"
colored = "*"
thiserror = "*"
anyhow = "*"
reqwest = { version = "*", default-features = false, features = ["json"] }
audiotags = "*"
lofty = "*"
proc-macro2 = "*"
quote = "*"
syn = { version = "*", features = ["full"] }
