[package]
name = "twin"
version = "0.1.0"
edition = "2021"
publish = false

[dependencies]
anyhow = "1"
async-trait = "0.1"
bcs = "0.1"
clap = { version = "4", features = ["derive"] }
diem-crypto = "0.0.3"
diem-types = "0.0.3"
fs_extra = "1"
futures-util = "0.3"
git2 = { version = "0.18", default-features = false }
hex = "0.4"
move-core-types = "0.0.3"
serde = { version = "1", features = ["derive"] }
serde_yaml = "0.9"
tokio = { version = "1", features = ["rt-multi-thread", "process", "time", "macros"] }
