[package]
name = "time_rs"
version = "0.1.0"
edition = "2021"
publish = false

[dependencies]
gix = { version = "=0.88.0", default-features = false, features = ["sha1", "parallel", "blocking-network-client", "worktree-mutation"] }
tokio = { version = "=1.53.2", features = ["rt-multi-thread", "macros", "fs", "time"] }
tokio-stream = { version = "=0.1.19", features = ["fs"] }
clap = { version = "=4.6.7", features = ["derive"] }
