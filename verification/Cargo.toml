[package]
name = "git_retrieve"
version = "0.1.0"
edition = "2021"
publish = false

[dependencies]
gix = { version = "=0.90.0", default-features = false, features = ["blocking-network-client", "worktree-mutation", "sha1"] }
gix-hash = { version = "=0.28.1", features = ["sha1"] }
gix-index = "=0.58.0"
gix-lock = "=26.0.1"
gix-protocol = "=0.68.0"
gix-ref = "=0.69.1"
thiserror = "=2.0.21"
tracing = "=0.1.44"
