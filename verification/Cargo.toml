[package]
name = "vault"
version = "0.3.0"
edition = "2021"
publish = false

[dependencies]
ethabi = "=18.0.0"
async-jsonrpc-client = { version = "=0.3.0", features = ["http-tokio"] }
async-trait = "=0.1.92"
clap = "=4.6.7"
cli-table = "=0.5.0"
rustc-hex = "=2.1.0"
serde_json = "=1.0.151"
tokio = { version = "=1.53.2", features = ["macros", "rt-multi-thread"] }
web3 = { version = "=0.19.0", default-features = false, features = ["http"] }
