[package]
name = "max_fee"
version = "0.1.0"
edition = "2021"
publish = false

[dependencies]
alloy = { version = "=0.5.4", features = ["eips", "provider-http"] }
alloy-rpc-types-eth = "=0.5.4"
dotenv = "=0.15.0"
eyre = "=0.6.14"
tokio = { version = "=1.54.1", features = ["macros", "rt-multi-thread"] }
