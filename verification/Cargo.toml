[package]
name = "seth_rpc"
version = "0.1.0"
edition = "2021"
publish = false

[dependencies]
jsonrpc-core = "*"
