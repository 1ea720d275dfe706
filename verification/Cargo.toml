[package]
name = "tonbridge"
version = "0.1.0"
edition = "2021"
publish = false

[dependencies]
cosmwasm-std = "=1.5.11"
cosmwasm-schema = "=1.5.11"
cw-storage-plus = "=1.2.0"
cw-controllers = "=1.1.2"
cw-utils = "=1.0.3"
thiserror = "=1.0.69"
oraiswap = "=1.0.1"
protobuf = "=3.2.0"
