[package]
name = "croncat_app"
version = "0.1.0"
edition = "2021"
publish = false

[dependencies]
cosmwasm-std = "=1.5.11"
cosmwasm-schema = "=1.5.11"
croncat-sdk-manager = "=1.0.4"
croncat-sdk-tasks = "=1.0.4"
croncat-integration-utils = "=1.1.1"
cw20 = "0.16"
cw-asset = "=3.1.1"
cw-storage-plus = "=1.2.0"
