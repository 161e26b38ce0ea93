[package]
name = "tool_driver"
version = "0.1.0"
edition = "2021"
publish = false

[dependencies]
dir-view = "=0.3.0"
thiserror = "=2.0.21"

[dev-dependencies]
cap-std = "=3.3.0"
