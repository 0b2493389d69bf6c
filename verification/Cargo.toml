[package]
name = "sapling_io"
version = "0.1.0"
edition = "2021"
publish = false

[dependencies]
termwiz = "*"
streampager = "*"
pipe = "*"
parking_lot = "*"
once_cell = "*"
