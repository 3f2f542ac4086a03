[package]
name = "basis_rs"
version = "0.1.0"
edition = "2021"
publish = false

[dependencies]
polars = { version = "0.46", default-features = false, features = ["lazy", "parquet", "dtype-datetime"] }
libc = "0.2"
cxx = "1"
thiserror = "1"

[dev-dependencies]
tempfile = "3"
