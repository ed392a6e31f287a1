[package]
name = "anyvalue_dataframe"
version = "0.1.0"
edition = "2021"
publish = false

[dependencies]
polars = { version = "=0.55.2", features = ["rows", "dtype-i8", "dtype-i16", "dtype-u8", "dtype-u16"] }
polars-schema = "=0.55.2"
