//! A thin, verified convenience layer over the polars dataframe library:
//! tagged scalar values with tag-directed wrap/unwrap conversions, and
//! helpers that assemble rows, field descriptors, schemas and dataframes.

pub mod scalar;
pub mod table;
pub mod upstream;
