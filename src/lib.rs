//! Layered configuration: compiled-in defaults, configuration files and
//! command-line overrides folded into one typed record, with required-field
//! validation before the defaults are applied.
pub mod value;
pub mod layer;
pub mod config;
pub mod toml_source;
pub mod layering;
pub mod audit;
pub mod laws;
pub mod docs;
