//! Configuration logic for a size-capped sccache installation.
pub mod text;
pub mod number;
pub mod size;
pub mod toml_doc;
pub mod paths;
pub mod config;
pub mod wire;
pub mod status;
pub mod stats;
pub mod install;
