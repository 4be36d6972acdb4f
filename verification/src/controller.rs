//! The stages of a build: aggregation, table definitions, target columns, load.

pub mod dv_builder;
pub mod dv_tables;
pub mod dv_loader;
pub mod dv_targets;
pub mod dv_load_rules;
pub mod bgw_transformer_client;
