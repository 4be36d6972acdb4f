//! Data Vault synthesis for a relational source.
//!
//! Column classifications are grouped into business keys, the business keys
//! are assembled into a schema, and from the schema the hub and satellite
//! tables and their incremental, hash-keyed load statements are written as
//! SQL text. Every function is verified against the contract it carries.

pub mod controller;
pub mod model;
pub mod utility;
