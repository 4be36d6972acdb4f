//! The data that the synthesis works on.

pub mod dv_schema;
pub mod queries;
pub mod prompt_template;
pub mod source_objects;
