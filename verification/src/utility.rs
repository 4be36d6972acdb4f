//! Helpers shared by the stages.

pub mod text;
pub mod openai_client;
pub mod transformer_client;
pub mod guc;
