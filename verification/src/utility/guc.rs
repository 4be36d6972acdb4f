//! The settings of the extension.

use vstd::prelude::*;

verus! {

/// A setting of the extension.
#[derive(Debug, Clone, Copy, PartialEq, Eq, Structural)]
pub enum PgAutoDWGuc {
    DatabaseName,
    DwSchema,
    TransformerServerType,
    TransformerServerUrl,
    TransformerServerToken,
    Model,
}

impl PgAutoDWGuc {
    /// The name under which the setting is registered.
    pub open spec fn setting_name(self) -> Seq<char> {
        match self {
            PgAutoDWGuc::DatabaseName => "pg_auto_dw.database_name"@,
            PgAutoDWGuc::DwSchema => "pg_auto_dw.dw_schema"@,
            PgAutoDWGuc::TransformerServerType => "pg_auto_dw.transformer_server_type"@,
            PgAutoDWGuc::TransformerServerUrl => "pg_auto_dw.transformer_server_url"@,
            PgAutoDWGuc::TransformerServerToken => "pg_auto_dw.transformer_server_token"@,
            PgAutoDWGuc::Model => "pg_auto_dw.model"@,
        }
    }

    /// The name under which the setting is registered.
    pub fn name(&self) -> (text: &'static str)
        ensures
            text@ == self.setting_name(),
    {
        match self {
            PgAutoDWGuc::DatabaseName => "pg_auto_dw.database_name",
            PgAutoDWGuc::DwSchema => "pg_auto_dw.dw_schema",
            PgAutoDWGuc::TransformerServerType => "pg_auto_dw.transformer_server_type",
            PgAutoDWGuc::TransformerServerUrl => "pg_auto_dw.transformer_server_url",
            PgAutoDWGuc::TransformerServerToken => "pg_auto_dw.transformer_server_token",
            PgAutoDWGuc::Model => "pg_auto_dw.model",
        }
    }
}

} // verus!
