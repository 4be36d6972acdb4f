//! The kind of server that answers the questions about a column, and the
//! question as it is sent.

use crate::model::prompt_template::PromptTemplate;
use crate::utility::text::{
    decimal, decimal_text, lowercase, replace_all, replaced, str_eq, to_lowercase,
};
use vstd::prelude::*;

verus! {

/// The kind of the transformer server.
#[derive(Debug, Clone, Copy, PartialEq, Eq, Structural)]
pub enum TransformerServerType {
    OpenAI,
    Ollama,
}

/// What is returned for a text that names no kind of server.
pub const INVALID_SERVER_TYPE: &'static str = "Invalid Transformer Server Type";

impl TransformerServerType {
    /// The kind of server that a text names, in any letter case.
    pub open spec fn named_by(s: Seq<char>) -> Option<TransformerServerType> {
        if lowercase(s) == "openai"@ {
            Some(TransformerServerType::OpenAI)
        } else if lowercase(s) == "ollama"@ {
            Some(TransformerServerType::Ollama)
        } else {
            None
        }
    }

    /// Reads the kind of server from its name, in any letter case.
    pub fn from_str(s: &str) -> (parsed: Result<TransformerServerType, &'static str>)
        ensures
            match parsed {
                Ok(kind) => Self::named_by(s@) == Some(kind),
                Err(message) => Self::named_by(s@) is None && message@ == INVALID_SERVER_TYPE@,
            },
    {
        let lowered = to_lowercase(s);
        if str_eq(lowered.as_str(), "openai") {
            Ok(TransformerServerType::OpenAI)
        } else if str_eq(lowered.as_str(), "ollama") {
            Ok(TransformerServerType::Ollama)
        } else {
            Err(INVALID_SERVER_TYPE)
        }
    }
}

/// A template with its places filled: first the table, then the number of
/// the column, then the hints.
pub open spec fn filled(
    template: Seq<char>,
    new_json: Seq<char>,
    column_no: nat,
    hints: Seq<char>,
) -> Seq<char> {
    replaced(
        replaced(
            replaced(template, "{new_json}"@, new_json),
            "{column_no}"@,
            decimal_text(column_no),
        ),
        "{hints}"@,
        hints,
    )
}

/// Writes the question about one column of a table: the template of the
/// question with the table, the number of the column and the hints filled
/// in, in this order.
pub fn fill_prompt(template_type: PromptTemplate, new_json: &str, col: u32, hints: &str) -> (prompt:
    String)
    ensures
        prompt@ == filled(template_type.text(), new_json@, col as nat, hints@),
{
    let column_number = decimal(col as u64);
    let with_table = replace_all(template_type.template(), "{new_json}", new_json);
    let with_column = replace_all(with_table.as_str(), "{column_no}", column_number.as_str());
    replace_all(with_column.as_str(), "{hints}", hints)
}

} // verus!
