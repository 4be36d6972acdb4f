//! What the transformer client decides between its requests: which columns
//! to ask about, when to ask again, what to make of the answers, and the
//! statement that stores the outcome.
//!
//! Confidence is carried as the text that goes into the statement. Numbers
//! with a fraction are compared and written out by the caller.

use crate::controller::dv_builder::ColumnCategory;
use crate::model::source_objects::{first_link_at, TableLinks};
use crate::utility::text::{
    decimal, decimal_text, parse_u32, parsed_u32, replace_all, replaced, signed_decimal,
    signed_decimal_text,
};
use vstd::prelude::*;
use vstd::string::StringExecFns;

verus! {

/// How often a question is asked before it is given up.
pub const MAX_TRANSFORMER_RETRIES: u8 = 3;

/// The mark of a column in the description of a table, with the number of
/// the column as its first group.
pub const COLUMN_NO_PATTERN: &'static str = "Column No: (\\d+)";

/// What the crate `regex` finds of a pattern in a text: for each match, the
/// leftmost first and none overlapping another, the text of the first group,
/// or nothing where the group took no part in the match. There is no answer
/// where the pattern is not a regular expression that the crate accepts.
pub uninterp spec fn first_groups(pattern: Seq<char>, text: Seq<char>) -> Option<
    Seq<Option<Seq<char>>>,
>;

pub open spec fn group_view(group: Option<String>) -> Option<Seq<char>> {
    match group {
        Some(text) => Some(text@),
        None => None,
    }
}

pub open spec fn groups_view(groups: Seq<Option<String>>) -> Seq<Option<Seq<char>>> {
    Seq::new(groups.len(), |i: int| group_view(groups[i]))
}

pub open spec fn found_view(found: Option<Vec<Option<String>>>) -> Option<
    Seq<Option<Seq<char>>>,
> {
    match found {
        Some(groups) => Some(groups_view(groups@)),
        None => None,
    }
}

/// Calls `regex::Regex::new` and, on the expression it gives,
/// `Regex::captures_iter`, and takes from each match the text of group 1
/// (`Captures::get`, `Match::as_str`). Trusted: the outcome is what the crate
/// finds, which depends on the pattern and the text alone.
#[verifier::external_body]
pub(crate) fn find_first_groups(pattern: &str, text: &str) -> (found: Option<
    Vec<Option<String>>,
>)
    ensures
        found_view(found) == first_groups(pattern@, text@),
{
    match regex::Regex::new(pattern) {
        Ok(expression) => Some(
            expression.captures_iter(text).map(
                |captures| captures.get(1).map(|group| group.as_str().to_string()),
            ).collect(),
        ),
        Err(_) => None,
    }
}

/// The numbers that the groups write, in their order. A match without its
/// group is passed over; a group that writes no number that `u32` holds
/// leaves no answer.
pub open spec fn numbers_of(groups: Seq<Option<Seq<char>>>) -> Option<Seq<u32>>
    decreases groups.len(),
{
    if groups.len() == 0 {
        Some(Seq::empty())
    } else {
        match numbers_of(groups.drop_last()) {
            None => None,
            Some(earlier) => match groups.last() {
                None => Some(earlier),
                Some(digits) => match parsed_u32(digits) {
                    Some(n) => Some(earlier.push(n)),
                    None => None,
                },
            },
        }
    }
}

/// Some group among the first `n` writes no number, so no answer is left.
pub proof fn lemma_numbers_of_stays_none(groups: Seq<Option<Seq<char>>>, n: int)
    requires
        0 <= n <= groups.len(),
        numbers_of(groups.take(n)) is None,
    ensures
        numbers_of(groups) is None,
    decreases groups.len() - n,
{
    if n < groups.len() {
        assert(groups.take(n + 1).drop_last() =~= groups.take(n));
        lemma_numbers_of_stays_none(groups, n + 1);
    } else {
        assert(groups.take(n) =~= groups);
    }
}

/// Reads the column numbers from the groups of the matches.
pub fn column_numbers(groups: &Vec<Option<String>>) -> (numbers: Option<Vec<u32>>)
    ensures
        match numbers {
            Some(read) => numbers_of(groups_view(groups@)) == Some(read@),
            None => numbers_of(groups_view(groups@)) is None,
        },
{
    let ghost all = groups_view(groups@);
    let mut read: Vec<u32> = Vec::new();
    let mut i: usize = 0;
    assert(all.take(0) =~= Seq::empty());
    while i < groups.len()
        invariant
            i <= groups.len(),
            all == groups_view(groups@),
            numbers_of(all.take(i as int)) == Some(read@),
        decreases groups.len() - i,
    {
        proof {
            assert(all.take(i + 1).drop_last() =~= all.take(i as int));
            assert(all.take(i + 1).last() == group_view(groups@[i as int]));
        }
        match &groups[i] {
            Some(digits) => {
                match parse_u32(digits.as_str()) {
                    Some(n) => {
                        read.push(n);
                    },
                    None => {
                        proof {
                            lemma_numbers_of_stays_none(all, i + 1);
                        }
                        return None;
                    },
                }
            },
            None => {},
        }
        i += 1;
    }
    assert(all.take(groups.len() as int) =~= all);
    Some(read)
}

/// The column numbers in the description of a table: the number behind each
/// `Column No: `, in the order of the text. There is no answer where one of
/// them is beyond `u32`.
pub fn extract_column_numbers(json_str: &str) -> (numbers: Option<Vec<u32>>)
    ensures
        match numbers {
            Some(read) => first_groups(COLUMN_NO_PATTERN@, json_str@) is Some && numbers_of(
                first_groups(COLUMN_NO_PATTERN@, json_str@)->0,
            ) == Some(read@),
            None => first_groups(COLUMN_NO_PATTERN@, json_str@) is None || numbers_of(
                first_groups(COLUMN_NO_PATTERN@, json_str@)->0,
            ) is None,
        },
{
    match find_first_groups(COLUMN_NO_PATTERN, json_str) {
        Some(groups) => column_numbers(&groups),
        None => None,
    }
}

/// What came of asking a question once.
#[derive(Debug, Clone, Copy, PartialEq, Eq, Structural)]
pub enum Reply {
    /// The request failed, or what came back was not JSON.
    Failed,
    /// JSON came back, but not in the shape of an answer.
    Undecodable,
    /// An answer came back.
    Answered,
}

/// Where the asking of one question stands.
#[derive(Debug)]
pub struct Attempts {
    pub retries: u8,
    pub hints: String,
    pub answered: bool,
}

pub struct AttemptsView {
    pub retries: u8,
    pub hints: Seq<char>,
    pub answered: bool,
}

impl View for Attempts {
    type V = AttemptsView;

    open spec fn view(&self) -> AttemptsView {
        AttemptsView { retries: self.retries, hints: self.hints@, answered: self.answered }
    }
}

/// The hint that goes with the question after the attempt of this number
/// failed.
pub open spec fn hint_text(attempt: nat) -> Seq<char> {
    "Hint: Please ensure you provide a JSON response only.  This is your "@ + decimal_text(attempt)
        + " attempt."@
}

impl AttemptsView {
    /// The question is asked while it has no answer and was not yet asked
    /// as often as allowed.
    pub open spec fn open(self) -> bool {
        !self.answered && self.retries < MAX_TRANSFORMER_RETRIES
    }

    /// Where the asking stands after a reply: a failed request counts and
    /// leaves a hint, an answer in the wrong shape counts, and an answer ends
    /// the asking.
    pub open spec fn after(self, reply: Reply) -> AttemptsView {
        match reply {
            Reply::Failed => AttemptsView {
                retries: (self.retries + 1) as u8,
                hints: hint_text((self.retries + 1) as nat),
                answered: false,
            },
            Reply::Undecodable => AttemptsView {
                retries: (self.retries + 1) as u8,
                hints: self.hints,
                answered: false,
            },
            Reply::Answered => AttemptsView { answered: true, ..self },
        }
    }
}

impl Attempts {
    /// Before the first attempt: nothing was asked and there is no hint.
    pub fn start() -> (attempts: Attempts)
        ensures
            attempts@ == (AttemptsView { retries: 0, hints: Seq::empty(), answered: false }),
            attempts@.open(),
    {
        Attempts { retries: 0, hints: String::new(), answered: false }
    }

    /// Whether the question is to be asked once more.
    pub fn is_open(&self) -> (open: bool)
        ensures
            open == self@.open(),
    {
        !self.answered && self.retries < MAX_TRANSFORMER_RETRIES
    }

    /// Takes note of the reply to an attempt. Nothing changes once the asking
    /// is over.
    pub fn record(&mut self, reply: Reply)
        ensures
            old(self)@.open() ==> final(self)@ == old(self)@.after(reply),
            !old(self)@.open() ==> final(self)@ == old(self)@,
    {
        if !self.is_open() {
            return ;
        }
        match reply {
            Reply::Failed => {
                let attempt = self.retries + 1;
                let number = decimal(attempt as u64);
                let mut hints = String::from_str(
                    "Hint: Please ensure you provide a JSON response only.  This is your ",
                );
                hints.append(number.as_str());
                hints.append(" attempt.");
                self.hints = hints;
                self.retries = attempt;
            },
            Reply::Undecodable => {
                self.retries = self.retries + 1;
            },
            Reply::Answered => {
                self.answered = true;
            },
        }
    }
}

/// The asking ends: each reply but an answer brings the end one step
/// nearer, and an answer is the end.
pub proof fn lemma_asking_ends(attempts: AttemptsView, reply: Reply)
    requires
        attempts.open(),
    ensures
        reply == Reply::Answered ==> !attempts.after(reply).open(),
        reply != Reply::Answered ==> MAX_TRANSFORMER_RETRIES - attempts.after(reply).retries
            < MAX_TRANSFORMER_RETRIES - attempts.retries,
{
}

/// A column that was found to be part of a business key, and named.
#[derive(Debug)]
pub struct KeyPartFinding {
    pub name: String,
    pub confidence: String,
    pub identified_reason: String,
    pub naming_reason: String,
}

/// What was found of a column's sensitivity. `is_confident` says whether the
/// confidence is above one half.
#[derive(Debug)]
pub struct SensitiveFinding {
    pub is_pii: bool,
    pub is_confident: bool,
    pub confidence: String,
    pub reason: String,
}

/// The classification of a column as it is stored.
#[derive(Debug)]
pub struct ColumnVerdict {
    pub category: ColumnCategory,
    pub business_key_name: String,
    pub confidence: String,
    pub reason: String,
}

pub struct ColumnVerdictView {
    pub category: ColumnCategory,
    pub business_key_name: Seq<char>,
    pub confidence: Seq<char>,
    pub reason: Seq<char>,
}

impl View for ColumnVerdict {
    type V = ColumnVerdictView;

    open spec fn view(&self) -> ColumnVerdictView {
        ColumnVerdictView {
            category: self.category,
            business_key_name: self.business_key_name@,
            confidence: self.confidence@,
            reason: self.reason@,
        }
    }
}

/// The verdict on a column that is part of a business key.
pub open spec fn key_part_verdict(finding: KeyPartFinding) -> ColumnVerdictView {
    ColumnVerdictView {
        category: ColumnCategory::BusinessKeyPart,
        business_key_name: finding.name@,
        confidence: finding.confidence@,
        reason: "BK Identified Reason: "@ + finding.identified_reason@ + ", BK Naming Reason: "@
            + finding.naming_reason@,
    }
}

/// The verdict on a column of which nothing else is found: a descriptor, in
/// full confidence.
pub open spec fn default_verdict() -> ColumnVerdictView {
    ColumnVerdictView {
        category: ColumnCategory::Descriptor,
        business_key_name: "NA"@,
        confidence: "1"@,
        reason: "Defaulted of category 'Descriptor' maintained."@,
    }
}

/// The verdict on a column that holds personal data.
pub open spec fn sensitive_verdict(finding: SensitiveFinding) -> ColumnVerdictView {
    ColumnVerdictView {
        category: ColumnCategory::DescriptorSensitive,
        business_key_name: "NA"@,
        confidence: finding.confidence@,
        reason: finding.reason@,
    }
}

/// The verdict on a column. A column that was named as part of a business
/// key is one; else it is a descriptor, and a sensitive one where personal
/// data was found in it with a confidence above one half.
pub open spec fn verdict_of(key_part: Option<KeyPartFinding>, sensitive: Option<SensitiveFinding>)
    -> ColumnVerdictView {
    match key_part {
        Some(finding) => key_part_verdict(finding),
        None => match sensitive {
            Some(finding) => if finding.is_pii && finding.is_confident {
                sensitive_verdict(finding)
            } else {
                default_verdict()
            },
            None => default_verdict(),
        },
    }
}

/// Decides the classification of a column from what was found of it.
pub fn decide(key_part: Option<KeyPartFinding>, sensitive: Option<SensitiveFinding>) -> (verdict:
    ColumnVerdict)
    ensures
        verdict@ == verdict_of(key_part, sensitive),
{
    match key_part {
        Some(finding) => {
            let mut reason = String::from_str("BK Identified Reason: ");
            reason.append(finding.identified_reason.as_str());
            reason.append(", BK Naming Reason: ");
            reason.append(finding.naming_reason.as_str());
            ColumnVerdict {
                category: ColumnCategory::BusinessKeyPart,
                business_key_name: finding.name,
                confidence: finding.confidence,
                reason,
            }
        },
        None => {
            match sensitive {
                Some(finding) => {
                    if finding.is_pii && finding.is_confident {
                        return ColumnVerdict {
                            category: ColumnCategory::DescriptorSensitive,
                            business_key_name: String::from_str("NA"),
                            confidence: finding.confidence,
                            reason: finding.reason,
                        };
                    }
                },
                None => {},
            }
            ColumnVerdict {
                category: ColumnCategory::Descriptor,
                business_key_name: String::from_str("NA"),
                confidence: String::from_str("1"),
                reason: String::from_str("Defaulted of category 'Descriptor' maintained."),
            }
        },
    }
}

/// The tracked source object behind a column of the table, if a link is for
/// the column.
pub fn source_object_of(links: &TableLinks, column: u32) -> (found: Option<i32>)
    ensures
        match found {
            Some(pk) => column <= i32::MAX && exists|k: int|
                first_link_at(links.column_links@, column as i32, k)
                    && #[trigger] links.column_links@[k].pk_source_objects == pk,
            None => column > i32::MAX || forall|e: int|
                0 <= e < links.column_links.len() ==> (
                #[trigger] links.column_links@[e]).column_ordinal_position != column,
        },
{
    if column > 2147483647 {
        None
    } else {
        links.find_pk_source_objects(column as i32)
    }
}

/// A response as it is stored: the tracked source object and the verdict on
/// its column.
#[derive(Debug)]
pub struct ResponseRow {
    pub pk_source_objects: i32,
    pub verdict: ColumnVerdict,
}

pub struct ResponseRowView {
    pub pk_source_objects: i32,
    pub verdict: ColumnVerdictView,
}

impl View for ResponseRow {
    type V = ResponseRowView;

    open spec fn view(&self) -> ResponseRowView {
        ResponseRowView { pk_source_objects: self.pk_source_objects, verdict: self.verdict@ }
    }
}

pub open spec fn response_rows_view(rows: Seq<ResponseRow>) -> Seq<ResponseRowView> {
    Seq::new(rows.len(), |i: int| rows[i]@)
}

/// The head of the statement that stores responses.
pub const INSERT_RESPONSES_HEAD: &'static str =
    "INSERT INTO auto_dw.transformer_responses (fk_source_objects, model_name, category, business_key_name, confidence_score, reason) VALUES ";

/// One response as a row of values. In the name of the business key blanks
/// become underscores, and in the reason each quote is doubled.
pub open spec fn response_row_text(model_name: Seq<char>, row: ResponseRowView) -> Seq<char> {
    "("@ + signed_decimal_text(row.pk_source_objects as int) + ", '"@ + model_name + "', '"@
        + row.verdict.category.role_name() + "', '"@ + replaced(
        row.verdict.business_key_name,
        " "@,
        "_"@,
    ) + "', "@ + row.verdict.confidence + ", '"@ + replaced(row.verdict.reason, "'"@, "''"@)
        + "')"@
}

/// The rows of values, with a comma between two of them.
pub open spec fn response_rows_text(model_name: Seq<char>, rows: Seq<ResponseRowView>) -> Seq<char>
    decreases rows.len(),
{
    if rows.len() == 0 {
        Seq::empty()
    } else if rows.len() == 1 {
        response_row_text(model_name, rows[0])
    } else {
        response_rows_text(model_name, rows.drop_last()) + ","@ + response_row_text(
            model_name,
            rows.last(),
        )
    }
}

/// The statement that stores the responses.
pub open spec fn insert_responses_text(model_name: Seq<char>, rows: Seq<ResponseRowView>) -> Seq<
    char,
> {
    INSERT_RESPONSES_HEAD@ + response_rows_text(model_name, rows) + ";"@
}

/// Writes one response as a row of values.
pub fn response_row_sql(model_name: &str, row: &ResponseRow) -> (sql: String)
    ensures
        sql@ == response_row_text(model_name@, row@),
{
    let pk = signed_decimal(row.pk_source_objects as i64);
    let name = replace_all(row.verdict.business_key_name.as_str(), " ", "_");
    let reason = replace_all(row.verdict.reason.as_str(), "'", "''");
    let mut sql = String::from_str("(");
    sql.append(pk.as_str());
    sql.append(", '");
    sql.append(model_name);
    sql.append("', '");
    sql.append(row.verdict.category.name());
    sql.append("', '");
    sql.append(name.as_str());
    sql.append("', ");
    sql.append(row.verdict.confidence.as_str());
    sql.append(", '");
    sql.append(reason.as_str());
    sql.append("')");
    sql
}

/// Writes the statement that stores the responses. There is no statement
/// for no response.
pub fn insert_responses(model_name: &str, rows: &Vec<ResponseRow>) -> (statement: Option<String>)
    ensures
        match statement {
            Some(sql) => rows.len() > 0 && sql@ == insert_responses_text(
                model_name@,
                response_rows_view(rows@),
            ),
            None => rows.len() == 0,
        },
{
    if rows.len() == 0 {
        return None;
    }
    let ghost all = response_rows_view(rows@);
    let mut listed = response_row_sql(model_name, &rows[0]);
    let mut i: usize = 1;
    assert(all.take(1)[0] == rows@[0]@);
    while i < rows.len()
        invariant
            1 <= i <= rows.len(),
            all == response_rows_view(rows@),
            listed@ == response_rows_text(model_name@, all.take(i as int)),
        decreases rows.len() - i,
    {
        proof {
            assert(all.take(i + 1).drop_last() =~= all.take(i as int));
            assert(all.take(i + 1).last() == rows@[i as int]@);
        }
        let row = response_row_sql(model_name, &rows[i]);
        listed.append(",");
        listed.append(row.as_str());
        i += 1;
    }
    assert(all.take(rows.len() as int) =~= all);
    let mut sql = String::from_str(INSERT_RESPONSES_HEAD);
    sql.append(listed.as_str());
    sql.append(";");
    Some(sql)
}

} // verus!
