use pg_auto_dw::controller::bgw_transformer_client::{
    column_numbers, decide, extract_column_numbers, insert_responses, response_row_sql,
    source_object_of, Attempts, ColumnVerdict, KeyPartFinding, Reply, ResponseRow,
    SensitiveFinding, MAX_TRANSFORMER_RETRIES,
};
use pg_auto_dw::controller::dv_builder::ColumnCategory;
use pg_auto_dw::model::prompt_template::PromptTemplate;
use pg_auto_dw::model::source_objects::{ColumnLink, TableLinks};
use pg_auto_dw::utility::guc::PgAutoDWGuc;
use pg_auto_dw::utility::transformer_client::{fill_prompt, TransformerServerType};

const TABLE: &str = "{\n  \"Schema Name\": \"public\",\n  \"Table Name\": \"customer\",\n  \"Column Details\": [\n    \"Column No: 1 Named: customer_id of type: uuid And is a primary key.  Column Comments: NA\",\n    \"Column No: 2 Named: city of type: character varying(255) Column Comments: NA\",\n    \"Column No: 13 Named: zip of type: character varying(10) Column Comments: NA\"\n  ]\n}";

#[test]
fn column_numbers_are_found_in_order() {
    assert_eq!(extract_column_numbers(TABLE), Some(vec![1, 2, 13]));
    assert_eq!(extract_column_numbers("no column here"), Some(Vec::new()));
    assert_eq!(extract_column_numbers("Column No: x, Column No:7, Column No: 08"), Some(vec![8]));
    assert_eq!(extract_column_numbers(""), Some(Vec::new()));
}

#[test]
fn column_number_beyond_the_range_leaves_no_answer() {
    assert_eq!(extract_column_numbers("Column No: 4294967295"), Some(vec![4294967295]));
    assert_eq!(extract_column_numbers("Column No: 1 Column No: 4294967296"), None);
}

#[test]
fn groups_are_read_as_numbers() {
    let groups = vec![Some("3".to_string()), None, Some("10".to_string())];
    assert_eq!(column_numbers(&groups), Some(vec![3, 10]));
    let broken = vec![Some("3".to_string()), Some("three".to_string())];
    assert_eq!(column_numbers(&broken), None);
    assert_eq!(column_numbers(&Vec::new()), Some(Vec::new()));
}

#[test]
fn server_type_is_read_in_any_case() {
    assert_eq!(TransformerServerType::from_str("openai"), Ok(TransformerServerType::OpenAI));
    assert_eq!(TransformerServerType::from_str("OpenAI"), Ok(TransformerServerType::OpenAI));
    assert_eq!(TransformerServerType::from_str("OLLAMA"), Ok(TransformerServerType::Ollama));
    assert_eq!(TransformerServerType::from_str("ollama "), Err("Invalid Transformer Server Type"));
    assert_eq!(TransformerServerType::from_str(""), Err("Invalid Transformer Server Type"));
}

#[test]
fn prompt_places_are_filled() {
    let prompt = fill_prompt(PromptTemplate::BKName, TABLE, 13, "Hint: try again.");
    assert!(!prompt.contains("{new_json}"));
    assert!(!prompt.contains("{column_no}"));
    assert!(!prompt.contains("{hints}"));
    assert!(prompt.contains(&format!("JSON Source Table Object: {}", TABLE)));
    assert!(prompt.contains("Column No: 13\n"));
    assert!(prompt.contains("Hint: try again."));
    let template = PromptTemplate::BKName.template();
    let expected = template
        .replace("{new_json}", TABLE)
        .replace("{column_no}", "13")
        .replace("{hints}", "Hint: try again.");
    assert_eq!(prompt, expected);
}

#[test]
fn each_question_has_its_template() {
    let identification = PromptTemplate::BKComponentIdentification.template();
    let name = PromptTemplate::BKName.template();
    let sensitive = PromptTemplate::DescriptorSensitive.template();
    assert!(identification.contains("Business Key Component Identification"));
    assert!(name.contains("Business Key Name"));
    assert!(sensitive.contains("Descriptor - Sensitive"));
    assert_ne!(identification, name);
    assert_ne!(name, sensitive);
    for template in [identification, name, sensitive] {
        assert_eq!(template.matches("{new_json}").count(), 1);
        assert_eq!(template.matches("{column_no}").count(), 1);
        assert_eq!(template.matches("{hints}").count(), 1);
    }
}

#[test]
fn asking_stops_after_three_failures() {
    let mut attempts = Attempts::start();
    assert!(attempts.is_open());
    assert_eq!(attempts.hints, "");
    attempts.record(Reply::Failed);
    assert_eq!(attempts.retries, 1);
    assert_eq!(
        attempts.hints,
        "Hint: Please ensure you provide a JSON response only.  This is your 1 attempt."
    );
    assert!(attempts.is_open());
    attempts.record(Reply::Undecodable);
    assert_eq!(attempts.retries, 2);
    assert_eq!(
        attempts.hints,
        "Hint: Please ensure you provide a JSON response only.  This is your 1 attempt."
    );
    attempts.record(Reply::Failed);
    assert_eq!(attempts.retries, MAX_TRANSFORMER_RETRIES);
    assert_eq!(
        attempts.hints,
        "Hint: Please ensure you provide a JSON response only.  This is your 3 attempt."
    );
    assert!(!attempts.is_open());
    assert!(!attempts.answered);
    attempts.record(Reply::Answered);
    assert!(!attempts.answered);
    assert_eq!(attempts.retries, 3);
}

#[test]
fn an_answer_ends_the_asking() {
    let mut attempts = Attempts::start();
    attempts.record(Reply::Undecodable);
    attempts.record(Reply::Answered);
    assert!(attempts.answered);
    assert!(!attempts.is_open());
    assert_eq!(attempts.retries, 1);
    attempts.record(Reply::Failed);
    assert_eq!(attempts.retries, 1);
    assert_eq!(attempts.hints, "");
}

fn key_part() -> KeyPartFinding {
    KeyPartFinding {
        name: "customer order".to_string(),
        confidence: "0.85".to_string(),
        identified_reason: "primary key".to_string(),
        naming_reason: "it's the customer".to_string(),
    }
}

fn sensitive(is_pii: bool, is_confident: bool) -> SensitiveFinding {
    SensitiveFinding {
        is_pii,
        is_confident,
        confidence: "0.98".to_string(),
        reason: "matches 'Email Address'".to_string(),
    }
}

#[test]
fn named_key_part_is_a_business_key_part() {
    let verdict = decide(Some(key_part()), Some(sensitive(true, true)));
    assert_eq!(verdict.category, ColumnCategory::BusinessKeyPart);
    assert_eq!(verdict.business_key_name, "customer order");
    assert_eq!(verdict.confidence, "0.85");
    assert_eq!(verdict.reason, "BK Identified Reason: primary key, BK Naming Reason: it's the customer");
}

#[test]
fn confident_personal_data_is_a_sensitive_descriptor() {
    let verdict = decide(None, Some(sensitive(true, true)));
    assert_eq!(verdict.category, ColumnCategory::DescriptorSensitive);
    assert_eq!(verdict.business_key_name, "NA");
    assert_eq!(verdict.confidence, "0.98");
    assert_eq!(verdict.reason, "matches 'Email Address'");
}

#[test]
fn anything_else_is_a_descriptor() {
    for finding in [None, Some(sensitive(true, false)), Some(sensitive(false, true)), Some(sensitive(false, false))] {
        let verdict = decide(None, finding);
        assert_eq!(verdict.category, ColumnCategory::Descriptor);
        assert_eq!(verdict.business_key_name, "NA");
        assert_eq!(verdict.confidence, "1");
        assert_eq!(verdict.reason, "Defaulted of category 'Descriptor' maintained.");
    }
}

#[test]
fn source_object_is_found_by_column_position() {
    let links = TableLinks {
        column_links: vec![
            ColumnLink { column_ordinal_position: 1, pk_source_objects: 101 },
            ColumnLink { column_ordinal_position: 2, pk_source_objects: 102 },
            ColumnLink { column_ordinal_position: 2, pk_source_objects: 999 },
        ],
    };
    assert_eq!(links.find_pk_source_objects(1), Some(101));
    assert_eq!(links.find_pk_source_objects(2), Some(102));
    assert_eq!(links.find_pk_source_objects(3), None);
    assert_eq!(source_object_of(&links, 2), Some(102));
    assert_eq!(source_object_of(&links, 0), None);
    assert_eq!(source_object_of(&links, 4294967295), None);
    assert_eq!(TableLinks { column_links: Vec::new() }.find_pk_source_objects(1), None);
}

#[test]
fn responses_are_stored_in_one_statement() {
    let rows = vec![
        ResponseRow { pk_source_objects: 101, verdict: decide(Some(key_part()), None) },
        ResponseRow { pk_source_objects: 102, verdict: decide(None, None) },
        ResponseRow { pk_source_objects: -3, verdict: decide(None, Some(sensitive(true, true))) },
    ];
    let statement = insert_responses("gpt-4o", &rows).unwrap();
    assert_eq!(
        statement,
        "INSERT INTO auto_dw.transformer_responses (fk_source_objects, model_name, category, business_key_name, confidence_score, reason) VALUES \
(101, 'gpt-4o', 'Business Key Part', 'customer_order', 0.85, 'BK Identified Reason: primary key, BK Naming Reason: it''s the customer'),\
(102, 'gpt-4o', 'Descriptor', 'NA', 1, 'Defaulted of category ''Descriptor'' maintained.'),\
(-3, 'gpt-4o', 'Descriptor - Sensitive', 'NA', 0.98, 'matches ''Email Address''');"
    );
    assert_eq!(insert_responses("gpt-4o", &Vec::new()), None);
    let one = insert_responses("m", &rows[1..2].iter().map(|r| ResponseRow {
        pk_source_objects: r.pk_source_objects,
        verdict: ColumnVerdict {
            category: r.verdict.category,
            business_key_name: r.verdict.business_key_name.clone(),
            confidence: r.verdict.confidence.clone(),
            reason: r.verdict.reason.clone(),
        },
    }).collect()).unwrap();
    assert!(one.ends_with("(102, 'm', 'Descriptor', 'NA', 1, 'Defaulted of category ''Descriptor'' maintained.');"));
    assert_eq!(
        response_row_sql("m", &rows[2]),
        "(-3, 'm', 'Descriptor - Sensitive', 'NA', 0.98, 'matches ''Email Address''')"
    );
}

#[test]
fn category_names_read_back() {
    for category in [ColumnCategory::BusinessKeyPart, ColumnCategory::Descriptor, ColumnCategory::DescriptorSensitive] {
        assert_eq!(ColumnCategory::from_str(category.name()).unwrap(), category);
    }
    assert_eq!(ColumnCategory::DescriptorSensitive.name(), "Descriptor - Sensitive");
}

#[test]
fn settings_have_their_names() {
    assert_eq!(PgAutoDWGuc::DatabaseName.name(), "pg_auto_dw.database_name");
    assert_eq!(PgAutoDWGuc::DwSchema.name(), "pg_auto_dw.dw_schema");
    assert_eq!(PgAutoDWGuc::Model.name(), "pg_auto_dw.model");
    assert_eq!(PgAutoDWGuc::TransformerServerType.name(), "pg_auto_dw.transformer_server_type");
    assert_eq!(PgAutoDWGuc::TransformerServerUrl.name(), "pg_auto_dw.transformer_server_url");
    assert_eq!(PgAutoDWGuc::TransformerServerToken.name(), "pg_auto_dw.transformer_server_token");
}
