use pg_auto_dw::controller::dv_builder::{build_dv, ColumnCategory, TransformerObject};
use pg_auto_dw::controller::dv_loader::dv_data_loader;
use pg_auto_dw::controller::dv_targets::{
    column_from_row, count_requests, dv_schema_add_target_columns, find_ambiguous,
    target_column_requests, target_from_rows, CatalogInconsistency, CatalogRow,
};
use pg_auto_dw::model::dv_schema::DVSchema;

fn classified(table_oid: u32, table: &str, column: &str, category: ColumnCategory, name: &str) -> TransformerObject {
    TransformerObject {
        schema_name: "public".to_string(),
        table_name: table.to_string(),
        business_key_name: name.to_string(),
        column_name: column.to_string(),
        column_type_name: "text".to_string(),
        system_id: 42,
        table_oid,
        column_ordinal_position: 1,
        column_category: category,
    }
}

fn two_table_schema() -> DVSchema {
    build_dv(
        "dw",
        &vec![
            classified(1, "customer", "customer_id", ColumnCategory::BusinessKeyPart, "customer"),
            classified(1, "customer", "city", ColumnCategory::Descriptor, "NA"),
            classified(1, "customer", "zip", ColumnCategory::DescriptorSensitive, "NA"),
            classified(2, "seller", "seller_id", ColumnCategory::BusinessKeyPart, "seller"),
            classified(2, "seller", "region", ColumnCategory::Descriptor, "NA"),
        ],
    )
    .dv_schema
}

fn row(table: &str, column: &str, position: i16) -> CatalogRow {
    CatalogRow {
        system_id: 42,
        schema_name: "dw".to_string(),
        table_name: table.to_string(),
        table_oid: 900,
        column_name: column.to_string(),
        column_ordinal_position: position,
        column_type_name: "character varying".to_string(),
    }
}

fn full_answers() -> Vec<Vec<CatalogRow>> {
    vec![
        vec![row("sat_customer", "city", 5)],
        vec![row("sat_customer_sensitive", "zip", 5)],
        vec![row("hub_customer", "customer_id_bk", 4)],
        vec![],
        vec![row("hub_seller", "seller_id_bk", 4)],
    ]
}

#[test]
fn requests_go_descriptors_then_key_parts_per_business_key() {
    let dv = two_table_schema();
    let requests = target_column_requests(&dv);
    let asked: Vec<(String, String, String)> = requests
        .into_iter()
        .map(|r| (r.schema_name, r.table_name, r.column_name))
        .collect();
    let expected: Vec<(String, String, String)> = [
        ("dw", "sat_customer", "city"),
        ("dw", "sat_customer_sensitive", "zip"),
        ("dw", "hub_customer", "customer_id_bk"),
        ("dw", "sat_seller", "region"),
        ("dw", "hub_seller", "seller_id_bk"),
    ]
    .iter()
    .map(|(s, t, c)| (s.to_string(), t.to_string(), c.to_string()))
    .collect();
    assert_eq!(asked, expected);
    assert_eq!(count_requests(&dv), Some(5));
}

#[test]
fn answers_become_targets_and_no_row_leaves_none() {
    let mut dv = two_table_schema();
    let id = dv.id;
    let key_id = dv.business_keys[1].id;
    let descriptor_id = dv.business_keys[0].descriptors[1].id;
    assert_eq!(dv_schema_add_target_columns(&mut dv, &full_answers()), Ok(()));
    assert_eq!(dv.id, id);
    assert_eq!(dv.business_keys[1].id, key_id);
    assert_eq!(dv.business_keys[0].descriptors[1].id, descriptor_id);
    let customer = &dv.business_keys[0];
    let city = customer.descriptors[0].descriptor_link.target_column.as_ref().unwrap();
    assert_eq!(city.table_name, "sat_customer");
    assert_eq!(city.column_name, "city");
    assert_eq!(city.column_ordinal_position, 5);
    assert_eq!(city.table_oid, 900);
    assert_eq!(city.schema_name, "dw");
    assert_eq!(city.column_type_name, "character varying");
    assert_eq!(city.system_id, 42);
    let zip = customer.descriptors[1].descriptor_link.target_column.as_ref().unwrap();
    assert_eq!(zip.table_name, "sat_customer_sensitive");
    let id_bk = customer.business_key_part_links[0].target_column.as_ref().unwrap();
    assert_eq!(id_bk.column_name, "customer_id_bk");
    let seller = &dv.business_keys[1];
    assert!(seller.descriptors[0].descriptor_link.target_column.is_none());
    assert_eq!(seller.business_key_part_links[0].target_column.as_ref().unwrap().table_name, "hub_seller");
    assert_eq!(customer.descriptors[0].descriptor_link.source_column.as_ref().unwrap().column_name, "city");
    assert_eq!(customer.descriptors[0].descriptor_link.alias, "city");
}

#[test]
fn unresolved_target_blocks_only_its_table() {
    let mut dv = two_table_schema();
    dv_schema_add_target_columns(&mut dv, &full_answers()).unwrap();
    let batch = dv_data_loader(&dv);
    assert_eq!(batch.blocked.len(), 1);
    assert_eq!(batch.blocked[0].table_name, "sat_seller");
    assert_eq!(batch.blocked[0].business_key, 1);
    assert!(batch.sql.contains("INSERT INTO dw.hub_seller ("));
    assert!(batch.sql.contains("INSERT INTO dw.sat_customer_sensitive ("));
    assert!(!batch.sql.contains("INSERT INTO dw.sat_seller ("));
}

#[test]
fn a_later_answer_replaces_an_earlier_target() {
    let mut dv = two_table_schema();
    dv_schema_add_target_columns(&mut dv, &full_answers()).unwrap();
    let mut again = full_answers();
    again[0] = Vec::new();
    again[3] = vec![row("sat_seller", "region", 5)];
    dv_schema_add_target_columns(&mut dv, &again).unwrap();
    assert!(dv.business_keys[0].descriptors[0].descriptor_link.target_column.is_none());
    assert!(dv.business_keys[1].descriptors[0].descriptor_link.target_column.is_some());
    assert!(dv_data_loader(&dv).blocked.iter().any(|b| b.table_name == "sat_customer"));
}

#[test]
fn wrong_number_of_answers_changes_nothing() {
    let mut dv = two_table_schema();
    let mut short = full_answers();
    short.pop();
    assert_eq!(
        dv_schema_add_target_columns(&mut dv, &short),
        Err(CatalogInconsistency::AnswerCount { found: 4 })
    );
    assert!(dv.business_keys[0].descriptors[0].descriptor_link.target_column.is_none());
    let mut long = full_answers();
    long.push(vec![row("hub_seller", "x", 1), row("hub_seller", "x", 1)]);
    assert_eq!(
        dv_schema_add_target_columns(&mut dv, &long),
        Err(CatalogInconsistency::AnswerCount { found: 6 })
    );
    assert!(dv.business_keys[0].business_key_part_links[0].target_column.is_none());
}

#[test]
fn two_rows_for_one_column_are_an_inconsistency() {
    let mut dv = two_table_schema();
    let mut doubled = full_answers();
    doubled[2].push(row("hub_customer", "customer_id_bk", 4));
    doubled[4].push(row("hub_seller", "seller_id_bk", 4));
    assert_eq!(find_ambiguous(&doubled), Some(2));
    assert_eq!(
        dv_schema_add_target_columns(&mut dv, &doubled),
        Err(CatalogInconsistency::AmbiguousColumn { request: 2 })
    );
    assert!(dv.business_keys[0].descriptors[0].descriptor_link.target_column.is_none());
    assert!(dv.business_keys[0].descriptors[1].descriptor_link.target_column.is_none());
    assert_eq!(find_ambiguous(&full_answers()), None);
}

#[test]
fn one_answer_gives_at_most_one_target() {
    assert!(target_from_rows(&Vec::new()).unwrap().is_none());
    let one = target_from_rows(&vec![row("hub_a", "a_bk", 4)]).unwrap().unwrap();
    assert_eq!(one.column_name, "a_bk");
    assert!(target_from_rows(&vec![row("hub_a", "a_bk", 4), row("hub_a", "a_bk", 4)]).is_none());
    let column = column_from_row(&row("sat_t", "c", 9));
    assert_eq!(column.table_name, "sat_t");
    assert_eq!(column.column_ordinal_position, 9);
}

#[test]
fn empty_schema_asks_nothing() {
    let mut dv = build_dv("dw", &Vec::new()).dv_schema;
    assert!(target_column_requests(&dv).is_empty());
    assert_eq!(dv_schema_add_target_columns(&mut dv, &Vec::new()), Ok(()));
    assert_eq!(
        dv_schema_add_target_columns(&mut dv, &vec![Vec::new()]),
        Err(CatalogInconsistency::AnswerCount { found: 1 })
    );
}
