use pg_auto_dw::controller::dv_builder::{
    build_dv, business_key_for_table, business_keys_from, get_business_key_part_link,
    get_descriptor, table_oids, ColumnCategory, TransformerObject,
};
use pg_auto_dw::controller::dv_tables::{build_sql_from_business_key, define_tables};
use pg_auto_dw::model::dv_schema::ColumnData;

fn record(
    table_oid: u32,
    table_name: &str,
    position: i16,
    column_name: &str,
    column_type_name: &str,
    category: ColumnCategory,
    business_key_name: &str,
) -> TransformerObject {
    TransformerObject {
        schema_name: "public".to_string(),
        table_name: table_name.to_string(),
        business_key_name: business_key_name.to_string(),
        column_name: column_name.to_string(),
        column_type_name: column_type_name.to_string(),
        system_id: 7_000_000_000_000_000_001,
        table_oid,
        column_ordinal_position: position,
        column_category: category,
    }
}

fn customer_records() -> Vec<TransformerObject> {
    vec![
        record(16400, "customer", 1, "customer_id", "uuid", ColumnCategory::BusinessKeyPart, "customer"),
        record(16400, "customer", 2, "city", "character varying(255)", ColumnCategory::Descriptor, "NA"),
        record(16400, "customer", 3, "zip", "character varying(10)", ColumnCategory::DescriptorSensitive, "NA"),
    ]
}

fn column(table_name: &str, column_name: &str, column_type_name: &str) -> ColumnData {
    ColumnData {
        id: uuid::Uuid::nil(),
        system_id: 1,
        schema_name: "public".to_string(),
        table_oid: 1,
        table_name: table_name.to_string(),
        column_name: column_name.to_string(),
        column_ordinal_position: 1,
        column_type_name: column_type_name.to_string(),
    }
}

#[test]
fn category_names_are_read() {
    assert_eq!(ColumnCategory::from_str("Business Key Part").unwrap(), ColumnCategory::BusinessKeyPart);
    assert_eq!(ColumnCategory::from_str("Descriptor").unwrap(), ColumnCategory::Descriptor);
    assert_eq!(
        ColumnCategory::from_str("Descriptor - Sensitive").unwrap(),
        ColumnCategory::DescriptorSensitive
    );
}

#[test]
fn unknown_category_is_refused_with_its_text() {
    let refused = ColumnCategory::from_str("Business Key").unwrap_err();
    assert_eq!(refused.found, "Business Key");
    assert_eq!(refused.message(), "'Business Key' is not a valid ColumnCategory");
    assert!(ColumnCategory::from_str("descriptor").is_err());
    assert!(ColumnCategory::from_str("").is_err());
}

#[test]
fn customer_makes_one_business_key() {
    let keys = business_keys_from(&customer_records());
    assert_eq!(keys.len(), 1);
    let key = &keys[0];
    assert_eq!(key.name, "customer");
    assert_eq!(key.business_key_part_links.len(), 1);
    assert_eq!(key.business_key_part_links[0].alias, "customer_id");
    assert_eq!(key.business_key_part_links[0].source_columns.len(), 1);
    assert_eq!(key.business_key_part_links[0].source_columns[0].column_name, "customer_id");
    assert!(key.business_key_part_links[0].target_column.is_none());
    assert_eq!(key.descriptors.len(), 2);
    assert_eq!(key.descriptors[0].descriptor_link.alias, "city");
    assert_eq!(key.descriptors[0].orbit, "customer");
    assert!(!key.descriptors[0].is_sensitive);
    assert_eq!(key.descriptors[1].descriptor_link.alias, "zip");
    assert_eq!(key.descriptors[1].orbit, "customer");
    assert!(key.descriptors[1].is_sensitive);
    let source = key.descriptors[1].descriptor_link.source_column.as_ref().unwrap();
    assert_eq!(source.column_type_name, "character varying(10)");
    assert_eq!(source.column_ordinal_position, 3);
    assert_eq!(source.table_oid, 16400);
    assert!(key.descriptors[1].descriptor_link.target_column.is_none());
}

#[test]
fn customer_tables_are_hub_and_two_satellites() {
    let build = build_dv("dw", &customer_records());
    assert_eq!(build.dv_schema.dw_schema, "dw");
    assert_eq!(build.dv_schema.business_keys.len(), 1);
    assert_eq!(build.dv_schema.create_timestamp_gmt, build.dv_schema.modified_timestamp_gmt);
    let expected = "CREATE TABLE dw.hub_customer (\n    hub_customer_hk VARCHAR NOT NULL,\n    load_ts TIMESTAMP WITHOUT TIME ZONE NOT NULL,\n    record_source VARCHAR NOT NULL,\n    customer_id_bk VARCHAR\n);\n\
CREATE TABLE dw.sat_customer (\n    hub_customer_hk VARCHAR NOT NULL,\n    load_ts TIMESTAMP WITHOUT TIME ZONE NOT NULL,\n    record_source VARCHAR NOT NULL,\n    sat_customer_hd VARCHAR NOT NULL,\n    city character varying(255)\n);\n\
CREATE TABLE dw.sat_customer_sensitive (\n    hub_customer_hk VARCHAR NOT NULL,\n    load_ts TIMESTAMP WITHOUT TIME ZONE NOT NULL,\n    record_source VARCHAR NOT NULL,\n    sat_customer_sensitive_hd VARCHAR NOT NULL,\n    zip character varying(10)\n);\n";
    assert_eq!(build.ddl, expected);
}

#[test]
fn tables_come_in_order_of_first_record() {
    let records = vec![
        record(20, "order", 1, "order_id", "uuid", ColumnCategory::BusinessKeyPart, "Order"),
        record(10, "seller", 1, "seller_id", "uuid", ColumnCategory::BusinessKeyPart, "seller"),
        record(20, "order", 2, "total", "numeric", ColumnCategory::Descriptor, "NA"),
        record(10, "seller", 2, "city", "text", ColumnCategory::Descriptor, "na"),
    ];
    assert_eq!(table_oids(&records), vec![20, 10]);
    let keys = business_keys_from(&records);
    assert_eq!(keys.len(), 2);
    assert_eq!(keys[0].name, "order");
    assert_eq!(keys[0].descriptors.len(), 1);
    assert_eq!(keys[0].descriptors[0].descriptor_link.alias, "total");
    assert_eq!(keys[1].name, "seller");
    assert_eq!(keys[1].descriptors[0].descriptor_link.alias, "city");
}

#[test]
fn last_proposed_name_wins_in_lowercase() {
    let records = vec![
        record(5, "t", 1, "a", "text", ColumnCategory::BusinessKeyPart, "First Name"),
        record(5, "t", 2, "b", "text", ColumnCategory::BusinessKeyPart, "SECOND"),
        record(5, "t", 3, "c", "text", ColumnCategory::Descriptor, "Na"),
    ];
    let key = business_key_for_table(&records, 5);
    assert_eq!(key.name, "second");
    assert_eq!(key.business_key_part_links.len(), 2);
    assert_eq!(key.business_key_part_links[0].alias, "a");
    assert_eq!(key.business_key_part_links[1].alias, "b");
}

#[test]
fn no_proposed_name_leaves_the_name_empty() {
    let records = vec![
        record(5, "t", 1, "a", "text", ColumnCategory::Descriptor, "NA"),
        record(5, "t", 2, "b", "text", ColumnCategory::Descriptor, "na"),
    ];
    let build = build_dv("dw", &records);
    assert_eq!(build.dv_schema.business_keys[0].name, "");
    assert!(!build.dv_schema.is_well_formed());
}

#[test]
fn records_of_other_tables_are_left_out() {
    let records = vec![
        record(1, "a", 1, "x", "text", ColumnCategory::Descriptor, "NA"),
        record(2, "b", 1, "y", "text", ColumnCategory::Descriptor, "NA"),
    ];
    let key = business_key_for_table(&records, 2);
    assert_eq!(key.descriptors.len(), 1);
    assert_eq!(key.descriptors[0].descriptor_link.alias, "y");
    let none = business_key_for_table(&records, 3);
    assert_eq!(none.descriptors.len(), 0);
    assert_eq!(none.business_key_part_links.len(), 0);
    assert_eq!(none.name, "");
}

#[test]
fn no_records_make_no_tables() {
    let build = build_dv("dw", &Vec::new());
    assert!(build.dv_schema.business_keys.is_empty());
    assert_eq!(build.ddl, "");
    assert!(build.dv_schema.is_well_formed());
}

#[test]
fn shared_satellite_is_created_once_with_all_columns() {
    let records = vec![
        record(1, "customer", 1, "customer_id", "uuid", ColumnCategory::BusinessKeyPart, "customer"),
        record(1, "customer", 2, "city", "text", ColumnCategory::Descriptor, "NA"),
        record(2, "customer", 1, "id", "integer", ColumnCategory::BusinessKeyPart, "client"),
        record(2, "customer", 2, "state", "character(2)", ColumnCategory::Descriptor, "NA"),
        record(2, "customer", 3, "zip", "text", ColumnCategory::DescriptorSensitive, "NA"),
    ];
    let keys = business_keys_from(&records);
    let tables = define_tables("dw", &keys).unwrap();
    assert_eq!(tables.hubs.len(), 2);
    assert_eq!(tables.hubs[0].business_key_name, "customer");
    assert_eq!(tables.hubs[0].key_columns, vec!["customer_id".to_string()]);
    assert_eq!(tables.hubs[1].business_key_name, "client");
    assert_eq!(tables.satellites.len(), 2);
    let shared = &tables.satellites[0];
    assert_eq!(shared.orbit, "customer");
    assert!(!shared.is_sensitive);
    assert_eq!(shared.owner, 0);
    assert_eq!(shared.hub_name, "customer");
    assert_eq!(shared.columns.len(), 2);
    assert_eq!(shared.columns[0].name, "city");
    assert_eq!(shared.columns[0].column_type, "text");
    assert_eq!(shared.columns[1].name, "state");
    assert_eq!(shared.columns[1].column_type, "character(2)");
    let sensitive = &tables.satellites[1];
    assert!(sensitive.is_sensitive);
    assert_eq!(sensitive.owner, 1);
    assert_eq!(sensitive.hub_name, "client");
    let sql = tables.create_statements();
    assert_eq!(sql.matches("CREATE TABLE dw.sat_customer (").count(), 1);
    assert_eq!(sql.matches("CREATE TABLE dw.sat_customer_sensitive (").count(), 1);
    assert_eq!(sql.matches("CREATE TABLE").count(), 4);
    let hub_customer = sql.find("CREATE TABLE dw.hub_customer (").unwrap();
    let shared_at = sql.find("CREATE TABLE dw.sat_customer (").unwrap();
    let hub_client = sql.find("CREATE TABLE dw.hub_client (").unwrap();
    let sensitive_at = sql.find("CREATE TABLE dw.sat_customer_sensitive (").unwrap();
    assert!(hub_customer < shared_at && shared_at < hub_client && hub_client < sensitive_at);
    assert!(sql.contains("    sat_customer_hd VARCHAR NOT NULL,\n    city text,\n    state character(2)\n);\n"));
}

#[test]
fn orbit_and_sensitivity_key_a_satellite_not_its_table_name() {
    let plain = get_descriptor(
        "a".to_string(),
        column("x_sensitive", "a", "text"),
        "x_sensitive".to_string(),
        false,
    );
    let marked = get_descriptor("b".to_string(), column("x", "b", "text"), "x".to_string(), true);
    let key = pg_auto_dw::model::dv_schema::BusinessKey {
        id: uuid::Uuid::nil(),
        name: "k".to_string(),
        business_key_part_links: vec![get_business_key_part_link(
            "id".to_string(),
            column("x", "id", "integer"),
        )],
        descriptors: vec![plain, marked],
    };
    let tables = define_tables("dw", &vec![key]).unwrap();
    assert_eq!(tables.satellites.len(), 2);
    assert_eq!(tables.satellites[0].orbit, "x_sensitive");
    assert!(!tables.satellites[0].is_sensitive);
    assert_eq!(tables.satellites[1].orbit, "x");
    assert!(tables.satellites[1].is_sensitive);
}

#[test]
fn descriptor_without_source_blocks_the_tables() {
    let mut first = get_descriptor("a".to_string(), column("t", "a", "text"), "t".to_string(), false);
    let mut second = get_descriptor("b".to_string(), column("t", "b", "text"), "t".to_string(), false);
    second.descriptor_link.source_column = None;
    let key = pg_auto_dw::model::dv_schema::BusinessKey {
        id: uuid::Uuid::nil(),
        name: "k".to_string(),
        business_key_part_links: Vec::new(),
        descriptors: vec![first, second],
    };
    let refused = build_sql_from_business_key(&"dw".to_string(), &key).unwrap_err();
    assert_eq!(refused.business_key, 0);
    assert_eq!(refused.descriptor, 1);
    let refused = define_tables("dw", &vec![key]).unwrap_err();
    assert_eq!((refused.business_key, refused.descriptor), (0, 1));
    first = get_descriptor("a".to_string(), column("t", "a", "text"), "t".to_string(), false);
    let alone = pg_auto_dw::model::dv_schema::BusinessKey {
        id: uuid::Uuid::nil(),
        name: "k".to_string(),
        business_key_part_links: Vec::new(),
        descriptors: vec![first],
    };
    let sql = build_sql_from_business_key(&"dw".to_string(), &alone).unwrap();
    assert_eq!(
        sql,
        "CREATE TABLE dw.hub_k (\n    hub_k_hk VARCHAR NOT NULL,\n    load_ts TIMESTAMP WITHOUT TIME ZONE NOT NULL,\n    record_source VARCHAR NOT NULL\n);\n\
CREATE TABLE dw.sat_t (\n    hub_k_hk VARCHAR NOT NULL,\n    load_ts TIMESTAMP WITHOUT TIME ZONE NOT NULL,\n    record_source VARCHAR NOT NULL,\n    sat_t_hd VARCHAR NOT NULL,\n    a text\n);\n"
    );
}

#[test]
fn identifiers_are_drawn_anew() {
    let build = build_dv("dw", &customer_records());
    let key = &build.dv_schema.business_keys[0];
    let mut ids = vec![
        build.dv_schema.id,
        key.id,
        key.business_key_part_links[0].id,
        key.business_key_part_links[0].source_columns[0].id,
        key.descriptors[0].id,
        key.descriptors[0].descriptor_link.id,
        key.descriptors[0].descriptor_link.source_column.as_ref().unwrap().id,
        key.descriptors[1].id,
    ];
    assert!(ids.iter().all(|id| id.get_version_num() == 4));
    ids.sort();
    ids.dedup();
    assert_eq!(ids.len(), 8);
    let again = build_dv("dw", &customer_records());
    assert_ne!(again.dv_schema.id, build.dv_schema.id);
}

#[test]
fn schema_is_stamped_with_the_present_time() {
    let before = chrono::Utc::now().naive_utc();
    let mut dv = pg_auto_dw::controller::dv_builder::assemble_schema("dw".to_string(), Vec::new());
    let created = dv.create_timestamp_gmt;
    assert!(before <= created);
    assert_eq!(created, dv.modified_timestamp_gmt);
    let id = dv.id;
    pg_auto_dw::controller::dv_builder::touch(&mut dv);
    assert_eq!(dv.create_timestamp_gmt, created);
    assert!(dv.modified_timestamp_gmt >= created);
    assert!(dv.modified_timestamp_gmt <= chrono::Utc::now().naive_utc());
    assert_eq!(dv.id, id);
    assert_eq!(dv.dw_schema, "dw");
}

#[test]
fn schema_is_assembled_from_what_is_given() {
    let id = uuid::Uuid::from_u128(7);
    let now = chrono::NaiveDate::from_ymd_opt(2024, 5, 1).unwrap().and_hms_micro_opt(10, 30, 0, 250).unwrap();
    let keys = business_keys_from(&customer_records());
    let mut dv = pg_auto_dw::controller::dv_builder::assemble_schema_at("dw".to_string(), keys, id, now);
    assert_eq!(dv.id, id);
    assert_eq!(dv.create_timestamp_gmt, now);
    assert_eq!(dv.modified_timestamp_gmt, now);
    assert_eq!(dv.business_keys.len(), 1);
    assert!(dv.is_well_formed());
    let later = now + chrono::Duration::seconds(5);
    pg_auto_dw::controller::dv_builder::touch_at(&mut dv, later);
    assert_eq!(dv.create_timestamp_gmt, now);
    assert_eq!(dv.modified_timestamp_gmt, later);
    assert_eq!(dv.business_keys[0].name, "customer");
}

#[test]
fn names_must_be_present_and_differ() {
    let records = vec![
        record(1, "a", 1, "x", "text", ColumnCategory::BusinessKeyPart, "same"),
        record(2, "b", 1, "y", "text", ColumnCategory::BusinessKeyPart, "SAME"),
    ];
    assert!(!build_dv("dw", &records).dv_schema.is_well_formed());
    let records = vec![
        record(1, "a", 1, "x", "text", ColumnCategory::BusinessKeyPart, "one"),
        record(2, "b", 1, "y", "text", ColumnCategory::BusinessKeyPart, "two"),
    ];
    assert!(build_dv("dw", &records).dv_schema.is_well_formed());
}
