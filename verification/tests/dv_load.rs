use pg_auto_dw::controller::dv_builder::{
    assemble_schema, get_business_key_part_link, get_descriptor,
};
use pg_auto_dw::controller::dv_loader::{
    digest_sql, dv_data_loader, dv_data_loader_hub_dml, dv_data_loader_sat_dml,
    key_satellites_dml, plan_hub_load, plan_satellite_load, LoadDefect,
};
use pg_auto_dw::model::dv_schema::{BusinessKey, BusinessKeyPartLink, ColumnData, DVSchema, Descriptor};

fn source(table_name: &str, column_name: &str) -> ColumnData {
    ColumnData {
        id: uuid::Uuid::nil(),
        system_id: 1,
        schema_name: "public".to_string(),
        table_oid: 16400,
        table_name: table_name.to_string(),
        column_name: column_name.to_string(),
        column_ordinal_position: 1,
        column_type_name: "text".to_string(),
    }
}

fn target(table_name: &str, column_name: &str) -> ColumnData {
    ColumnData {
        id: uuid::Uuid::nil(),
        system_id: 1,
        schema_name: "dw".to_string(),
        table_oid: 20000,
        table_name: table_name.to_string(),
        column_name: column_name.to_string(),
        column_ordinal_position: 4,
        column_type_name: "character varying".to_string(),
    }
}

fn part(table: &str, name: &str, hub: &str) -> BusinessKeyPartLink {
    let mut link = get_business_key_part_link(name.to_string(), source(table, name));
    link.target_column = Some(target(hub, &format!("{}_bk", name)));
    link
}

fn descriptor(table: &str, name: &str, is_sensitive: bool) -> Descriptor {
    let mut d = get_descriptor(name.to_string(), source(table, name), table.to_string(), is_sensitive);
    let satellite = if is_sensitive { format!("sat_{}_sensitive", table) } else { format!("sat_{}", table) };
    d.descriptor_link.target_column = Some(target(&satellite, name));
    d
}

fn key(name: &str, parts: Vec<BusinessKeyPartLink>, descriptors: Vec<Descriptor>) -> BusinessKey {
    BusinessKey { id: uuid::Uuid::nil(), name: name.to_string(), business_key_part_links: parts, descriptors }
}

fn customer() -> BusinessKey {
    key(
        "customer",
        vec![part("customer", "customer_id", "hub_customer")],
        vec![
            descriptor("customer", "city", false),
            descriptor("customer", "zip", true),
            descriptor("customer", "state", false),
        ],
    )
}

fn schema(keys: Vec<BusinessKey>) -> DVSchema {
    assemble_schema("dw".to_string(), keys)
}

const HUB_CUSTOMER_INIT: &str = "INSERT INTO dw.hub_customer (\n    hub_customer_hk,\n    load_ts,\n    record_source,\n    customer_id_bk\n)\n\
WITH initialized AS (\n    SELECT\n        CASE\n            WHEN COUNT(*) > 0 THEN TRUE\n            ELSE FALSE\n        END AS is_initialized\n    FROM dw.hub_customer\n)\n\
SELECT\n    ENCODE(PUBLIC.DIGEST(ARRAY_TO_STRING(ARRAY[-1], ',')::TEXT, 'sha256'), 'hex') AS hub_customer_hk,\n    '0001-01-01'::TIMESTAMP WITHOUT TIME ZONE AS load_ts,\n    'SYSTEM'::TEXT AS record_source,\n    '-1'::TEXT AS customer_id_bk\nFROM initialized WHERE NOT initialized.is_initialized\n\
UNION\n\
SELECT\n    ENCODE(PUBLIC.DIGEST(ARRAY_TO_STRING(ARRAY[-2], ',')::TEXT, 'sha256'), 'hex') AS hub_customer_hk,\n    '0001-01-01'::TIMESTAMP WITHOUT TIME ZONE AS load_ts,\n    'SYSTEM'::TEXT AS record_source,\n    '-2'::TEXT AS customer_id_bk\nFROM initialized WHERE NOT initialized.is_initialized\n\
;\n";

const HUB_CUSTOMER_LOAD: &str = "INSERT INTO dw.hub_customer (\n    hub_customer_hk,\n    load_ts,\n    record_source,\n    customer_id_bk\n)\n\
WITH\nstg_data AS (\n    SELECT\n        ENCODE(PUBLIC.DIGEST(ARRAY_TO_STRING(ARRAY[stg.customer_id::TEXT], ','), 'sha256'), 'hex') AS hub_customer_hk,\n        (CURRENT_TIMESTAMP AT TIME ZONE 'UTC')::TIMESTAMP(6) AS load_ts,\n        'public' AS record_source,\n        stg.customer_id::TEXT AS customer_id_bk\n    FROM public.customer AS stg\n),\n\
new_stg_data AS (\n    SELECT stg_data.* FROM stg_data\n    LEFT JOIN dw.hub_customer ON stg_data.hub_customer_hk = hub_customer.hub_customer_hk\n    WHERE hub_customer.hub_customer_hk IS NULL\n)\n\
SELECT\n    hub_customer_hk,\n    load_ts,\n    record_source,\n    customer_id_bk\nFROM new_stg_data\n;\n";

const SAT_CUSTOMER_LOAD: &str = "INSERT INTO dw.sat_customer (\n    hub_customer_hk,\n    load_ts,\n    record_source,\n    sat_customer_hd,\n    city,\n    state\n)\n\
WITH stg AS (\n    SELECT\n        *,\n        ENCODE(PUBLIC.DIGEST(ARRAY_TO_STRING(ARRAY[stg.customer_id::TEXT], ','), 'sha256'), 'hex') AS hub_customer_hk,\n        ENCODE(PUBLIC.DIGEST(ARRAY_TO_STRING(ARRAY[stg.city::TEXT, stg.state::TEXT], ','), 'sha256'), 'hex') AS sat_customer_hd\n    FROM public.customer AS stg\n),\n\
new_stg_data AS (\n    SELECT stg.*\n    FROM stg\n    LEFT JOIN dw.sat_customer ON\n        stg.hub_customer_hk = sat_customer.hub_customer_hk AND\n        stg.sat_customer_hd = sat_customer.sat_customer_hd\n    WHERE sat_customer.hub_customer_hk IS NULL\n)\n\
SELECT\n    hub_customer_hk,\n    (CURRENT_TIMESTAMP AT TIME ZONE 'UTC')::TIMESTAMP WITHOUT TIME ZONE AS load_ts,\n    'public' AS record_source,\n    sat_customer_hd,\n    city,\n    state\nFROM new_stg_data\n;\n";

#[test]
fn hub_statements_are_ghost_records_then_load() {
    let batch = dv_data_loader_hub_dml(&schema(vec![customer()]));
    assert!(batch.blocked.is_empty());
    assert_eq!(batch.sql, format!("{}{}", HUB_CUSTOMER_INIT, HUB_CUSTOMER_LOAD));
}

#[test]
fn hub_load_plan_reads_the_key_parts() {
    let two = key(
        "order",
        vec![part("order_line", "order_id", "hub_order"), part("order_line", "line_no", "hub_order")],
        Vec::new(),
    );
    let load = plan_hub_load("dw", &two).unwrap();
    assert_eq!(load.dw_schema, "dw");
    assert_eq!(load.business_key_name, "order");
    assert_eq!(load.source_schema, "public");
    assert_eq!(load.source_table, "order_line");
    assert_eq!(load.key_columns.len(), 2);
    assert_eq!(load.key_columns[0].source, "order_id");
    assert_eq!(load.key_columns[0].alias, "order_id");
    assert_eq!(load.key_columns[1].source, "line_no");
    let sql = load.load_statement();
    assert!(sql.contains("ARRAY[stg.order_id::TEXT, stg.line_no::TEXT]"));
    assert!(sql.contains(",\n        stg.order_id::TEXT AS order_id_bk,\n        stg.line_no::TEXT AS line_no_bk\n"));
    let init = load.init_statement();
    assert!(init.contains(",\n    '-1'::TEXT AS order_id_bk,\n    '-1'::TEXT AS line_no_bk\n"));
    assert!(init.contains(",\n    '-2'::TEXT AS order_id_bk,\n    '-2'::TEXT AS line_no_bk\n"));
    assert_eq!(init.matches("WHERE NOT initialized.is_initialized").count(), 2);
}

#[test]
fn satellite_statement_joins_on_hash_key_and_hash_diff() {
    let batch = key_satellites_dml("dw", &customer(), 0);
    assert!(batch.blocked.is_empty());
    assert!(batch.sql.starts_with(SAT_CUSTOMER_LOAD));
    let load = plan_satellite_load("dw", &customer(), "customer", false).unwrap();
    assert_eq!(load.load_statement(), SAT_CUSTOMER_LOAD);
    assert_eq!(load.key_sources, vec!["customer_id".to_string()]);
    assert_eq!(load.descriptor_columns.len(), 2);
    assert_eq!(load.descriptor_columns[1].source, "state");
    assert_eq!(load.source_table, "customer");
}

#[test]
fn sensitive_satellite_is_loaded_apart() {
    let load = plan_satellite_load("dw", &customer(), "customer", true).unwrap();
    assert!(load.is_sensitive);
    assert_eq!(load.descriptor_columns.len(), 1);
    assert_eq!(load.descriptor_columns[0].alias, "zip");
    let sql = load.load_statement();
    assert!(sql.starts_with("INSERT INTO dw.sat_customer_sensitive (\n    hub_customer_hk,\n    load_ts,\n    record_source,\n    sat_customer_sensitive_hd,\n    zip\n)\n"));
    assert!(sql.contains("ARRAY[stg.zip::TEXT], ','), 'sha256'), 'hex') AS sat_customer_sensitive_hd\n"));
    assert!(sql.contains("stg.sat_customer_sensitive_hd = sat_customer_sensitive.sat_customer_sensitive_hd\n"));
}

#[test]
fn load_is_hubs_then_satellites_in_order() {
    let seller = key("seller", vec![part("seller", "seller_id", "hub_seller")], vec![descriptor("seller", "city", false)]);
    let dv = schema(vec![customer(), seller]);
    let batch = dv_data_loader(&dv);
    assert!(batch.blocked.is_empty());
    let hubs = dv_data_loader_hub_dml(&dv);
    let satellites = dv_data_loader_sat_dml(&dv);
    assert_eq!(batch.sql, format!("{}{}", hubs.sql, satellites.sql));
    let order: Vec<usize> = [
        "INSERT INTO dw.hub_customer (",
        "INSERT INTO dw.hub_seller (",
        "INSERT INTO dw.sat_customer (",
        "INSERT INTO dw.sat_customer_sensitive (",
        "INSERT INTO dw.sat_seller (",
    ]
    .iter()
    .map(|head| batch.sql.find(head).unwrap())
    .collect();
    assert!(order.windows(2).all(|pair| pair[0] < pair[1]));
    assert_eq!(batch.sql.matches("INSERT INTO").count(), 7);
}

#[test]
fn synthesis_gives_the_same_hash_each_run() {
    let first = dv_data_loader(&schema(vec![customer()]));
    let second = dv_data_loader(&schema(vec![customer()]));
    assert_eq!(first.sql, second.sql);
    let ab = digest_sql(&vec!["a".to_string(), "b".to_string()]);
    assert_eq!(ab, "ENCODE(PUBLIC.DIGEST(ARRAY_TO_STRING(ARRAY[stg.a::TEXT, stg.b::TEXT], ','), 'sha256'), 'hex')");
    assert_eq!(ab, digest_sql(&vec!["a".to_string(), "b".to_string()]));
    assert_ne!(ab, digest_sql(&vec!["a".to_string(), "c".to_string()]));
    assert_ne!(ab, digest_sql(&vec!["b".to_string(), "a".to_string()]));
    assert_eq!(digest_sql(&Vec::new()), "ENCODE(PUBLIC.DIGEST(ARRAY_TO_STRING(ARRAY[], ','), 'sha256'), 'hex')");
}

#[test]
fn satellite_uses_the_hash_key_of_its_hub() {
    let two = key(
        "order",
        vec![part("order_line", "order_id", "hub_order"), part("order_line", "line_no", "hub_order")],
        vec![descriptor("order_line", "quantity", false)],
    );
    let hub = plan_hub_load("dw", &two).unwrap().load_statement();
    let satellite = plan_satellite_load("dw", &two, "order_line", false).unwrap().load_statement();
    let hash = format!("{} AS hub_order_hk", digest_sql(&vec!["order_id".to_string(), "line_no".to_string()]));
    assert!(hub.contains(&hash));
    assert!(satellite.contains(&hash));
}

#[test]
fn hub_without_key_parts_is_blocked() {
    let bare = key("bare", Vec::new(), vec![descriptor("bare", "note", false)]);
    assert_eq!(plan_hub_load("dw", &bare).unwrap_err(), LoadDefect::NoKeyParts);
    assert_eq!(plan_satellite_load("dw", &bare, "bare", false).unwrap_err(), LoadDefect::NoKeyParts);
    let batch = dv_data_loader(&schema(vec![bare, customer()]));
    assert_eq!(batch.blocked.len(), 2);
    assert_eq!(batch.blocked[0].table_name, "hub_bare");
    assert_eq!(batch.blocked[0].business_key, 0);
    assert_eq!(batch.blocked[0].defect, LoadDefect::NoKeyParts);
    assert_eq!(batch.blocked[1].table_name, "sat_bare");
    assert!(batch.sql.starts_with(HUB_CUSTOMER_INIT));
    assert!(!batch.sql.contains("bare"));
}

#[test]
fn key_part_defects_are_named_by_position() {
    let mut unsourced = part("t", "b", "hub_k");
    unsourced.source_columns.clear();
    let k = key("k", vec![part("t", "a", "hub_k"), unsourced], Vec::new());
    assert_eq!(plan_hub_load("dw", &k).unwrap_err(), LoadDefect::KeyPartWithoutSource { part: 1 });
    let mut untargeted = part("t", "a", "hub_k");
    untargeted.target_column = None;
    let mut unsourced = part("t", "b", "hub_k");
    unsourced.source_columns.clear();
    let k = key("k", vec![untargeted, unsourced], vec![descriptor("t", "d", false)]);
    assert_eq!(plan_hub_load("dw", &k).unwrap_err(), LoadDefect::KeyPartWithoutTarget { part: 0 });
    assert_eq!(
        plan_satellite_load("dw", &k, "t", false).unwrap_err(),
        LoadDefect::KeyPartWithoutSource { part: 1 }
    );
}

#[test]
fn satellite_needs_no_target_of_the_key_parts() {
    let mut untargeted = part("t", "a", "hub_k");
    untargeted.target_column = None;
    let k = key("k", vec![untargeted], vec![descriptor("t", "d", false)]);
    assert!(plan_hub_load("dw", &k).is_err());
    assert!(plan_satellite_load("dw", &k, "t", false).is_ok());
    let batch = dv_data_loader(&schema(vec![k]));
    assert_eq!(batch.blocked.len(), 1);
    assert_eq!(batch.blocked[0].table_name, "hub_k");
    assert!(batch.sql.starts_with("INSERT INTO dw.sat_t ("));
}

#[test]
fn descriptor_defect_blocks_only_its_satellite() {
    let mut unresolved = descriptor("customer", "zip", true);
    unresolved.descriptor_link.target_column = None;
    let mut unsourced = descriptor("customer", "phone", true);
    unsourced.descriptor_link.source_column = None;
    let k = key(
        "customer",
        vec![part("customer", "customer_id", "hub_customer")],
        vec![descriptor("customer", "city", false), unresolved, unsourced, descriptor("customer", "state", false)],
    );
    assert_eq!(
        plan_satellite_load("dw", &k, "customer", true).unwrap_err(),
        LoadDefect::DescriptorWithoutTarget { descriptor: 1 }
    );
    let batch = dv_data_loader(&schema(vec![k]));
    assert_eq!(batch.blocked.len(), 1);
    assert_eq!(batch.blocked[0].table_name, "sat_customer_sensitive");
    assert_eq!(batch.blocked[0].defect, LoadDefect::DescriptorWithoutTarget { descriptor: 1 });
    assert_eq!(batch.sql, format!("{}{}{}", HUB_CUSTOMER_INIT, HUB_CUSTOMER_LOAD, SAT_CUSTOMER_LOAD));
}

#[test]
fn descriptor_without_source_is_named_before_its_target() {
    let mut bare = descriptor("t", "d", false);
    bare.descriptor_link.source_column = None;
    bare.descriptor_link.target_column = None;
    let k = key("k", vec![part("t", "a", "hub_k")], vec![bare]);
    assert_eq!(
        plan_satellite_load("dw", &k, "t", false).unwrap_err(),
        LoadDefect::DescriptorWithoutSource { descriptor: 0 }
    );
}

#[test]
fn satellite_without_descriptors_is_refused() {
    assert_eq!(plan_satellite_load("dw", &customer(), "seller", false).unwrap_err(), LoadDefect::NoDescriptors);
    let empty = key("k", vec![part("t", "a", "hub_k")], Vec::new());
    let batch = dv_data_loader_sat_dml(&schema(vec![empty]));
    assert_eq!(batch.sql, "");
    assert!(batch.blocked.is_empty());
}

#[test]
fn empty_schema_loads_nothing() {
    let batch = dv_data_loader(&schema(Vec::new()));
    assert_eq!(batch.sql, "");
    assert!(batch.blocked.is_empty());
}
