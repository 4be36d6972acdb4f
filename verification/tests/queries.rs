use pg_auto_dw::model::queries::{
    build_object_pull, get_column_data, insert_into_build_call, insert_into_log,
    source_object_dw, INSERT_SCHEMA, SELECT_SCHEMA, SOURCE_COLUMN, SOURCE_OBJECTS_JSON,
    SOURCE_OBJECTS_TABLE_CHECK, SOURCE_TABLE_SAMPLE,
};

#[test]
fn build_object_pull_asks_for_one_build() {
    let sql = build_object_pull("df6fdea1-10c3-474c-ae62-e63def80bb0b");
    assert_eq!(
        sql,
        "\nWITH system AS (\n\tSELECT system_identifier AS id FROM pg_control_system() LIMIT 1\n)\nSELECT \nschema_name::TEXT AS schema_name, \ntable_name::TEXT AS table_name, \ncategory::TEXT AS column_category, \nbusiness_key_name::TEXT AS business_key_name, \ncolumn_name::TEXT AS column_name, \ncolumn_type_name::TEXT AS column_type_name, \nsystem.id::BIGINT AS system_id,\nso.table_oid::OID as table_oid,\nso.column_ordinal_position::SMALLINT AS column_ordinal_position\nFROM system, auto_dw.build_call AS bc\nLEFT JOIN auto_dw.transformer_responses AS t ON bc.fk_transformer_responses = t.pk_transformer_responses\nLEFT JOIN auto_dw.source_objects AS so ON t.fk_source_objects = so.pk_source_objects\nWHERE build_id = 'df6fdea1-10c3-474c-ae62-e63def80bb0b';\n"
    );
}

#[test]
fn build_call_carries_its_four_values() {
    let sql = insert_into_build_call("b-1", "Build", "RTD", "Ready to Deploy");
    assert!(sql.starts_with("\n    INSERT INTO auto_dw.build_call (fk_transformer_responses, build_id, build_flag, build_status)\n    WITH\n"));
    assert!(sql.ends_with(
        "    SELECT \n        pk_transformer_responses AS fk_transformer_responses,\n        'b-1' AS build_id,\n        'Build' AS build_flag,\n        'RTD' AS build_status\n    FROM sour_object_status\n    WHERE status = 'Ready to Deploy';\n"
    ));
    assert_eq!(sql.matches("b-1").count(), 1);
}

#[test]
fn source_object_refresh_holds_the_six_patterns_in_place() {
    let sql = source_object_dw("public", "cust.*", ".*", "a^", "b^", "c^");
    assert!(sql.starts_with("\nDROP TABLE IF EXISTS temp_source_objects;\n\nCREATE TEMPORARY TABLE temp_source_objects AS\nWITH\n"));
    assert!(sql.ends_with("WHERE source_objects.column_ordinal_position IS NULL;\n\nDROP TABLE IF EXISTS temp_source_objects;\n"));
    assert!(sql.contains("\tFROM source_objects_prep\n\t-- 'a^' ~ mach nothing.\n\tWHERE \n\t\tschema_name ~ 'public' AND\n\t\ttable_name ~ 'cust.*' AND\n\t\tcolumn_name ~ '.*'\n\t--- Removing Schemas\n\tEXCEPT\n"));
    assert!(sql.contains("\tFROM source_objects_prep\n\tWHERE \n\t\tschema_name ~ 'a^' AND\n\t\ttable_name ~ 'b^' AND\n\t\tcolumn_name ~ 'c^'\n)\nSELECT\n"));
    let neutral = source_object_dw("a^", "a^", "a^", "a^", "a^", "a^");
    assert_eq!(neutral.len() + "public".len() + "cust.*".len() + ".*".len() + 2 * 3, sql.len() + 6 * 2);
    assert_eq!(neutral.matches("~ 'a^'").count(), 6);
}

#[test]
fn catalog_lookup_names_schema_table_and_column() {
    let sql = get_column_data("dw", "sat_customer", "city");
    assert!(sql.ends_with(
        "WHERE pg_attribute.attnum > 0\nAND NOT pg_attribute.attisdropped\nAND pg_namespace.nspname = 'dw'\nAND pg_class.relname = 'sat_customer'\nAND pg_attribute.attname = 'city';\n"
    ));
    let columns: Vec<usize> = [
        "AS system_id",
        "AS schema_oid",
        "AS schema_name",
        "AS table_name",
        "AS table_oid",
        "AS column_name",
        "AS column_ordinal_position",
        "AS column_type_name",
    ]
    .iter()
    .map(|name| sql.find(name).unwrap())
    .collect();
    assert!(columns.windows(2).all(|pair| pair[0] < pair[1]));
}

#[test]
fn fixed_statements_name_their_tables() {
    assert!(INSERT_SCHEMA.contains("INSERT INTO auto_dw.dv_repo (build_id, schema)"));
    assert!(INSERT_SCHEMA.contains("VALUES ($1, $2)"));
    assert!(SELECT_SCHEMA.contains("FROM auto_dw.dv_repo"));
    assert!(SELECT_SCHEMA.contains("WHERE build_id = $1"));
    assert!(SOURCE_TABLE_SAMPLE.contains("SELECT * FROM Temp_Data;"));
    assert!(SOURCE_COLUMN.contains("FROM auto_dw.source_objects AS s"));
    assert!(SOURCE_OBJECTS_JSON.contains("'Column No: ' \t|| column_ordinal_position"));
}

#[test]
fn log_entry_carries_process_level_and_message() {
    assert_eq!(
        insert_into_log("BGWorker: Transformer Client", "INFO", "Beginning."),
        "\nINSERT INTO auto_dw.log (process, level, message)\nVALUES ('BGWorker: Transformer Client', 'INFO', 'Beginning.');\n"
    );
    assert!(SOURCE_OBJECTS_TABLE_CHECK.contains("table_schema = 'auto_dw' AND table_name = 'source_objects'"));
}
