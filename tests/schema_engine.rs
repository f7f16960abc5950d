use blue_scout::schema::{FieldDescriptor, MappingError, Schema, convert_value, find_name, join_strings};
use blue_scout::value::{DataType, DataTypeName, FilterType};

fn two_field_schema() -> Schema {
    Schema::new(
        "scout",
        vec![
            FieldDescriptor::new("team_number", DataTypeName::U32, Some("Team"), FilterType::Normal),
            FieldDescriptor::new("score", DataTypeName::U16, None, FilterType::Normal),
        ],
    )
}

#[test]
fn declared_two_fields_give_ddl_and_typed_access() {
    let schema = two_field_schema();
    assert!(schema.is_valid());
    assert_eq!(
        schema.create_table_sql(),
        "CREATE TABLE IF NOT EXISTS scout_entries (\n    id INTEGER PRIMARY KEY DEFAULT nextval('scout_entries_id_seq'),\n    team_number UINTEGER,\n    score USMALLINT\n);"
    );
    let mut r = schema
        .record(vec![DataType::U32(118), DataType::U16(42)])
        .expect("values match the declaration");
    assert_eq!(schema.get_field(&r, "score"), Some(DataType::U16(42)));
    assert!(!schema.set_field(&mut r, "score", DataType::U32(1)));
    assert_eq!(r.values[1], DataType::U16(42));
}

#[test]
fn migration_adds_only_the_missing_column() {
    let schema = two_field_schema();
    let existing = vec!["id".to_string(), "team_number".to_string()];
    let plan = schema.migration_statements(&existing);
    assert_eq!(plan, vec!["ALTER TABLE scout_entries ADD COLUMN score USMALLINT DEFAULT 0".to_string()]);
}

#[test]
fn migration_second_run_plans_nothing() {
    let schema = two_field_schema();
    let mut existing = vec!["id".to_string(), "team_number".to_string()];
    let first = schema.migration_statements(&existing);
    assert_eq!(first.len(), 1);
    existing.push("score".to_string());
    assert!(schema.migration_statements(&existing).is_empty());
}

#[test]
fn migration_defaults_follow_the_type() {
    let schema = Schema::new(
        "event",
        vec![
            FieldDescriptor::new("a", DataTypeName::I64, None, FilterType::Normal),
            FieldDescriptor::new("b", DataTypeName::String, None, FilterType::Normal),
            FieldDescriptor::new("c", DataTypeName::Bool, None, FilterType::Select),
            FieldDescriptor::new("d", DataTypeName::Float, None, FilterType::Unfiltered),
        ],
    );
    let plan = schema.migration_statements(&vec!["id".to_string()]);
    assert_eq!(
        plan,
        vec![
            "ALTER TABLE event_entries ADD COLUMN a BIGINT DEFAULT 0".to_string(),
            "ALTER TABLE event_entries ADD COLUMN b VARCHAR DEFAULT ''".to_string(),
            "ALTER TABLE event_entries ADD COLUMN c BOOLEAN DEFAULT FALSE".to_string(),
            "ALTER TABLE event_entries ADD COLUMN d REAL DEFAULT 0.0".to_string(),
        ]
    );
    let all = vec!["a".to_string(), "b".to_string(), "c".to_string(), "d".to_string()];
    assert!(schema.migration_statements(&all).is_empty());
}

#[test]
fn insert_and_select_statements_follow_declared_order() {
    let schema = two_field_schema();
    assert_eq!(schema.insert_sql(), "INSERT INTO scout_entries (team_number, score) VALUES (?, ?)");
    assert_eq!(schema.select_all_sql(), "SELECT * FROM scout_entries");
    assert_eq!(schema.table_name(), "scout_entries");
}

#[test]
fn names_ddl_and_bind_params_share_one_order() {
    let schema = two_field_schema();
    let r = schema.record(vec![DataType::U32(7), DataType::U16(3)]).unwrap();
    let names = schema.field_names();
    let params = schema.bind_params(&r);
    assert_eq!(names, vec!["team_number".to_string(), "score".to_string()]);
    for (i, name) in names.iter().enumerate() {
        assert_eq!(schema.get_field(&r, name), Some(params[i].clone()));
    }
    let ddl = schema.create_table_sql();
    assert!(ddl.find("team_number UINTEGER").unwrap() < ddl.find("score USMALLINT").unwrap());
}

#[test]
fn unknown_names_read_nothing_and_store_nothing() {
    let schema = two_field_schema();
    let mut r = schema.record(vec![DataType::U32(7), DataType::U16(3)]).unwrap();
    assert_eq!(schema.get_field(&r, "Score"), None);
    assert_eq!(schema.get_field(&r, ""), None);
    assert!(!schema.set_field(&mut r, "points", DataType::U16(1)));
    assert_eq!(r.values, vec![DataType::U32(7), DataType::U16(3)]);
    assert_eq!(schema.get_field_type("points"), None);
    assert_eq!(schema.get_pretty_name("points"), None);
}

#[test]
fn set_field_stores_a_value_of_the_declared_type() {
    let schema = two_field_schema();
    let mut r = schema.record(vec![DataType::U32(7), DataType::U16(3)]).unwrap();
    assert!(schema.set_field(&mut r, "score", DataType::U16(9)));
    assert_eq!(r.values, vec![DataType::U32(7), DataType::U16(9)]);
    assert!(!schema.set_field(&mut r, "team_number", DataType::String("7".to_string())));
    assert_eq!(r.values, vec![DataType::U32(7), DataType::U16(9)]);
}

#[test]
fn record_rejects_values_that_do_not_match() {
    let schema = two_field_schema();
    assert!(schema.record(vec![DataType::U32(7)]).is_none());
    assert!(schema.record(vec![DataType::U16(7), DataType::U16(3)]).is_none());
}

#[test]
fn metadata_tables_and_lookups() {
    let schema = two_field_schema();
    assert_eq!(
        schema.field_metadata(),
        vec![("team_number".to_string(), DataTypeName::U32), ("score".to_string(), DataTypeName::U16)]
    );
    assert_eq!(
        schema.field_pretty_names(),
        vec![("team_number".to_string(), "Team".to_string()), ("score".to_string(), "score".to_string())]
    );
    assert_eq!(schema.field_filters()[1], ("score".to_string(), FilterType::Normal));
    assert_eq!(schema.get_pretty_name("team_number"), Some("Team".to_string()));
    assert_eq!(schema.get_field_type("score"), Some(DataTypeName::U16));
    assert_eq!(schema.find_field("score"), Some(1));
}

#[test]
fn duplicate_names_make_a_declaration_invalid() {
    let schema = Schema::new(
        "x",
        vec![
            FieldDescriptor::new("a", DataTypeName::U16, None, FilterType::Normal),
            FieldDescriptor::new("a", DataTypeName::U32, None, FilterType::Normal),
        ],
    );
    assert!(!schema.is_valid());
    assert_eq!(schema.find_field("a"), Some(0));
}

#[test]
fn row_round_trip_through_bind_params() {
    let schema = two_field_schema();
    let r = schema.record(vec![DataType::U32(118), DataType::U16(42)]).unwrap();
    let mut row = vec![DataType::I64(5)];
    row.extend(schema.bind_params(&r));
    let back = schema.map_row(&row).unwrap();
    assert_eq!(back.values, r.values);
}

#[test]
fn short_row_reports_the_missing_column() {
    let schema = two_field_schema();
    let row = vec![DataType::I64(1), DataType::U32(118)];
    assert_eq!(schema.decode_row(&row), Err(MappingError::MissingColumn(2)));
}

#[test]
fn mistyped_column_is_reported() {
    let schema = two_field_schema();
    let row = vec![DataType::I64(1), DataType::String("x".to_string()), DataType::U16(1)];
    assert_eq!(schema.decode_row(&row), Err(MappingError::InvalidType(1, DataTypeName::U32)));
    let row = vec![DataType::I64(1), DataType::U32(2), DataType::I64(70000)];
    assert_eq!(schema.decode_row(&row), Err(MappingError::InvalidType(2, DataTypeName::U16)));
}

#[test]
fn integer_columns_convert_within_range() {
    assert_eq!(convert_value(&DataType::I64(42), DataTypeName::U16), Some(DataType::U16(42)));
    assert_eq!(convert_value(&DataType::I32(-1), DataTypeName::U32), None);
    assert_eq!(convert_value(&DataType::U64(u64::MAX), DataTypeName::I64), None);
    assert_eq!(convert_value(&DataType::U16(65535), DataTypeName::I16), None);
    assert_eq!(convert_value(&DataType::I16(-5), DataTypeName::I64), Some(DataType::I64(-5)));
    assert_eq!(convert_value(&DataType::Bool(true), DataTypeName::Bool), Some(DataType::Bool(true)));
    assert_eq!(convert_value(&DataType::Bool(true), DataTypeName::U16), None);
    assert_eq!(convert_value(&DataType::Float(0x3f80_0000), DataTypeName::Float), Some(DataType::Float(0x3f80_0000)));
    assert_eq!(convert_value(&DataType::String("1".to_string()), DataTypeName::U16), None);
}

#[test]
fn find_and_join_strings() {
    let v = vec!["L1".to_string(), "L3".to_string()];
    assert_eq!(join_strings(&v, ", "), "L1, L3");
    assert_eq!(join_strings(&Vec::new(), ", "), "");
    assert_eq!(find_name(&v, "L3"), Some(1));
    assert_eq!(find_name(&v, "L2"), None);
}
