use blue_scout::data::{DataPoint, InsertDataArgs, extract_checkbox, FIELD_COUNT};
use blue_scout::error::BlueScoutError;
use blue_scout::schema::MappingError;
use blue_scout::value::{DataType, DataTypeName, FilterType};

fn sample() -> DataPoint {
    DataPoint {
        name: "Ana".to_string(),
        match_number: 12,
        team_number: 118,
        auto_coral: 2,
        auto_algae: 1,
        auto_leave: true,
        algae_clear: false,
        l1_coral: 1,
        l2_coral: 0,
        l3_coral: 3,
        l4_coral: 4,
        dropped_coral: 1,
        algae_barge: 2,
        algae_floor_hole: 1,
        climb: "Deep".to_string(),
        defense_bot: false,
        notes: "fast".to_string(),
    }
}

fn same(a: &DataPoint, b: &DataPoint) -> bool {
    a.to_sql() == b.to_sql()
}

#[test]
fn field_names_follow_the_declaration() {
    let names = DataPoint::field_names();
    assert_eq!(names.len(), FIELD_COUNT);
    assert_eq!(names[0], "name");
    assert_eq!(names[3], "auto_coral");
    assert_eq!(names[4], "auto_algae");
    assert_eq!(names[16], "notes");
    let meta = DataPoint::field_metadata();
    assert_eq!(meta[2], ("team_number".to_string(), DataTypeName::U32));
    assert_eq!(meta[5], ("auto_leave".to_string(), DataTypeName::Bool));
    let pretty = DataPoint::field_pretty_names();
    assert_eq!(pretty[13], ("algae_floor_hole".to_string(), "Algae Floor Hole".to_string()));
    let filters = DataPoint::field_filters();
    assert_eq!(filters[14], ("climb".to_string(), FilterType::Checklist));
    assert_eq!(filters[16], ("notes".to_string(), FilterType::Unfiltered));
}

#[test]
fn insert_statement_columns_match_bind_order() {
    let sql = DataPoint::get_insert_sql();
    let expected_columns = DataPoint::field_names().join(", ");
    assert_eq!(
        sql,
        format!("INSERT INTO scout_entries ({expected_columns}) VALUES (?, ?, ?, ?, ?, ?, ?, ?, ?, ?, ?, ?, ?, ?, ?, ?, ?)")
    );
    let r = sample();
    let params = r.to_sql();
    for (i, name) in DataPoint::field_names().iter().enumerate() {
        assert_eq!(r.get_field(name), Some(params[i].clone()));
    }
    assert_eq!(params[3], DataType::U16(2));
    assert_eq!(params[4], DataType::U16(1));
}

#[test]
fn create_table_lists_every_field_in_order() {
    let ddl = DataPoint::get_create_table_sql();
    assert!(ddl.starts_with(
        "CREATE TABLE IF NOT EXISTS scout_entries (\n    id INTEGER PRIMARY KEY DEFAULT nextval('scout_entries_id_seq'),\n    name VARCHAR,\n    match_number USMALLINT,\n    team_number UINTEGER,"
    ));
    assert!(ddl.ends_with("defense_bot BOOLEAN,\n    notes VARCHAR\n);"));
    assert_eq!(DataPoint::get_select_sql(), "SELECT * FROM scout_entries");
}

#[test]
fn get_field_reads_declared_fields() {
    let r = sample();
    assert_eq!(r.get_field("team_number"), Some(DataType::U32(118)));
    assert_eq!(r.get_field("climb"), Some(DataType::String("Deep".to_string())));
    assert_eq!(r.get_field("auto_leave"), Some(DataType::Bool(true)));
    assert_eq!(r.get_field("Team"), None);
    assert_eq!(r.get_field("id"), None);
}

#[test]
fn set_field_checks_name_and_type() {
    let mut r = sample();
    assert!(r.set_field("l4_coral", DataType::U16(9)));
    assert_eq!(r.l4_coral, 9);
    assert!(!r.set_field("l4_coral", DataType::U32(1)));
    assert_eq!(r.l4_coral, 9);
    assert!(!r.set_field("nonexistent", DataType::U16(1)));
    assert!(same(&r, &{
        let mut s = sample();
        s.l4_coral = 9;
        s
    }));
    assert!(r.set_field("notes", DataType::String("slow".to_string())));
    assert_eq!(r.notes, "slow");
}

#[test]
fn field_type_and_pretty_name_lookups() {
    assert_eq!(DataPoint::get_field_type("match_number"), Some(DataTypeName::U16));
    assert_eq!(DataPoint::get_field_type("Match"), None);
    assert_eq!(DataPoint::get_pretty_name("defense_bot"), Some("Defense".to_string()));
    assert_eq!(DataPoint::get_pretty_name("defense"), None);
    assert_eq!(DataPoint::display_name("l2_coral"), "L2");
    assert_eq!(DataPoint::display_name("unknown_field"), "unknown_field");
}

#[test]
fn stored_record_reads_back_unchanged() {
    let r = sample();
    let mut row = vec![DataType::I64(31)];
    row.extend(r.to_sql());
    let back = DataPoint::map_datapoint(&row).expect("row matches the declaration");
    assert!(same(&back, &r));
    assert_eq!(back.name, "Ana");
    assert_eq!(back.notes, "fast");
}

#[test]
fn row_with_wider_integers_still_maps() {
    let r = sample();
    let mut row = vec![DataType::I32(1)];
    for v in r.to_sql() {
        row.push(match v {
            DataType::U16(x) => DataType::I64(i64::from(x)),
            other => other,
        });
    }
    let back = DataPoint::map_datapoint(&row).unwrap();
    assert!(same(&back, &r));
}

#[test]
fn short_or_mistyped_rows_fail() {
    let r = sample();
    let mut row = vec![DataType::I64(1)];
    row.extend(r.to_sql());
    row.pop();
    assert_eq!(DataPoint::map_datapoint(&row).unwrap_err(), MappingError::MissingColumn(17));
    let mut row = vec![DataType::I64(1)];
    row.extend(r.to_sql());
    row[6] = DataType::U16(1);
    assert_eq!(DataPoint::map_datapoint(&row).unwrap_err(), MappingError::InvalidType(6, DataTypeName::Bool));
    assert_eq!(DataPoint::map_datapoint(&vec![]).unwrap_err(), MappingError::MissingColumn(1));
}

#[test]
fn migration_of_a_partial_table() {
    let existing = vec!["id".to_string(), "name".to_string(), "match_number".to_string()];
    let plan = DataPoint::migration_statements(&existing);
    assert_eq!(plan.len(), FIELD_COUNT - 2);
    assert_eq!(plan[0], "ALTER TABLE scout_entries ADD COLUMN team_number UINTEGER DEFAULT 0");
    assert_eq!(plan[13], "ALTER TABLE scout_entries ADD COLUMN defense_bot BOOLEAN DEFAULT FALSE");
    assert_eq!(plan[14], "ALTER TABLE scout_entries ADD COLUMN notes VARCHAR DEFAULT ''");
    let mut after = existing.clone();
    after.extend(DataPoint::field_names());
    assert!(DataPoint::migration_statements(&after).is_empty());
}

#[test]
fn checkbox_is_ticked_only_by_on() {
    assert!(extract_checkbox(Some("on".to_string())));
    assert!(!extract_checkbox(Some("off".to_string())));
    assert!(!extract_checkbox(Some("On".to_string())));
    assert!(!extract_checkbox(None));
}

#[test]
fn form_arguments_become_a_record() {
    let args = InsertDataArgs {
        name: "Bo".to_string(),
        match_number: 3,
        team_number: 254,
        auto_coral: 1,
        auto_algae: 0,
        auto_leave: Some("on".to_string()),
        algae_clear: None,
        l1_coral: 0,
        l2_coral: 0,
        l3_coral: 0,
        l4_coral: 2,
        dropped_coral: 0,
        algae_barge: 0,
        algae_floor_hole: 0,
        climb: "Shallow".to_string(),
        defense_bot: Some("yes".to_string()),
        notes: String::new(),
    };
    let r = args.map_insert_data_args();
    assert!(r.auto_leave);
    assert!(!r.algae_clear);
    assert!(!r.defense_bot);
    assert_eq!(r.team_number, 254);
    assert_eq!(r.climb, "Shallow");
}

#[test]
fn mapping_errors_become_database_errors() {
    let e = BlueScoutError::from_mapping(MappingError::InvalidType(3, DataTypeName::U16));
    assert_eq!(e.message(), "Database Error: Invalid column type USMALLINT at index: 3");
    let e = BlueScoutError::from_mapping(MappingError::MissingColumn(17));
    assert_eq!(e.message(), "Database Error: Invalid column index: 17");
}

#[test]
fn error_messages() {
    assert_eq!(BlueScoutError::server_fn("x".to_string()).message(), "Server Error: x");
    assert_eq!(BlueScoutError::database_error("y".to_string()).message(), "Database Error: y");
    assert_eq!(BlueScoutError::api_error("z".to_string()).message(), "API Error: z");
    assert_eq!(BlueScoutError::custom("w".to_string()).message(), "Error: w");
}

#[test]
fn duplicate_copies_every_field() {
    let r = sample();
    assert!(same(&r.duplicate(), &r));
}
