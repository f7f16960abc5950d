use blue_scout::text::decimal_string;
use blue_scout::value::{DataType, DataTypeName, FilterType};

#[test]
fn tags_match_variants() {
    assert_eq!(DataType::U16(1).name(), DataTypeName::U16);
    assert_eq!(DataType::U32(1).name(), DataTypeName::U32);
    assert_eq!(DataType::U64(1).name(), DataTypeName::U64);
    assert_eq!(DataType::I16(1).name(), DataTypeName::I16);
    assert_eq!(DataType::I32(1).name(), DataTypeName::I32);
    assert_eq!(DataType::I64(1).name(), DataTypeName::I64);
    assert_eq!(DataType::String(String::new()).name(), DataTypeName::String);
    assert_eq!(DataType::Bool(false).name(), DataTypeName::Bool);
    assert_eq!(DataType::Float(0).name(), DataTypeName::Float);
}

#[test]
fn conversions_pick_the_matching_variant() {
    assert_eq!(DataType::from(7u16), DataType::U16(7));
    assert_eq!(DataType::from(7u32), DataType::U32(7));
    assert_eq!(DataType::from(7u64), DataType::U64(7));
    assert_eq!(DataType::from(-7i16), DataType::I16(-7));
    assert_eq!(DataType::from(-7i32), DataType::I32(-7));
    assert_eq!(DataType::from(-7i64), DataType::I64(-7));
    assert_eq!(DataType::from("x".to_string()), DataType::String("x".to_string()));
    assert_eq!(DataType::from(true), DataType::Bool(true));
    assert_ne!(DataType::U16(7), DataType::U32(7));
    assert_eq!(DataType::String("a".to_string()).duplicate(), DataType::String("a".to_string()));
}

#[test]
fn sql_types_and_defaults() {
    let all = [
        (DataTypeName::U16, "USMALLINT", "DEFAULT 0"),
        (DataTypeName::U32, "UINTEGER", "DEFAULT 0"),
        (DataTypeName::U64, "UBIGINT", "DEFAULT 0"),
        (DataTypeName::I16, "SMALLINT", "DEFAULT 0"),
        (DataTypeName::I32, "INTEGER", "DEFAULT 0"),
        (DataTypeName::I64, "BIGINT", "DEFAULT 0"),
        (DataTypeName::String, "VARCHAR", "DEFAULT ''"),
        (DataTypeName::Bool, "BOOLEAN", "DEFAULT FALSE"),
        (DataTypeName::Float, "REAL", "DEFAULT 0.0"),
    ];
    for (t, ty, default) in all {
        assert_eq!(t.sql_type(), ty);
        assert_eq!(t.sql_default(), default);
    }
}

#[test]
fn filter_names() {
    assert_eq!(FilterType::Normal.as_str(), "normal");
    assert_eq!(FilterType::Checklist.as_str(), "checklist");
    assert_eq!(FilterType::Select.as_str(), "select");
    assert_eq!(FilterType::Unfiltered.as_str(), "none");
}

#[test]
fn decimal_text() {
    assert_eq!(decimal_string(0), "0");
    assert_eq!(decimal_string(7), "7");
    assert_eq!(decimal_string(10), "10");
    assert_eq!(decimal_string(1234567890), "1234567890");
    assert_eq!(decimal_string(u128::MAX), u128::MAX.to_string());
}
