//! Tagged field values and their type tags.

use vstd::prelude::*;

verus! {

/// The type of a declared field, one of a closed set.
#[derive(Debug, Clone, Copy, PartialEq, Eq, Structural)]
#[non_exhaustive]
pub enum DataTypeName {
    U16,
    U32,
    U64,
    I16,
    I32,
    I64,
    String,
    Bool,
    Float,
}

/// A field value tagged with its type.
///
/// A `Float` holds the IEEE-754 binary32 bit pattern of the number.
#[derive(Debug, Clone)]
#[non_exhaustive]
pub enum DataType {
    U16(u16),
    U32(u32),
    U64(u64),
    I16(i16),
    I32(i32),
    I64(i64),
    String(String),
    Bool(bool),
    Float(u32),
}

impl DataType {
    /// The tag of a value.
    pub open spec fn tag(&self) -> DataTypeName {
        match *self {
            DataType::U16(_) => DataTypeName::U16,
            DataType::U32(_) => DataTypeName::U32,
            DataType::U64(_) => DataTypeName::U64,
            DataType::I16(_) => DataTypeName::I16,
            DataType::I32(_) => DataTypeName::I32,
            DataType::I64(_) => DataTypeName::I64,
            DataType::String(_) => DataTypeName::String,
            DataType::Bool(_) => DataTypeName::Bool,
            DataType::Float(_) => DataTypeName::Float,
        }
    }

    /// Returns the tag of this value.
    pub fn name(&self) -> (r: DataTypeName)
        ensures
            r == self.tag(),
    {
        match self {
            DataType::U16(_) => DataTypeName::U16,
            DataType::U32(_) => DataTypeName::U32,
            DataType::U64(_) => DataTypeName::U64,
            DataType::I16(_) => DataTypeName::I16,
            DataType::I32(_) => DataTypeName::I32,
            DataType::I64(_) => DataTypeName::I64,
            DataType::String(_) => DataTypeName::String,
            DataType::Bool(_) => DataTypeName::Bool,
            DataType::Float(_) => DataTypeName::Float,
        }
    }

    /// A copy of this value.
    pub fn duplicate(&self) -> (r: DataType)
        ensures
            r == *self,
    {
        match self {
            DataType::U16(x) => DataType::U16(*x),
            DataType::U32(x) => DataType::U32(*x),
            DataType::U64(x) => DataType::U64(*x),
            DataType::I16(x) => DataType::I16(*x),
            DataType::I32(x) => DataType::I32(*x),
            DataType::I64(x) => DataType::I64(*x),
            DataType::String(x) => DataType::String(x.clone()),
            DataType::Bool(x) => DataType::Bool(*x),
            DataType::Float(x) => DataType::Float(*x),
        }
    }

    /// Two values are the same when they have the same tag and payload.
    pub open spec fn same(&self, o: &DataType) -> bool {
        match (*self, *o) {
            (DataType::U16(a), DataType::U16(b)) => a == b,
            (DataType::U32(a), DataType::U32(b)) => a == b,
            (DataType::U64(a), DataType::U64(b)) => a == b,
            (DataType::I16(a), DataType::I16(b)) => a == b,
            (DataType::I32(a), DataType::I32(b)) => a == b,
            (DataType::I64(a), DataType::I64(b)) => a == b,
            (DataType::String(a), DataType::String(b)) => a@ == b@,
            (DataType::Bool(a), DataType::Bool(b)) => a == b,
            (DataType::Float(a), DataType::Float(b)) => a == b,
            _ => false,
        }
    }
}

impl PartialEq for DataType {
    fn eq(&self, o: &DataType) -> (r: bool)
        ensures
            r == self.same(o),
    {
        match (self, o) {
            (DataType::U16(a), DataType::U16(b)) => *a == *b,
            (DataType::U32(a), DataType::U32(b)) => *a == *b,
            (DataType::U64(a), DataType::U64(b)) => *a == *b,
            (DataType::I16(a), DataType::I16(b)) => *a == *b,
            (DataType::I32(a), DataType::I32(b)) => *a == *b,
            (DataType::I64(a), DataType::I64(b)) => *a == *b,
            (DataType::String(a), DataType::String(b)) => *a == *b,
            (DataType::Bool(a), DataType::Bool(b)) => *a == *b,
            (DataType::Float(a), DataType::Float(b)) => *a == *b,
            _ => false,
        }
    }
}

impl vstd::std_specs::cmp::PartialEqSpecImpl for DataType {
    open spec fn obeys_eq_spec() -> bool {
        true
    }

    open spec fn eq_spec(&self, o: &DataType) -> bool {
        self.same(o)
    }
}

impl From<u16> for DataType {
    fn from(v: u16) -> (r: DataType)
        ensures
            r == DataType::U16(v),
    {
        DataType::U16(v)
    }
}

impl vstd::std_specs::convert::FromSpecImpl<u16> for DataType {
    open spec fn obeys_from_spec() -> bool {
        true
    }

    open spec fn from_spec(v: u16) -> DataType {
        DataType::U16(v)
    }
}

impl From<u32> for DataType {
    fn from(v: u32) -> (r: DataType)
        ensures
            r == DataType::U32(v),
    {
        DataType::U32(v)
    }
}

impl vstd::std_specs::convert::FromSpecImpl<u32> for DataType {
    open spec fn obeys_from_spec() -> bool {
        true
    }

    open spec fn from_spec(v: u32) -> DataType {
        DataType::U32(v)
    }
}

impl From<u64> for DataType {
    fn from(v: u64) -> (r: DataType)
        ensures
            r == DataType::U64(v),
    {
        DataType::U64(v)
    }
}

impl vstd::std_specs::convert::FromSpecImpl<u64> for DataType {
    open spec fn obeys_from_spec() -> bool {
        true
    }

    open spec fn from_spec(v: u64) -> DataType {
        DataType::U64(v)
    }
}

impl From<i16> for DataType {
    fn from(v: i16) -> (r: DataType)
        ensures
            r == DataType::I16(v),
    {
        DataType::I16(v)
    }
}

impl vstd::std_specs::convert::FromSpecImpl<i16> for DataType {
    open spec fn obeys_from_spec() -> bool {
        true
    }

    open spec fn from_spec(v: i16) -> DataType {
        DataType::I16(v)
    }
}

impl From<i32> for DataType {
    fn from(v: i32) -> (r: DataType)
        ensures
            r == DataType::I32(v),
    {
        DataType::I32(v)
    }
}

impl vstd::std_specs::convert::FromSpecImpl<i32> for DataType {
    open spec fn obeys_from_spec() -> bool {
        true
    }

    open spec fn from_spec(v: i32) -> DataType {
        DataType::I32(v)
    }
}

impl From<i64> for DataType {
    fn from(v: i64) -> (r: DataType)
        ensures
            r == DataType::I64(v),
    {
        DataType::I64(v)
    }
}

impl vstd::std_specs::convert::FromSpecImpl<i64> for DataType {
    open spec fn obeys_from_spec() -> bool {
        true
    }

    open spec fn from_spec(v: i64) -> DataType {
        DataType::I64(v)
    }
}

impl From<String> for DataType {
    fn from(v: String) -> (r: DataType)
        ensures
            r == DataType::String(v),
    {
        DataType::String(v)
    }
}

impl vstd::std_specs::convert::FromSpecImpl<String> for DataType {
    open spec fn obeys_from_spec() -> bool {
        true
    }

    open spec fn from_spec(v: String) -> DataType {
        DataType::String(v)
    }
}

impl From<bool> for DataType {
    fn from(v: bool) -> (r: DataType)
        ensures
            r == DataType::Bool(v),
    {
        DataType::Bool(v)
    }
}

impl vstd::std_specs::convert::FromSpecImpl<bool> for DataType {
    open spec fn obeys_from_spec() -> bool {
        true
    }

    open spec fn from_spec(v: bool) -> DataType {
        DataType::Bool(v)
    }
}

/// The column type that stores a field of the given type.
pub open spec fn sql_type_text(t: DataTypeName) -> Seq<char> {
    match t {
        DataTypeName::U16 => "USMALLINT"@,
        DataTypeName::U32 => "UINTEGER"@,
        DataTypeName::U64 => "UBIGINT"@,
        DataTypeName::I16 => "SMALLINT"@,
        DataTypeName::I32 => "INTEGER"@,
        DataTypeName::I64 => "BIGINT"@,
        DataTypeName::String => "VARCHAR"@,
        DataTypeName::Bool => "BOOLEAN"@,
        DataTypeName::Float => "REAL"@,
    }
}

/// The default clause given to a column of the given type when it is added
/// to an existing table.
pub open spec fn sql_default_text(t: DataTypeName) -> Seq<char> {
    match t {
        DataTypeName::String => "DEFAULT ''"@,
        DataTypeName::Bool => "DEFAULT FALSE"@,
        DataTypeName::Float => "DEFAULT 0.0"@,
        _ => "DEFAULT 0"@,
    }
}

impl DataTypeName {
    /// The column type used for this field type.
    pub fn sql_type(&self) -> (r: &'static str)
        ensures
            r@ == sql_type_text(*self),
    {
        match self {
            DataTypeName::U16 => "USMALLINT",
            DataTypeName::U32 => "UINTEGER",
            DataTypeName::U64 => "UBIGINT",
            DataTypeName::I16 => "SMALLINT",
            DataTypeName::I32 => "INTEGER",
            DataTypeName::I64 => "BIGINT",
            DataTypeName::String => "VARCHAR",
            DataTypeName::Bool => "BOOLEAN",
            DataTypeName::Float => "REAL",
        }
    }

    /// The default clause for a column of this type added by migration.
    pub fn sql_default(&self) -> (r: &'static str)
        ensures
            r@ == sql_default_text(*self),
    {
        match self {
            DataTypeName::String => "DEFAULT ''",
            DataTypeName::Bool => "DEFAULT FALSE",
            DataTypeName::Float => "DEFAULT 0.0",
            _ => "DEFAULT 0",
        }
    }
}

/// How the presentation layer filters a column.
#[derive(Debug, Clone, Copy, PartialEq, Eq, Structural)]
#[non_exhaustive]
pub enum FilterType {
    Normal,
    Checklist,
    Select,
    Unfiltered,
}

/// The lower-case name of a filter class.
pub open spec fn filter_text(f: FilterType) -> Seq<char> {
    match f {
        FilterType::Normal => "normal"@,
        FilterType::Checklist => "checklist"@,
        FilterType::Select => "select"@,
        FilterType::Unfiltered => "none"@,
    }
}

impl FilterType {
    /// The lower-case name of this filter class, as the table filter expects it.
    pub fn as_str(&self) -> (r: &'static str)
        ensures
            r@ == filter_text(*self),
    {
        match self {
            FilterType::Normal => "normal",
            FilterType::Checklist => "checklist",
            FilterType::Select => "select",
            FilterType::Unfiltered => "none",
        }
    }
}

} // verus!
