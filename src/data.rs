//! The scouting record: one observation of one robot in one match.
//!
//! Changing a display name leaves storage alone; changing a field name
//! changes its column, and column renames are not migrated.

use vstd::prelude::*;
use crate::schema::{
    FieldDescriptor, FieldSpec, MappingError, Schema, SchemaSpec, accepts, cell, convert,
    create_table_text, decoded, distinct_names, field_value, holds, insert_text,
    lemma_decoded_round_trip, migration_text, names_of, position, table_text, types_of, views,
    with_field,
};
use crate::value::{DataType, DataTypeName, FilterType};

verus! {

/// The number of declared fields of a record.
pub const FIELD_COUNT: usize = 17;

/// One scouting observation.
#[derive(Debug, Clone)]
pub struct DataPoint {
    pub name: String,
    pub match_number: u16,
    pub team_number: u32,
    pub auto_coral: u16,
    pub auto_algae: u16,
    pub auto_leave: bool,
    pub algae_clear: bool,
    pub l1_coral: u16,
    pub l2_coral: u16,
    pub l3_coral: u16,
    pub l4_coral: u16,
    pub dropped_coral: u16,
    pub algae_barge: u16,
    pub algae_floor_hole: u16,
    pub climb: String,
    pub defense_bot: bool,
    pub notes: String,
}

/// The declaration of the record's fields, in their canonical order.
pub open spec fn data_point_fields() -> Seq<FieldSpec> {
    seq![
        FieldSpec { name: "name"@, data_type: DataTypeName::String, pretty_name: "Name"@, filter: FilterType::Normal },
        FieldSpec { name: "match_number"@, data_type: DataTypeName::U16, pretty_name: "Match"@, filter: FilterType::Normal },
        FieldSpec { name: "team_number"@, data_type: DataTypeName::U32, pretty_name: "Team"@, filter: FilterType::Normal },
        FieldSpec { name: "auto_coral"@, data_type: DataTypeName::U16, pretty_name: "Auto Coral"@, filter: FilterType::Normal },
        FieldSpec { name: "auto_algae"@, data_type: DataTypeName::U16, pretty_name: "Auto Algae"@, filter: FilterType::Normal },
        FieldSpec { name: "auto_leave"@, data_type: DataTypeName::Bool, pretty_name: "Auto Leave"@, filter: FilterType::Select },
        FieldSpec { name: "algae_clear"@, data_type: DataTypeName::Bool, pretty_name: "Algae Clear"@, filter: FilterType::Select },
        FieldSpec { name: "l1_coral"@, data_type: DataTypeName::U16, pretty_name: "L1"@, filter: FilterType::Normal },
        FieldSpec { name: "l2_coral"@, data_type: DataTypeName::U16, pretty_name: "L2"@, filter: FilterType::Normal },
        FieldSpec { name: "l3_coral"@, data_type: DataTypeName::U16, pretty_name: "L3"@, filter: FilterType::Normal },
        FieldSpec { name: "l4_coral"@, data_type: DataTypeName::U16, pretty_name: "L4"@, filter: FilterType::Normal },
        FieldSpec { name: "dropped_coral"@, data_type: DataTypeName::U16, pretty_name: "Dropped"@, filter: FilterType::Normal },
        FieldSpec { name: "algae_barge"@, data_type: DataTypeName::U16, pretty_name: "Algae Barge"@, filter: FilterType::Normal },
        FieldSpec { name: "algae_floor_hole"@, data_type: DataTypeName::U16, pretty_name: "Algae Floor Hole"@, filter: FilterType::Normal },
        FieldSpec { name: "climb"@, data_type: DataTypeName::String, pretty_name: "Climb"@, filter: FilterType::Checklist },
        FieldSpec { name: "defense_bot"@, data_type: DataTypeName::Bool, pretty_name: "Defense"@, filter: FilterType::Select },
        FieldSpec { name: "notes"@, data_type: DataTypeName::String, pretty_name: "Notes"@, filter: FilterType::Unfiltered },
    ]
}

/// The declaration of the record's entity.
pub open spec fn data_point_schema() -> SchemaSpec {
    SchemaSpec { entity: "scout"@, fields: data_point_fields() }
}

/// The field names of the record, in declared order.
pub open spec fn data_point_names() -> Seq<Seq<char>> {
    names_of(data_point_fields())
}

/// The field types of the record, in declared order.
pub open spec fn data_point_types() -> Seq<DataTypeName> {
    types_of(data_point_fields())
}

impl DataPoint {
    /// The record's fields as tagged values, in declared order.
    pub open spec fn values(&self) -> Seq<DataType> {
        seq![
            DataType::String(self.name),
            DataType::U16(self.match_number),
            DataType::U32(self.team_number),
            DataType::U16(self.auto_coral),
            DataType::U16(self.auto_algae),
            DataType::Bool(self.auto_leave),
            DataType::Bool(self.algae_clear),
            DataType::U16(self.l1_coral),
            DataType::U16(self.l2_coral),
            DataType::U16(self.l3_coral),
            DataType::U16(self.l4_coral),
            DataType::U16(self.dropped_coral),
            DataType::U16(self.algae_barge),
            DataType::U16(self.algae_floor_hole),
            DataType::String(self.climb),
            DataType::Bool(self.defense_bot),
            DataType::String(self.notes),
        ]
    }

    /// The declaration this record type is derived from.
    pub fn schema() -> (r: Schema)
        ensures
            r@ == data_point_schema(),
    {
        let mut fields: Vec<FieldDescriptor> = Vec::new();
        fields.push(FieldDescriptor::new("name", DataTypeName::String, Some("Name"), FilterType::Normal));
        fields.push(FieldDescriptor::new("match_number", DataTypeName::U16, Some("Match"), FilterType::Normal));
        fields.push(FieldDescriptor::new("team_number", DataTypeName::U32, Some("Team"), FilterType::Normal));
        fields.push(FieldDescriptor::new("auto_coral", DataTypeName::U16, Some("Auto Coral"), FilterType::Normal));
        fields.push(FieldDescriptor::new("auto_algae", DataTypeName::U16, Some("Auto Algae"), FilterType::Normal));
        fields.push(FieldDescriptor::new("auto_leave", DataTypeName::Bool, Some("Auto Leave"), FilterType::Select));
        fields.push(FieldDescriptor::new("algae_clear", DataTypeName::Bool, Some("Algae Clear"), FilterType::Select));
        fields.push(FieldDescriptor::new("l1_coral", DataTypeName::U16, Some("L1"), FilterType::Normal));
        fields.push(FieldDescriptor::new("l2_coral", DataTypeName::U16, Some("L2"), FilterType::Normal));
        fields.push(FieldDescriptor::new("l3_coral", DataTypeName::U16, Some("L3"), FilterType::Normal));
        fields.push(FieldDescriptor::new("l4_coral", DataTypeName::U16, Some("L4"), FilterType::Normal));
        fields.push(FieldDescriptor::new("dropped_coral", DataTypeName::U16, Some("Dropped"), FilterType::Normal));
        fields.push(FieldDescriptor::new("algae_barge", DataTypeName::U16, Some("Algae Barge"), FilterType::Normal));
        fields.push(FieldDescriptor::new("algae_floor_hole", DataTypeName::U16, Some("Algae Floor Hole"), FilterType::Normal));
        fields.push(FieldDescriptor::new("climb", DataTypeName::String, Some("Climb"), FilterType::Checklist));
        fields.push(FieldDescriptor::new("defense_bot", DataTypeName::Bool, Some("Defense"), FilterType::Select));
        fields.push(FieldDescriptor::new("notes", DataTypeName::String, Some("Notes"), FilterType::Unfiltered));
        let r = Schema::new("scout", fields);
        proof {
            assert(r@.fields =~= data_point_fields());
        }
        r
    }

    /// The value of field `i`.
    fn value_at(&self, i: usize) -> (r: DataType)
        requires
            i < FIELD_COUNT,
        ensures
            r == self.values()[i as int],
    {
        if i == 0 {
            DataType::String(self.name.clone())
        } else if i == 1 {
            DataType::U16(self.match_number)
        } else if i == 2 {
            DataType::U32(self.team_number)
        } else if i == 3 {
            DataType::U16(self.auto_coral)
        } else if i == 4 {
            DataType::U16(self.auto_algae)
        } else if i == 5 {
            DataType::Bool(self.auto_leave)
        } else if i == 6 {
            DataType::Bool(self.algae_clear)
        } else if i == 7 {
            DataType::U16(self.l1_coral)
        } else if i == 8 {
            DataType::U16(self.l2_coral)
        } else if i == 9 {
            DataType::U16(self.l3_coral)
        } else if i == 10 {
            DataType::U16(self.l4_coral)
        } else if i == 11 {
            DataType::U16(self.dropped_coral)
        } else if i == 12 {
            DataType::U16(self.algae_barge)
        } else if i == 13 {
            DataType::U16(self.algae_floor_hole)
        } else if i == 14 {
            DataType::String(self.climb.clone())
        } else if i == 15 {
            DataType::Bool(self.defense_bot)
        } else {
            DataType::String(self.notes.clone())
        }
    }

    /// Stores `value` in field `i`.
    fn put(&mut self, i: usize, value: DataType)
        requires
            i < FIELD_COUNT,
            value.tag() == data_point_types()[i as int],
        ensures
            final(self).values() == old(self).values().update(i as int, value),
    {
        proof {
            assert(data_point_types()[i as int] == data_point_fields()[i as int].data_type);
        }
        match value {
            DataType::String(x) => {
                if i == 0 {
                    self.name = x;
                } else if i == 14 {
                    self.climb = x;
                } else {
                    self.notes = x;
                }
            },
            DataType::U16(x) => {
                if i == 1 {
                    self.match_number = x;
                } else if i == 3 {
                    self.auto_coral = x;
                } else if i == 4 {
                    self.auto_algae = x;
                } else if i == 7 {
                    self.l1_coral = x;
                } else if i == 8 {
                    self.l2_coral = x;
                } else if i == 9 {
                    self.l3_coral = x;
                } else if i == 10 {
                    self.l4_coral = x;
                } else if i == 11 {
                    self.dropped_coral = x;
                } else if i == 12 {
                    self.algae_barge = x;
                } else {
                    self.algae_floor_hole = x;
                }
            },
            DataType::U32(x) => {
                self.team_number = x;
            },
            DataType::Bool(x) => {
                if i == 5 {
                    self.auto_leave = x;
                } else if i == 6 {
                    self.algae_clear = x;
                } else {
                    self.defense_bot = x;
                }
            },
            _ => {},
        }
        proof {
            assert(final(self).values() =~= old(self).values().update(i as int, value));
        }
    }

    /// The record's fields as bind parameters, in declared order: the order
    /// of the columns of the insert statement.
    pub fn to_sql(&self) -> (r: Vec<DataType>)
        ensures
            r@ == self.values(),
    {
        let mut r: Vec<DataType> = Vec::new();
        let mut i: usize = 0;
        while i < FIELD_COUNT
            invariant
                i <= FIELD_COUNT,
                r@ == self.values().take(i as int),
            decreases FIELD_COUNT - i,
        {
            r.push(self.value_at(i));
            i += 1;
            proof {
                assert(r@ =~= self.values().take(i as int));
            }
        }
        proof {
            assert(self.values().take(i as int) =~= self.values());
        }
        r
    }

    /// A copy of this record.
    pub fn duplicate(&self) -> (r: DataPoint)
        ensures
            r == *self,
    {
        DataPoint {
            name: self.name.clone(),
            match_number: self.match_number,
            team_number: self.team_number,
            auto_coral: self.auto_coral,
            auto_algae: self.auto_algae,
            auto_leave: self.auto_leave,
            algae_clear: self.algae_clear,
            l1_coral: self.l1_coral,
            l2_coral: self.l2_coral,
            l3_coral: self.l3_coral,
            l4_coral: self.l4_coral,
            dropped_coral: self.dropped_coral,
            algae_barge: self.algae_barge,
            algae_floor_hole: self.algae_floor_hole,
            climb: self.climb.clone(),
            defense_bot: self.defense_bot,
            notes: self.notes.clone(),
        }
    }

    /// Builds a record from values of the declared types, in declared order.
    fn from_values(v: &Vec<DataType>) -> (r: DataPoint)
        requires
            v@.len() == FIELD_COUNT,
            forall|i: int| 0 <= i < FIELD_COUNT ==> #[trigger] v@[i].tag() == data_point_types()[i],
        ensures
            r.values() == v@,
    {
        assert(v@[0].tag() == data_point_types()[0]);
        assert(v@[1].tag() == data_point_types()[1]);
        assert(v@[2].tag() == data_point_types()[2]);
        assert(v@[3].tag() == data_point_types()[3]);
        assert(v@[4].tag() == data_point_types()[4]);
        assert(v@[5].tag() == data_point_types()[5]);
        assert(v@[6].tag() == data_point_types()[6]);
        assert(v@[7].tag() == data_point_types()[7]);
        assert(v@[8].tag() == data_point_types()[8]);
        assert(v@[9].tag() == data_point_types()[9]);
        assert(v@[10].tag() == data_point_types()[10]);
        assert(v@[11].tag() == data_point_types()[11]);
        assert(v@[12].tag() == data_point_types()[12]);
        assert(v@[13].tag() == data_point_types()[13]);
        assert(v@[14].tag() == data_point_types()[14]);
        assert(v@[15].tag() == data_point_types()[15]);
        assert(v@[16].tag() == data_point_types()[16]);
        let r = DataPoint {
            name: string_of(&v[0]),
            match_number: u16_of(&v[1]),
            team_number: u32_of(&v[2]),
            auto_coral: u16_of(&v[3]),
            auto_algae: u16_of(&v[4]),
            auto_leave: bool_of(&v[5]),
            algae_clear: bool_of(&v[6]),
            l1_coral: u16_of(&v[7]),
            l2_coral: u16_of(&v[8]),
            l3_coral: u16_of(&v[9]),
            l4_coral: u16_of(&v[10]),
            dropped_coral: u16_of(&v[11]),
            algae_barge: u16_of(&v[12]),
            algae_floor_hole: u16_of(&v[13]),
            climb: string_of(&v[14]),
            defense_bot: bool_of(&v[15]),
            notes: string_of(&v[16]),
        };
        proof {
            assert(r.values() =~= v@);
        }
        r
    }

    /// Maps a stored row onto a record: column 0 is the key and is skipped,
    /// column `i + 1` holds field `i`. Fails on the first column that is
    /// missing or cannot be read as its field's type.
    pub fn map_datapoint(row: &Vec<DataType>) -> (r: Result<DataPoint, MappingError>)
        ensures
            match (r, decoded(row@, data_point_types())) {
                (Ok(d), Ok(vs)) => d.values() == vs,
                (Err(e), Err(d)) => e == d,
                _ => false,
            },
    {
        let schema = Self::schema();
        match schema.decode_row(row) {
            Ok(vs) => {
                proof {
                    lemma_decoded_tags(row@, data_point_types());
                }
                Ok(Self::from_values(&vs))
            },
            Err(e) => Err(e),
        }
    }

    /// The value of the field called `field_name`, if one is declared.
    pub fn get_field(&self, field_name: &str) -> (r: Option<DataType>)
        ensures
            r == field_value(data_point_fields(), self.values(), field_name@),
    {
        let schema = Self::schema();
        match schema.find_field(field_name) {
            Some(i) => Some(self.value_at(i)),
            None => None,
        }
    }

    /// Stores `value` in the field called `field_name` when that field is
    /// declared and `value` has its type; otherwise leaves the record as it
    /// was. Returns whether the value was stored.
    pub fn set_field(&mut self, field_name: &str, value: DataType) -> (r: bool)
        ensures
            r == accepts(data_point_fields(), field_name@, value),
            r ==> final(self).values() == with_field(
                data_point_fields(),
                old(self).values(),
                field_name@,
                value,
            ),
            !r ==> *final(self) == *old(self),
    {
        let schema = Self::schema();
        match schema.find_field(field_name) {
            Some(i) => {
                proof {
                    assert(data_point_types()[i as int] == schema@.fields[i as int].data_type);
                }
                if value.name() == schema.fields[i].data_type {
                    self.put(i, value);
                    true
                } else {
                    false
                }
            },
            None => false,
        }
    }

    /// The `(name, type)` table of the record's fields, in declared order.
    pub fn field_metadata() -> (r: Vec<(String, DataTypeName)>)
        ensures
            r@.len() == FIELD_COUNT,
            forall|j: int|
                0 <= j < r@.len() ==> r@[j].0@ == data_point_names()[j] && r@[j].1
                    == data_point_types()[j],
    {
        Self::schema().field_metadata()
    }

    /// The `(name, display name)` table of the record's fields, in declared order.
    pub fn field_pretty_names() -> (r: Vec<(String, String)>)
        ensures
            r@.len() == FIELD_COUNT,
            forall|j: int|
                0 <= j < r@.len() ==> r@[j].0@ == data_point_names()[j] && r@[j].1@
                    == data_point_fields()[j].pretty_name,
    {
        Self::schema().field_pretty_names()
    }

    /// The `(name, filter class)` table of the record's fields, in declared order.
    pub fn field_filters() -> (r: Vec<(String, FilterType)>)
        ensures
            r@.len() == FIELD_COUNT,
            forall|j: int|
                0 <= j < r@.len() ==> r@[j].0@ == data_point_names()[j] && r@[j].1
                    == data_point_fields()[j].filter,
    {
        Self::schema().field_filters()
    }

    /// The record's field names, in declared order.
    pub fn field_names() -> (r: Vec<String>)
        ensures
            views(r@) == data_point_names(),
    {
        Self::schema().field_names()
    }

    /// The display name of the field called `field_name`, if one is declared.
    pub fn get_pretty_name(field_name: &str) -> (r: Option<String>)
        ensures
            match position(data_point_names(), field_name@) {
                Some(i) => r matches Some(p) && p@ == data_point_fields()[i].pretty_name,
                None => r is None,
            },
    {
        Self::schema().get_pretty_name(field_name)
    }

    /// The display name of the field called `field_name`, or `field_name`
    /// itself when no such field is declared.
    pub fn display_name(field_name: &str) -> (r: String)
        ensures
            r@ == match position(data_point_names(), field_name@) {
                Some(i) => data_point_fields()[i].pretty_name,
                None => field_name@,
            },
    {
        Self::schema().display_name(field_name)
    }

    /// The type of the field called `field_name`, if one is declared.
    pub fn get_field_type(field_name: &str) -> (r: Option<DataTypeName>)
        ensures
            r == match position(data_point_names(), field_name@) {
                Some(i) => Some(data_point_types()[i]),
                None => None,
            },
    {
        Self::schema().get_field_type(field_name)
    }

    /// The statement that creates the record's table.
    pub fn get_create_table_sql() -> (r: String)
        ensures
            r@ == create_table_text("scout"@, data_point_fields()),
    {
        Self::schema().create_table_sql()
    }

    /// The statement that inserts one record; `to_sql` gives its parameters.
    pub fn get_insert_sql() -> (r: String)
        ensures
            r@ == insert_text("scout"@, data_point_fields()),
    {
        Self::schema().insert_sql()
    }

    /// The statement that reads every stored record.
    pub fn get_select_sql() -> (r: String)
        ensures
            r@ == "SELECT * FROM "@ + table_text("scout"@),
    {
        Self::schema().select_all_sql()
    }

    /// The statements that add the record's missing columns to a table whose
    /// columns are `existing`.
    pub fn migration_statements(existing: &Vec<String>) -> (r: Vec<String>)
        ensures
            views(r@) == migration_text("scout"@, data_point_fields(), views(existing@)),
    {
        Self::schema().migration_statements(existing)
    }
}

fn string_of(v: &DataType) -> (r: String)
    requires
        v is String,
    ensures
        *v == DataType::String(r),
{
    match v {
        DataType::String(x) => x.clone(),
        _ => String::new(),
    }
}

fn u16_of(v: &DataType) -> (r: u16)
    requires
        v is U16,
    ensures
        *v == DataType::U16(r),
{
    match v {
        DataType::U16(x) => *x,
        _ => 0,
    }
}

fn u32_of(v: &DataType) -> (r: u32)
    requires
        v is U32,
    ensures
        *v == DataType::U32(r),
{
    match v {
        DataType::U32(x) => *x,
        _ => 0,
    }
}

fn bool_of(v: &DataType) -> (r: bool)
    requires
        v is Bool,
    ensures
        *v == DataType::Bool(r),
{
    match v {
        DataType::Bool(x) => *x,
        _ => false,
    }
}

/// Values read by position have the declared types.
proof fn lemma_decoded_tags(row: Seq<DataType>, types: Seq<DataTypeName>)
    requires
        decoded(row, types) is Ok,
    ensures
        decoded(row, types)->Ok_0.len() == types.len(),
        forall|i: int|
            0 <= i < types.len() ==> (#[trigger] decoded(row, types)->Ok_0[i]).tag() == types[i],
    decreases types.len(),
{
    if types.len() > 0 {
        lemma_decoded_tags(row, types.drop_last());
        let vs = decoded(row, types.drop_last())->Ok_0;
        let v = cell(row, types.len() as int, types.last())->Ok_0;
        assert(convert(row[types.len() as int], types.last()) == Some(v));
        assert forall|i: int| 0 <= i < types.len() implies (#[trigger] decoded(
            row,
            types,
        )->Ok_0[i]).tag() == types[i] by {
            if i < types.len() - 1 {
                assert(decoded(row, types)->Ok_0[i] == vs[i]);
            }
        }
    }
}

/// The position of a declared name, by comparison with each name in turn.
spec fn name_index(s: Seq<char>) -> int {
    if s == "name"@ {
        0
    } else if s == "match_number"@ {
        1
    } else if s == "team_number"@ {
        2
    } else if s == "auto_coral"@ {
        3
    } else if s == "auto_algae"@ {
        4
    } else if s == "auto_leave"@ {
        5
    } else if s == "algae_clear"@ {
        6
    } else if s == "l1_coral"@ {
        7
    } else if s == "l2_coral"@ {
        8
    } else if s == "l3_coral"@ {
        9
    } else if s == "l4_coral"@ {
        10
    } else if s == "dropped_coral"@ {
        11
    } else if s == "algae_barge"@ {
        12
    } else if s == "algae_floor_hole"@ {
        13
    } else if s == "climb"@ {
        14
    } else if s == "defense_bot"@ {
        15
    } else {
        16
    }
}

/// The record's declaration is valid: no two fields share a name.
pub proof fn lemma_data_point_valid()
    ensures
        distinct_names(data_point_fields()),
{
    reveal_strlit("name");
    reveal_strlit("match_number");
    reveal_strlit("team_number");
    reveal_strlit("auto_coral");
    reveal_strlit("auto_algae");
    reveal_strlit("auto_leave");
    reveal_strlit("algae_clear");
    reveal_strlit("l1_coral");
    reveal_strlit("l2_coral");
    reveal_strlit("l3_coral");
    reveal_strlit("l4_coral");
    reveal_strlit("dropped_coral");
    reveal_strlit("algae_barge");
    reveal_strlit("algae_floor_hole");
    reveal_strlit("climb");
    reveal_strlit("defense_bot");
    reveal_strlit("notes");
    assert("team_number"@[0] == 't');
    assert("auto_coral"@[5] == 'c');
    assert("auto_algae"@[5] == 'a');
    assert("auto_leave"@[5] == 'l');
    assert("algae_clear"@[0] == 'a');
    assert("algae_clear"@[6] == 'c');
    assert("l1_coral"@[1] == '1');
    assert("l2_coral"@[1] == '2');
    assert("l3_coral"@[1] == '3');
    assert("l4_coral"@[1] == '4');
    assert("algae_barge"@[0] == 'a');
    assert("algae_barge"@[6] == 'b');
    assert("climb"@[0] == 'c');
    assert("defense_bot"@[0] == 'd');
    assert("notes"@[0] == 'n');
    assert("name"@.len() == 4);
    assert("match_number"@.len() == 12);
    assert("team_number"@.len() == 11);
    assert("auto_coral"@.len() == 10);
    assert("auto_algae"@.len() == 10);
    assert("auto_leave"@.len() == 10);
    assert("algae_clear"@.len() == 11);
    assert("l1_coral"@.len() == 8);
    assert("l2_coral"@.len() == 8);
    assert("l3_coral"@.len() == 8);
    assert("l4_coral"@.len() == 8);
    assert("dropped_coral"@.len() == 13);
    assert("algae_barge"@.len() == 11);
    assert("algae_floor_hole"@.len() == 16);
    assert("climb"@.len() == 5);
    assert("defense_bot"@.len() == 11);
    assert("notes"@.len() == 5);
    let fs = data_point_fields();
    assert forall|i: int| 0 <= i < fs.len() implies name_index(#[trigger] fs[i].name) == i by {
        if i == 0 {
            assert(name_index(fs[0].name) == 0);
        } else if i == 1 {
            assert(name_index(fs[1].name) == 1);
        } else if i == 2 {
            assert(name_index(fs[2].name) == 2);
        } else if i == 3 {
            assert(name_index(fs[3].name) == 3);
        } else if i == 4 {
            assert(name_index(fs[4].name) == 4);
        } else if i == 5 {
            assert(name_index(fs[5].name) == 5);
        } else if i == 6 {
            assert(name_index(fs[6].name) == 6);
        } else if i == 7 {
            assert(name_index(fs[7].name) == 7);
        } else if i == 8 {
            assert(name_index(fs[8].name) == 8);
        } else if i == 9 {
            assert(name_index(fs[9].name) == 9);
        } else if i == 10 {
            assert(name_index(fs[10].name) == 10);
        } else if i == 11 {
            assert(name_index(fs[11].name) == 11);
        } else if i == 12 {
            assert(name_index(fs[12].name) == 12);
        } else if i == 13 {
            assert(name_index(fs[13].name) == 13);
        } else if i == 14 {
            assert(name_index(fs[14].name) == 14);
        } else if i == 15 {
            assert(name_index(fs[15].name) == 15);
        } else if i == 16 {
            assert(name_index(fs[16].name) == 16);
        }
    }
    assert forall|i: int, j: int| 0 <= i < j < fs.len() implies #[trigger] fs[i].name
        != #[trigger] fs[j].name by {
        assert(name_index(fs[i].name) == i);
        assert(name_index(fs[j].name) == j);
    }
}

/// Every record holds one value per declared field, of its type, in order.
pub proof fn lemma_data_point_holds(r: DataPoint)
    ensures
        holds(data_point_fields(), r.values()),
{
}

/// A record is determined by its values.
pub proof fn lemma_values_determine(a: DataPoint, b: DataPoint)
    requires
        a.values() == b.values(),
    ensures
        a == b,
{
    assert(a.values()[0] == b.values()[0]);
    assert(a.values()[1] == b.values()[1]);
    assert(a.values()[2] == b.values()[2]);
    assert(a.values()[3] == b.values()[3]);
    assert(a.values()[4] == b.values()[4]);
    assert(a.values()[5] == b.values()[5]);
    assert(a.values()[6] == b.values()[6]);
    assert(a.values()[7] == b.values()[7]);
    assert(a.values()[8] == b.values()[8]);
    assert(a.values()[9] == b.values()[9]);
    assert(a.values()[10] == b.values()[10]);
    assert(a.values()[11] == b.values()[11]);
    assert(a.values()[12] == b.values()[12]);
    assert(a.values()[13] == b.values()[13]);
    assert(a.values()[14] == b.values()[14]);
    assert(a.values()[15] == b.values()[15]);
    assert(a.values()[16] == b.values()[16]);
}

/// Storing a record and reading it back gives the same record: a row made
/// of any key followed by the record's bind parameters maps onto a record
/// equal to it.
pub proof fn lemma_round_trip(r: DataPoint, id: DataType)
    ensures
        decoded(seq![id] + r.values(), data_point_types()) == Ok::<Seq<DataType>, MappingError>(
            r.values(),
        ),
        forall|d: DataPoint| d.values() == r.values() ==> d == r,
{
    lemma_decoded_round_trip(id, r.values(), data_point_types());
    assert forall|d: DataPoint| d.values() == r.values() implies d == r by {
        lemma_values_determine(d, r);
    }
}

/// Whether a form checkbox was ticked: a browser sends `"on"` for a ticked
/// box and nothing for a clear one.
pub fn extract_checkbox(value: Option<String>) -> (r: bool)
    ensures
        r == (value matches Some(s) && s@ == "on"@),
{
    match value {
        Some(s) => s == String::from_str("on"),
        None => false,
    }
}

/// A record as the entry form submits it: each checkbox as the optional text
/// the browser sent.
#[derive(Debug, Clone)]
pub struct InsertDataArgs {
    pub name: String,
    pub match_number: u16,
    pub team_number: u32,
    pub auto_coral: u16,
    pub auto_algae: u16,
    pub auto_leave: Option<String>,
    pub algae_clear: Option<String>,
    pub l1_coral: u16,
    pub l2_coral: u16,
    pub l3_coral: u16,
    pub l4_coral: u16,
    pub dropped_coral: u16,
    pub algae_barge: u16,
    pub algae_floor_hole: u16,
    pub climb: String,
    pub defense_bot: Option<String>,
    pub notes: String,
}

impl InsertDataArgs {
    /// The record the form describes, each checkbox read as ticked or not.
    pub fn map_insert_data_args(self) -> (r: DataPoint)
        ensures
            r.name == self.name,
            r.match_number == self.match_number,
            r.team_number == self.team_number,
            r.auto_coral == self.auto_coral,
            r.auto_algae == self.auto_algae,
            r.auto_leave == (self.auto_leave matches Some(s) && s@ == "on"@),
            r.algae_clear == (self.algae_clear matches Some(s) && s@ == "on"@),
            r.l1_coral == self.l1_coral,
            r.l2_coral == self.l2_coral,
            r.l3_coral == self.l3_coral,
            r.l4_coral == self.l4_coral,
            r.dropped_coral == self.dropped_coral,
            r.algae_barge == self.algae_barge,
            r.algae_floor_hole == self.algae_floor_hole,
            r.climb == self.climb,
            r.defense_bot == (self.defense_bot matches Some(s) && s@ == "on"@),
            r.notes == self.notes,
    {
        DataPoint {
            name: self.name,
            match_number: self.match_number,
            team_number: self.team_number,
            auto_coral: self.auto_coral,
            auto_algae: self.auto_algae,
            auto_leave: extract_checkbox(self.auto_leave),
            algae_clear: extract_checkbox(self.algae_clear),
            l1_coral: self.l1_coral,
            l2_coral: self.l2_coral,
            l3_coral: self.l3_coral,
            l4_coral: self.l4_coral,
            dropped_coral: self.dropped_coral,
            algae_barge: self.algae_barge,
            algae_floor_hole: self.algae_floor_hole,
            climb: self.climb,
            defense_bot: extract_checkbox(self.defense_bot),
            notes: self.notes,
        }
    }
}

} // verus!
