//! The declaration of an entity: its ordered field descriptors and what is
//! derived from them (metadata tables, lookups, SQL text, migration plan and
//! positional row decoding).

use vstd::prelude::*;
use crate::value::{DataType, DataTypeName, FilterType, sql_type_text, sql_default_text};

verus! {

/// What a field descriptor states, as mathematical values.
pub ghost struct FieldSpec {
    pub name: Seq<char>,
    pub data_type: DataTypeName,
    pub pretty_name: Seq<char>,
    pub filter: FilterType,
}

/// One declared field: its column name, type, display name and filter class.
#[derive(Debug, Clone)]
pub struct FieldDescriptor {
    pub name: String,
    pub data_type: DataTypeName,
    pub pretty_name: String,
    pub filter: FilterType,
}

impl View for FieldDescriptor {
    type V = FieldSpec;

    open spec fn view(&self) -> FieldSpec {
        FieldSpec {
            name: self.name@,
            data_type: self.data_type,
            pretty_name: self.pretty_name@,
            filter: self.filter,
        }
    }
}

impl FieldDescriptor {
    /// Declares a field. Without a display name the field's own name is shown.
    pub fn new(
        name: &str,
        data_type: DataTypeName,
        pretty_name: Option<&str>,
        filter: FilterType,
    ) -> (r: FieldDescriptor)
        ensures
            r@ == (FieldSpec {
                name: name@,
                data_type,
                pretty_name: match pretty_name {
                    Some(p) => p@,
                    None => name@,
                },
                filter,
            }),
    {
        let pretty = match pretty_name {
            Some(p) => p.to_owned(),
            None => name.to_owned(),
        };
        FieldDescriptor { name: name.to_owned(), data_type, pretty_name: pretty, filter }
    }
}

/// The views of a sequence of strings.
pub open spec fn views(s: Seq<String>) -> Seq<Seq<char>> {
    s.map_values(|x: String| x@)
}

/// The column names of a field list, in declared order.
pub open spec fn names_of(fields: Seq<FieldSpec>) -> Seq<Seq<char>> {
    fields.map_values(|f: FieldSpec| f.name)
}

/// `i` is the first position of `x` in `s`.
pub open spec fn first_at(s: Seq<Seq<char>>, x: Seq<char>, i: int) -> bool {
    &&& 0 <= i < s.len()
    &&& s[i] == x
    &&& forall|j: int| 0 <= j < i ==> s[j] != x
}

/// The first position of `x` in `s`, if it occurs.
pub open spec fn position(s: Seq<Seq<char>>, x: Seq<char>) -> Option<int> {
    if exists|i: int| first_at(s, x, i) {
        Some(choose|i: int| first_at(s, x, i))
    } else {
        None
    }
}

/// The first position is unique.
pub proof fn lemma_position(s: Seq<Seq<char>>, x: Seq<char>, i: int)
    requires
        first_at(s, x, i),
    ensures
        position(s, x) == Some(i),
{
    let k = choose|k: int| first_at(s, x, k);
    assert(first_at(s, x, k));
    if k < i {
        assert(s[k] != x);
    } else if k > i {
        assert(s[i] != x);
    }
}

/// A name that does not occur has no position.
pub proof fn lemma_position_none(s: Seq<Seq<char>>, x: Seq<char>)
    requires
        forall|j: int| 0 <= j < s.len() ==> s[j] != x,
    ensures
        position(s, x) is None,
{
}

/// The position of `x` in `s` is that of its first occurrence, and none is
/// found exactly when `x` does not occur.
pub proof fn lemma_position_contains(s: Seq<Seq<char>>, x: Seq<char>)
    ensures
        position(s, x) is Some <==> s.contains(x),
        position(s, x) matches Some(i) ==> 0 <= i < s.len() && s[i] == x,
{
    if s.contains(x) {
        let k = choose|k: int| 0 <= k < s.len() && s[k] == x;
        assert(s[k] == x);
        first_position_exists(s, x, k);
    }
}

proof fn first_position_exists(s: Seq<Seq<char>>, x: Seq<char>, k: int)
    requires
        0 <= k < s.len(),
        s[k] == x,
    ensures
        exists|i: int| first_at(s, x, i),
    decreases k,
{
    if exists|j: int| 0 <= j < k && s[j] == x {
        let j = choose|j: int| 0 <= j < k && s[j] == x;
        first_position_exists(s, x, j);
    } else {
        assert(first_at(s, x, k));
    }
}

/// The table that stores an entity.
pub open spec fn table_text(entity: Seq<char>) -> Seq<char> {
    entity + "_entries"@
}

/// The definition of one column: its name and column type.
pub open spec fn column_def(f: FieldSpec) -> Seq<char> {
    f.name + " "@ + sql_type_text(f.data_type)
}

/// The column definitions of the declared fields, in declared order, each
/// after a separator.
pub open spec fn column_defs_text(fields: Seq<FieldSpec>) -> Seq<char>
    decreases fields.len(),
{
    if fields.len() == 0 {
        Seq::empty()
    } else {
        column_defs_text(fields.drop_last()) + ",\n    "@ + column_def(fields.last())
    }
}

/// The statement that creates an entity's table: the `id` key first, then
/// one column per declared field, in declared order.
pub open spec fn create_table_text(entity: Seq<char>, fields: Seq<FieldSpec>) -> Seq<char> {
    "CREATE TABLE IF NOT EXISTS "@ + table_text(entity)
        + " (\n    id INTEGER PRIMARY KEY DEFAULT nextval('"@ + table_text(entity)
        + "_id_seq')"@ + column_defs_text(fields) + "\n);"@
}

/// The parts, with `sep` between each two.
pub open spec fn joined(parts: Seq<Seq<char>>, sep: Seq<char>) -> Seq<char>
    decreases parts.len(),
{
    if parts.len() == 0 {
        Seq::empty()
    } else if parts.len() == 1 {
        parts[0]
    } else {
        joined(parts.drop_last(), sep) + sep + parts.last()
    }
}

/// `n` parameter markers.
pub open spec fn placeholders(n: nat) -> Seq<Seq<char>> {
    Seq::new(n, |i: int| "?"@)
}

/// The statement that inserts one record: the declared columns, in declared
/// order, each bound to one positional parameter.
pub open spec fn insert_text(entity: Seq<char>, fields: Seq<FieldSpec>) -> Seq<char> {
    "INSERT INTO "@ + table_text(entity) + " ("@ + joined(names_of(fields), ", "@)
        + ") VALUES ("@ + joined(placeholders(fields.len()), ", "@) + ")"@
}

/// The statement that reads every stored record, `id` first.
pub open spec fn select_text(entity: Seq<char>) -> Seq<char> {
    "SELECT * FROM "@ + table_text(entity)
}

/// The statement that adds a missing column for `f`, with the default that
/// its type calls for.
pub open spec fn alter_text(entity: Seq<char>, f: FieldSpec) -> Seq<char> {
    "ALTER TABLE "@ + table_text(entity) + " ADD COLUMN "@ + f.name + " "@ + sql_type_text(
        f.data_type,
    ) + " "@ + sql_default_text(f.data_type)
}

/// The declared fields that have no column among `existing`, in declared order.
pub open spec fn missing_fields(fields: Seq<FieldSpec>, existing: Seq<Seq<char>>) -> Seq<FieldSpec>
    decreases fields.len(),
{
    if fields.len() == 0 {
        Seq::empty()
    } else {
        let rest = missing_fields(fields.drop_last(), existing);
        if existing.contains(fields.last().name) {
            rest
        } else {
            rest.push(fields.last())
        }
    }
}

/// The statements that bring a table with columns `existing` up to the
/// declaration: one per missing field, in declared order.
pub open spec fn migration_text(
    entity: Seq<char>,
    fields: Seq<FieldSpec>,
    existing: Seq<Seq<char>>,
) -> Seq<Seq<char>> {
    missing_fields(fields, existing).map_values(|f: FieldSpec| alter_text(entity, f))
}

/// Whether `name` is among `v`.
fn contains_name(v: &Vec<String>, name: &String) -> (r: bool)
    ensures
        r == views(v@).contains(name@),
{
    let mut i: usize = 0;
    while i < v.len()
        invariant
            i <= v.len(),
            forall|j: int| 0 <= j < i ==> v@[j]@ != name@,
        decreases v.len() - i,
    {
        if v[i] == *name {
            proof {
                assert(views(v@)[i as int] == name@);
            }
            return true;
        }
        i += 1;
    }
    proof {
        if views(v@).contains(name@) {
            let k = choose|k: int| 0 <= k < views(v@).len() && views(v@)[k] == name@;
            assert(v@[k]@ == name@);
        }
    }
    false
}

/// Every declared field either had a column or is planned to get one.
proof fn lemma_missing_cover(fields: Seq<FieldSpec>, existing: Seq<Seq<char>>, k: int)
    requires
        0 <= k < fields.len(),
    ensures
        existing.contains(fields[k].name) || names_of(missing_fields(fields, existing)).contains(
            fields[k].name,
        ),
    decreases fields.len(),
{
    let rest = missing_fields(fields.drop_last(), existing);
    if k < fields.len() - 1 {
        lemma_missing_cover(fields.drop_last(), existing, k);
        if !existing.contains(fields[k].name) {
            let j = choose|j: int|
                0 <= j < names_of(rest).len() && names_of(rest)[j] == fields[k].name;
            if !existing.contains(fields.last().name) {
                assert(names_of(rest.push(fields.last()))[j] == fields[k].name);
            }
        }
    } else if !existing.contains(fields.last().name) {
        let m = rest.push(fields.last());
        assert(names_of(m)[rest.len() as int] == fields[k].name);
    }
}

/// Against columns that cover every declared field, nothing is missing.
proof fn lemma_missing_none(fields: Seq<FieldSpec>, existing: Seq<Seq<char>>)
    requires
        forall|k: int| 0 <= k < fields.len() ==> existing.contains(#[trigger] fields[k].name),
    ensures
        missing_fields(fields, existing).len() == 0,
    decreases fields.len(),
{
    if fields.len() > 0 {
        assert(existing.contains(fields[fields.len() - 1].name));
        lemma_missing_none(fields.drop_last(), existing);
    }
}

/// Migration is idempotent: once the planned columns have been added, a
/// second run against the resulting columns plans no statement.
pub proof fn lemma_migration_idempotent(
    entity: Seq<char>,
    fields: Seq<FieldSpec>,
    existing: Seq<Seq<char>>,
)
    ensures
        migration_text(
            entity,
            fields,
            existing + names_of(missing_fields(fields, existing)),
        ).len() == 0,
{
    let added = names_of(missing_fields(fields, existing));
    let after = existing + added;
    assert forall|k: int| 0 <= k < fields.len() implies after.contains(#[trigger] fields[k].name) by {
        lemma_missing_cover(fields, existing, k);
        if existing.contains(fields[k].name) {
            let j = choose|j: int| 0 <= j < existing.len() && existing[j] == fields[k].name;
            assert(after[j] == fields[k].name);
        } else {
            let j = choose|j: int| 0 <= j < added.len() && added[j] == fields[k].name;
            assert(after[existing.len() + j] == fields[k].name);
        }
    }
    lemma_missing_none(fields, after);
}

/// Why a stored row does not map onto the declared fields.
#[derive(Debug, Clone, Copy, PartialEq, Eq, Structural)]
pub enum MappingError {
    /// The row has no column at this position.
    MissingColumn(usize),
    /// The value at this position cannot be read as the declared type.
    InvalidType(usize, DataTypeName),
}

/// The integer a value holds, if it is of an integer type.
pub open spec fn int_value(v: DataType) -> Option<int> {
    match v {
        DataType::U16(x) => Some(x as int),
        DataType::U32(x) => Some(x as int),
        DataType::U64(x) => Some(x as int),
        DataType::I16(x) => Some(x as int),
        DataType::I32(x) => Some(x as int),
        DataType::I64(x) => Some(x as int),
        _ => None,
    }
}

/// `t` is an integer type whose range holds `n`.
pub open spec fn int_fits(t: DataTypeName, n: int) -> bool {
    match t {
        DataTypeName::U16 => 0 <= n <= u16::MAX,
        DataTypeName::U32 => 0 <= n <= u32::MAX,
        DataTypeName::U64 => 0 <= n <= u64::MAX,
        DataTypeName::I16 => i16::MIN <= n <= i16::MAX,
        DataTypeName::I32 => i32::MIN <= n <= i32::MAX,
        DataTypeName::I64 => i64::MIN <= n <= i64::MAX,
        _ => false,
    }
}

/// The value of integer type `t` that holds `n`.
pub open spec fn int_as(t: DataTypeName, n: int) -> DataType {
    match t {
        DataTypeName::U16 => DataType::U16(n as u16),
        DataTypeName::U32 => DataType::U32(n as u32),
        DataTypeName::U64 => DataType::U64(n as u64),
        DataTypeName::I16 => DataType::I16(n as i16),
        DataTypeName::I32 => DataType::I32(n as i32),
        _ => DataType::I64(n as i64),
    }
}

/// A stored value read as type `t`: an integer converts to any integer type
/// whose range holds it; any other value only to its own type.
pub open spec fn convert(v: DataType, t: DataTypeName) -> Option<DataType> {
    match int_value(v) {
        Some(n) => if int_fits(t, n) {
            Some(int_as(t, n))
        } else {
            None
        },
        None => if v.tag() == t {
            Some(v)
        } else {
            None
        },
    }
}

/// A value read as its own type is unchanged.
pub proof fn lemma_convert_same(v: DataType)
    ensures
        convert(v, v.tag()) == Some(v),
{
}

/// Reads a stored value as type `t`.
pub fn convert_value(v: &DataType, t: DataTypeName) -> (r: Option<DataType>)
    ensures
        r == convert(*v, t),
{
    let n: Option<i128> = match v {
        DataType::U16(x) => Some(*x as i128),
        DataType::U32(x) => Some(*x as i128),
        DataType::U64(x) => Some(*x as i128),
        DataType::I16(x) => Some(*x as i128),
        DataType::I32(x) => Some(*x as i128),
        DataType::I64(x) => Some(*x as i128),
        _ => None,
    };
    match n {
        Some(n) => match t {
            DataTypeName::U16 => if 0 <= n && n <= u16::MAX as i128 {
                Some(DataType::U16(n as u16))
            } else {
                None
            },
            DataTypeName::U32 => if 0 <= n && n <= u32::MAX as i128 {
                Some(DataType::U32(n as u32))
            } else {
                None
            },
            DataTypeName::U64 => if 0 <= n && n <= u64::MAX as i128 {
                Some(DataType::U64(n as u64))
            } else {
                None
            },
            DataTypeName::I16 => if i16::MIN as i128 <= n && n <= i16::MAX as i128 {
                Some(DataType::I16(n as i16))
            } else {
                None
            },
            DataTypeName::I32 => if i32::MIN as i128 <= n && n <= i32::MAX as i128 {
                Some(DataType::I32(n as i32))
            } else {
                None
            },
            DataTypeName::I64 => if i64::MIN as i128 <= n && n <= i64::MAX as i128 {
                Some(DataType::I64(n as i64))
            } else {
                None
            },
            _ => None,
        },
        None => match (v, t) {
            (DataType::String(x), DataTypeName::String) => Some(DataType::String(x.clone())),
            (DataType::Bool(x), DataTypeName::Bool) => Some(DataType::Bool(*x)),
            (DataType::Float(x), DataTypeName::Float) => Some(DataType::Float(*x)),
            _ => None,
        },
    }
}

/// The declared types of a field list, in declared order.
pub open spec fn types_of(fields: Seq<FieldSpec>) -> Seq<DataTypeName> {
    fields.map_values(|f: FieldSpec| f.data_type)
}

/// Column `k` of a row read as type `t`.
pub open spec fn cell(row: Seq<DataType>, k: int, t: DataTypeName) -> Result<DataType, MappingError> {
    if k >= row.len() {
        Err(MappingError::MissingColumn(k as usize))
    } else {
        match convert(row[k], t) {
            Some(v) => Ok(v),
            None => Err(MappingError::InvalidType(k as usize, t)),
        }
    }
}

/// A stored row read positionally: column 0 is the key and is skipped,
/// column `i + 1` holds field `i`. The first column that is absent or of the
/// wrong type is reported.
pub open spec fn decoded(row: Seq<DataType>, types: Seq<DataTypeName>) -> Result<
    Seq<DataType>,
    MappingError,
>
    decreases types.len(),
{
    if types.len() == 0 {
        Ok(Seq::empty())
    } else {
        match decoded(row, types.drop_last()) {
            Err(e) => Err(e),
            Ok(vs) => match cell(row, types.len() as int, types.last()) {
                Ok(v) => Ok(vs.push(v)),
                Err(e) => Err(e),
            },
        }
    }
}

/// Once reading a prefix of the fields fails, reading all of them fails alike.
proof fn lemma_decoded_err(row: Seq<DataType>, types: Seq<DataTypeName>, k: int)
    requires
        0 <= k <= types.len(),
        decoded(row, types.take(k)) is Err,
    ensures
        decoded(row, types) == decoded(row, types.take(k)),
    decreases types.len(),
{
    if k < types.len() {
        assert(types.drop_last().take(k) =~= types.take(k));
        lemma_decoded_err(row, types.drop_last(), k);
    } else {
        assert(types.take(k) =~= types);
    }
}

/// A row made of a key followed by values of the declared types, in order,
/// reads back as exactly those values.
pub proof fn lemma_decoded_round_trip(id: DataType, vs: Seq<DataType>, types: Seq<DataTypeName>)
    requires
        vs.len() == types.len(),
        forall|i: int| 0 <= i < vs.len() ==> #[trigger] vs[i].tag() == types[i],
    ensures
        decoded(seq![id] + vs, types) == Ok::<Seq<DataType>, MappingError>(vs),
    decreases types.len(),
{
    if types.len() > 0 {
        let row = seq![id] + vs;
        lemma_decoded_round_trip(id, vs.drop_last(), types.drop_last());
        assert(seq![id] + vs.drop_last() =~= row.take(vs.len() as int));
        lemma_decoded_prefix(row, vs.len() as int, types.drop_last());
        let last = vs[vs.len() - 1];
        assert(row[types.len() as int] == last);
        assert(last.tag() == types.last());
        lemma_convert_same(last);
        assert(decoded(row, types.drop_last()) == Ok::<Seq<DataType>, MappingError>(
            vs.drop_last(),
        ));
        assert(cell(row, types.len() as int, types.last()) == Ok::<DataType, MappingError>(
            last,
        ));
        assert(vs.drop_last().push(last) =~= vs);
    } else {
        assert(vs =~= Seq::<DataType>::empty());
    }
}

/// Reading fields looks only at the columns they occupy.
proof fn lemma_decoded_prefix(row: Seq<DataType>, n: int, types: Seq<DataTypeName>)
    requires
        types.len() < n <= row.len(),
    ensures
        decoded(row.take(n), types) == decoded(row, types),
    decreases types.len(),
{
    if types.len() > 0 {
        lemma_decoded_prefix(row, n, types.drop_last());
    }
}

/// A declaration is valid when no two fields share a name.
pub open spec fn distinct_names(fields: Seq<FieldSpec>) -> bool {
    forall|i: int, j: int|
        0 <= i < j < fields.len() ==> #[trigger] fields[i].name != #[trigger] fields[j].name
}

/// `values` holds one value per declared field, of that field's type, in
/// declared order.
pub open spec fn holds(fields: Seq<FieldSpec>, values: Seq<DataType>) -> bool {
    &&& values.len() == fields.len()
    &&& forall|i: int| 0 <= i < values.len() ==> #[trigger] values[i].tag() == fields[i].data_type
}

/// The value of the field called `name`, if one is declared.
pub open spec fn field_value(fields: Seq<FieldSpec>, values: Seq<DataType>, name: Seq<char>) -> Option<
    DataType,
> {
    match position(names_of(fields), name) {
        Some(i) => Some(values[i]),
        None => None,
    }
}

/// Whether `set_field` stores `v` under `name`: the field is declared and
/// `v` has its type.
pub open spec fn accepts(fields: Seq<FieldSpec>, name: Seq<char>, v: DataType) -> bool {
    position(names_of(fields), name) matches Some(i) && v.tag() == fields[i].data_type
}

/// The values after `v` is stored under `name`.
pub open spec fn with_field(
    fields: Seq<FieldSpec>,
    values: Seq<DataType>,
    name: Seq<char>,
    v: DataType,
) -> Seq<DataType> {
    values.update(position(names_of(fields), name)->Some_0, v)
}

/// A name that is not declared reads as nothing and stores nothing.
pub proof fn lemma_unknown_field(
    fields: Seq<FieldSpec>,
    values: Seq<DataType>,
    name: Seq<char>,
    v: DataType,
)
    requires
        !names_of(fields).contains(name),
    ensures
        field_value(fields, values, name) is None,
        !accepts(fields, name, v),
{
    lemma_position_contains(names_of(fields), name);
}

/// A value whose type differs from the declared field's is not stored.
pub proof fn lemma_type_mismatch(fields: Seq<FieldSpec>, k: int, v: DataType)
    requires
        distinct_names(fields),
        0 <= k < fields.len(),
        v.tag() != fields[k].data_type,
    ensures
        !accepts(fields, fields[k].name, v),
{
    lemma_name_position(fields, k);
}

/// In a valid declaration field `k` is found at position `k`.
pub proof fn lemma_name_position(fields: Seq<FieldSpec>, k: int)
    requires
        distinct_names(fields),
        0 <= k < fields.len(),
    ensures
        position(names_of(fields), fields[k].name) == Some(k),
{
    let ns = names_of(fields);
    assert forall|j: int| 0 <= j < k implies ns[j] != fields[k].name by {
        assert(fields[j].name != fields[k].name);
    }
    lemma_position(ns, fields[k].name, k);
}

/// Field names, table columns and bind parameters share one order: for a
/// valid declaration and a record that holds its values, the `k`-th bind
/// parameter is the value of the `k`-th declared name, which is the `k`-th
/// column of the insert statement, and it has the type of the `k`-th column
/// of the table definition.
pub proof fn lemma_order(fields: Seq<FieldSpec>, values: Seq<DataType>, k: int)
    requires
        distinct_names(fields),
        holds(fields, values),
        0 <= k < fields.len(),
    ensures
        field_value(fields, values, names_of(fields)[k]) == Some(values[k]),
        values[k].tag() == types_of(fields)[k],
        column_def(fields[k]) == names_of(fields)[k] + " "@ + sql_type_text(values[k].tag()),
{
    lemma_name_position(fields, k);
}

/// A record of one entity: one value per declared field, in declared order.
#[derive(Debug, Clone)]
pub struct Record {
    pub values: Vec<DataType>,
}

/// The strings of `parts`, with `sep` between each two.
pub fn join_strings(parts: &Vec<String>, sep: &str) -> (r: String)
    ensures
        r@ == joined(views(parts@), sep@),
{
    let ghost ps = views(parts@);
    let mut s = String::new();
    let mut i: usize = 0;
    while i < parts.len()
        invariant
            i <= parts.len(),
            ps == views(parts@),
            s@ == joined(ps.take(i as int), sep@),
        decreases parts.len() - i,
    {
        if i > 0 {
            s.append(sep);
        }
        s.append(parts[i].as_str());
        proof {
            assert(ps.take(i + 1).drop_last() =~= ps.take(i as int));
            assert(ps.take(i + 1).last() == ps[i as int]);
            assert(ps[i as int] == parts@[i as int]@);
            if i == 0 {
                assert(joined(ps.take(1), sep@) == ps[0]);
                assert(s@ =~= ps[0]);
            }
            assert(s@ =~= joined(ps.take(i + 1), sep@));
        }
        i += 1;
    }
    proof {
        assert(ps.take(i as int) =~= ps);
    }
    s
}

/// The position of the first string among `v` equal to `name`, if any.
pub fn find_name(v: &Vec<String>, name: &str) -> (r: Option<usize>)
    ensures
        r matches Some(i) ==> Some(i as int) == position(views(v@), name@),
        r is None ==> position(views(v@), name@) is None,
{
    let key = name.to_owned();
    let ghost ns = views(v@);
    let mut i: usize = 0;
    while i < v.len()
        invariant
            i <= v.len(),
            ns == views(v@),
            key@ == name@,
            forall|j: int| 0 <= j < i ==> ns[j] != name@,
        decreases v.len() - i,
    {
        if v[i] == key {
            proof {
                assert(ns[i as int] == name@);
                lemma_position(ns, name@, i as int);
            }
            return Some(i);
        }
        i += 1;
    }
    proof {
        lemma_position_none(ns, name@);
    }
    None
}

/// What a schema declares: the entity's name and its ordered fields.
pub ghost struct SchemaSpec {
    pub entity: Seq<char>,
    pub fields: Seq<FieldSpec>,
}

/// An entity declaration: the one source from which its table definition,
/// insert statement, migration plan and row layout are derived.
#[derive(Debug, Clone)]
pub struct Schema {
    pub entity: String,
    pub fields: Vec<FieldDescriptor>,
}

impl View for Schema {
    type V = SchemaSpec;

    open spec fn view(&self) -> SchemaSpec {
        SchemaSpec { entity: self.entity@, fields: self.fields@.map_values(|f: FieldDescriptor| f@) }
    }
}

impl Schema {
    /// Declares an entity with the given fields, in order.
    pub fn new(entity: &str, fields: Vec<FieldDescriptor>) -> (r: Schema)
        ensures
            r@.entity == entity@,
            r@.fields == fields@.map_values(|f: FieldDescriptor| f@),
    {
        Schema { entity: entity.to_owned(), fields }
    }

    /// The position of the field called `name`, if one is declared.
    pub fn find_field(&self, name: &str) -> (r: Option<usize>)
        ensures
            r matches Some(i) ==> Some(i as int) == position(names_of(self@.fields), name@),
            r is None ==> position(names_of(self@.fields), name@) is None,
    {
        let key = name.to_owned();
        let ghost ns = names_of(self@.fields);
        let mut i: usize = 0;
        while i < self.fields.len()
            invariant
                i <= self.fields.len(),
                ns == names_of(self@.fields),
                key@ == name@,
                forall|j: int| 0 <= j < i ==> ns[j] != name@,
            decreases self.fields.len() - i,
        {
            if self.fields[i].name == key {
                proof {
                    assert(ns[i as int] == name@);
                    lemma_position(ns, name@, i as int);
                }
                return Some(i);
            }
            i += 1;
        }
        proof {
            lemma_position_none(ns, name@);
        }
        None
    }

    /// The field names, in declared order.
    pub fn field_names(&self) -> (r: Vec<String>)
        ensures
            views(r@) == names_of(self@.fields),
    {
        let mut r: Vec<String> = Vec::new();
        let mut i: usize = 0;
        while i < self.fields.len()
            invariant
                i <= self.fields.len(),
                r@.len() == i,
                forall|j: int| 0 <= j < i ==> r@[j]@ == self.fields@[j].name@,
            decreases self.fields.len() - i,
        {
            r.push(self.fields[i].name.clone());
            i += 1;
        }
        proof {
            assert(views(r@) =~= names_of(self@.fields));
        }
        r
    }

    /// The `(name, type)` table, in declared order.
    pub fn field_metadata(&self) -> (r: Vec<(String, DataTypeName)>)
        ensures
            r@.len() == self@.fields.len(),
            forall|j: int|
                0 <= j < r@.len() ==> r@[j].0@ == self@.fields[j].name && r@[j].1
                    == self@.fields[j].data_type,
    {
        let mut r: Vec<(String, DataTypeName)> = Vec::new();
        let mut i: usize = 0;
        while i < self.fields.len()
            invariant
                i <= self.fields.len(),
                r@.len() == i,
                forall|j: int|
                    0 <= j < i ==> r@[j].0@ == self.fields@[j].name@ && r@[j].1
                        == self.fields@[j].data_type,
            decreases self.fields.len() - i,
        {
            r.push((self.fields[i].name.clone(), self.fields[i].data_type));
            i += 1;
        }
        r
    }

    /// The `(name, display name)` table, in declared order.
    pub fn field_pretty_names(&self) -> (r: Vec<(String, String)>)
        ensures
            r@.len() == self@.fields.len(),
            forall|j: int|
                0 <= j < r@.len() ==> r@[j].0@ == self@.fields[j].name && r@[j].1@
                    == self@.fields[j].pretty_name,
    {
        let mut r: Vec<(String, String)> = Vec::new();
        let mut i: usize = 0;
        while i < self.fields.len()
            invariant
                i <= self.fields.len(),
                r@.len() == i,
                forall|j: int|
                    0 <= j < i ==> r@[j].0@ == self.fields@[j].name@ && r@[j].1@
                        == self.fields@[j].pretty_name@,
            decreases self.fields.len() - i,
        {
            r.push((self.fields[i].name.clone(), self.fields[i].pretty_name.clone()));
            i += 1;
        }
        r
    }

    /// The `(name, filter class)` table, in declared order.
    pub fn field_filters(&self) -> (r: Vec<(String, FilterType)>)
        ensures
            r@.len() == self@.fields.len(),
            forall|j: int|
                0 <= j < r@.len() ==> r@[j].0@ == self@.fields[j].name && r@[j].1
                    == self@.fields[j].filter,
    {
        let mut r: Vec<(String, FilterType)> = Vec::new();
        let mut i: usize = 0;
        while i < self.fields.len()
            invariant
                i <= self.fields.len(),
                r@.len() == i,
                forall|j: int|
                    0 <= j < i ==> r@[j].0@ == self.fields@[j].name@ && r@[j].1
                        == self.fields@[j].filter,
            decreases self.fields.len() - i,
        {
            r.push((self.fields[i].name.clone(), self.fields[i].filter));
            i += 1;
        }
        r
    }

    /// The display name of the field called `name`, if one is declared.
    pub fn get_pretty_name(&self, name: &str) -> (r: Option<String>)
        ensures
            match position(names_of(self@.fields), name@) {
                Some(i) => r matches Some(p) && p@ == self@.fields[i].pretty_name,
                None => r is None,
            },
    {
        match self.find_field(name) {
            Some(i) => Some(self.fields[i].pretty_name.clone()),
            None => None,
        }
    }

    /// The display name of the field called `name`, or `name` itself when no
    /// such field is declared; it never fails.
    pub fn display_name(&self, name: &str) -> (r: String)
        ensures
            r@ == match position(names_of(self@.fields), name@) {
                Some(i) => self@.fields[i].pretty_name,
                None => name@,
            },
    {
        match self.find_field(name) {
            Some(i) => self.fields[i].pretty_name.clone(),
            None => name.to_owned(),
        }
    }

    /// The type of the field called `name`, if one is declared.
    pub fn get_field_type(&self, name: &str) -> (r: Option<DataTypeName>)
        ensures
            r == match position(names_of(self@.fields), name@) {
                Some(i) => Some(self@.fields[i].data_type),
                None => None,
            },
    {
        match self.find_field(name) {
            Some(i) => Some(self.fields[i].data_type),
            None => None,
        }
    }

    /// The name of the table that stores this entity.
    pub fn table_name(&self) -> (r: String)
        ensures
            r@ == table_text(self@.entity),
    {
        let mut t = self.entity.clone();
        t.append("_entries");
        t
    }

    /// The statement that creates this entity's table.
    pub fn create_table_sql(&self) -> (r: String)
        ensures
            r@ == create_table_text(self@.entity, self@.fields),
    {
        let table = self.table_name();
        let mut s = String::from_str("CREATE TABLE IF NOT EXISTS ");
        s.append(table.as_str());
        s.append(" (\n    id INTEGER PRIMARY KEY DEFAULT nextval('");
        s.append(table.as_str());
        s.append("_id_seq')");
        let ghost head = s@;
        let ghost fields = self@.fields;
        let mut i: usize = 0;
        while i < self.fields.len()
            invariant
                i <= self.fields.len(),
                fields == self@.fields,
                s@ == head + column_defs_text(fields.take(i as int)),
            decreases self.fields.len() - i,
        {
            let f = &self.fields[i];
            s.append(",\n    ");
            s.append(f.name.as_str());
            s.append(" ");
            s.append(f.data_type.sql_type());
            proof {
                assert(fields.take(i + 1).drop_last() =~= fields.take(i as int));
                assert(fields.take(i + 1).last() == fields[i as int]);
                assert(s@ =~= head + column_defs_text(fields.take(i + 1)));
            }
            i += 1;
        }
        s.append("\n);");
        proof {
            assert(fields.take(i as int) =~= fields);
            assert(s@ =~= create_table_text(self@.entity, self@.fields));
        }
        s
    }

    /// The statement that inserts one record, its parameters in declared order.
    pub fn insert_sql(&self) -> (r: String)
        ensures
            r@ == insert_text(self@.entity, self@.fields),
    {
        let table = self.table_name();
        let mut s = String::from_str("INSERT INTO ");
        s.append(table.as_str());
        s.append(" (");
        let ghost head = s@;
        let ghost ns = names_of(self@.fields);
        let mut i: usize = 0;
        while i < self.fields.len()
            invariant
                i <= self.fields.len(),
                ns == names_of(self@.fields),
                s@ == head + joined(ns.take(i as int), ", "@),
            decreases self.fields.len() - i,
        {
            if i > 0 {
                s.append(", ");
            }
            s.append(self.fields[i].name.as_str());
            proof {
                assert(ns.take(i + 1).drop_last() =~= ns.take(i as int));
                assert(ns.take(i + 1).last() == ns[i as int]);
                if i == 0 {
                    assert(joined(ns.take(1), ", "@) == ns[0]);
                }
                assert(s@ =~= head + joined(ns.take(i + 1), ", "@));
            }
            i += 1;
        }
        proof {
            assert(ns.take(i as int) =~= ns);
        }
        s.append(") VALUES (");
        let ghost mid = s@;
        let ghost qs = placeholders(self@.fields.len());
        let mut k: usize = 0;
        while k < self.fields.len()
            invariant
                k <= self.fields.len(),
                qs == placeholders(self@.fields.len()),
                s@ == mid + joined(qs.take(k as int), ", "@),
            decreases self.fields.len() - k,
        {
            if k > 0 {
                s.append(", ");
            }
            s.append("?");
            proof {
                assert(qs.take(k + 1).drop_last() =~= qs.take(k as int));
                assert(qs.take(k + 1).last() == "?"@);
                if k == 0 {
                    assert(joined(qs.take(1), ", "@) == qs[0]);
                }
                assert(s@ =~= mid + joined(qs.take(k + 1), ", "@));
            }
            k += 1;
        }
        s.append(")");
        proof {
            assert(qs.take(k as int) =~= qs);
            assert(s@ =~= insert_text(self@.entity, self@.fields));
        }
        s
    }

    /// The statement that reads every stored record.
    pub fn select_all_sql(&self) -> (r: String)
        ensures
            r@ == select_text(self@.entity),
    {
        let table = self.table_name();
        let mut s = String::from_str("SELECT * FROM ");
        s.append(table.as_str());
        s
    }

    /// The statements that add, with their defaults, the declared columns
    /// missing from a table whose columns are `existing`; columns are never
    /// dropped, renamed or reordered.
    pub fn migration_statements(&self, existing: &Vec<String>) -> (r: Vec<String>)
        ensures
            views(r@) == migration_text(self@.entity, self@.fields, views(existing@)),
    {
        let table = self.table_name();
        let ghost fields = self@.fields;
        let ghost ex = views(existing@);
        let mut r: Vec<String> = Vec::new();
        let mut i: usize = 0;
        while i < self.fields.len()
            invariant
                i <= self.fields.len(),
                fields == self@.fields,
                ex == views(existing@),
                table@ == table_text(self@.entity),
                r@.len() == missing_fields(fields.take(i as int), ex).len(),
                forall|j: int|
                    0 <= j < r@.len() ==> r@[j]@ == alter_text(
                        self@.entity,
                        missing_fields(fields.take(i as int), ex)[j],
                    ),
            decreases self.fields.len() - i,
        {
            let f = &self.fields[i];
            proof {
                assert(fields.take(i + 1).drop_last() =~= fields.take(i as int));
                assert(fields.take(i + 1).last() == fields[i as int]);
            }
            if !contains_name(existing, &f.name) {
                let mut s = String::from_str("ALTER TABLE ");
                s.append(table.as_str());
                s.append(" ADD COLUMN ");
                s.append(f.name.as_str());
                s.append(" ");
                s.append(f.data_type.sql_type());
                s.append(" ");
                s.append(f.data_type.sql_default());
                proof {
                    assert(s@ =~= alter_text(self@.entity, fields[i as int]));
                }
                r.push(s);
            }
            i += 1;
        }
        proof {
            assert(fields.take(i as int) =~= fields);
            assert(views(r@) =~= migration_text(self@.entity, self@.fields, ex));
        }
        r
    }

    /// Reads a stored row positionally into values of the declared types.
    pub fn decode_row(&self, row: &Vec<DataType>) -> (r: Result<Vec<DataType>, MappingError>)
        ensures
            match (r, decoded(row@, types_of(self@.fields))) {
                (Ok(v), Ok(s)) => v@ == s,
                (Err(e), Err(d)) => e == d,
                _ => false,
            },
    {
        let ghost types = types_of(self@.fields);
        let mut out: Vec<DataType> = Vec::new();
        let mut i: usize = 0;
        while i < self.fields.len()
            invariant
                i <= self.fields.len(),
                types == types_of(self@.fields),
                decoded(row@, types.take(i as int)) == Ok::<Seq<DataType>, MappingError>(out@),
            decreases self.fields.len() - i,
        {
            let t = self.fields[i].data_type;
            proof {
                assert(types.take(i + 1).drop_last() =~= types.take(i as int));
                assert(types.take(i + 1).last() == t);
            }
            if i + 1 >= row.len() {
                proof {
                    lemma_decoded_err(row@, types, i + 1);
                }
                return Err(MappingError::MissingColumn(i + 1));
            }
            match convert_value(&row[i + 1], t) {
                Some(v) => {
                    out.push(v);
                },
                None => {
                    proof {
                        lemma_decoded_err(row@, types, i + 1);
                    }
                    return Err(MappingError::InvalidType(i + 1, t));
                },
            }
            i += 1;
        }
        proof {
            assert(types.take(i as int) =~= types);
        }
        Ok(out)
    }

    /// Whether no two fields share a name.
    pub fn is_valid(&self) -> (r: bool)
        ensures
            r == distinct_names(self@.fields),
    {
        let mut i: usize = 0;
        while i < self.fields.len()
            invariant
                i <= self.fields.len(),
                forall|a: int, b: int|
                    0 <= a < b < self.fields.len() && a < i ==> #[trigger] self@.fields[a].name
                        != #[trigger] self@.fields[b].name,
            decreases self.fields.len() - i,
        {
            let mut j: usize = i + 1;
            while j < self.fields.len()
                invariant
                    i < self.fields.len(),
                    i + 1 <= j <= self.fields.len(),
                    forall|a: int, b: int|
                        0 <= a < b < self.fields.len() && a < i ==> #[trigger] self@.fields[a].name
                            != #[trigger] self@.fields[b].name,
                    forall|b: int|
                        i < b < j ==> self@.fields[i as int].name != #[trigger] self@.fields[b].name,
                decreases self.fields.len() - j,
            {
                if self.fields[i].name == self.fields[j].name {
                    proof {
                        assert(self@.fields[i as int].name == self@.fields[j as int].name);
                    }
                    return false;
                }
                j += 1;
            }
            i += 1;
        }
        true
    }

    /// A record of this entity with the given values, when they are one per
    /// field, of the fields' types, in declared order.
    pub fn record(&self, values: Vec<DataType>) -> (r: Option<Record>)
        ensures
            r matches Some(rec) ==> rec.values@ == values@,
            r is Some <==> holds(self@.fields, values@),
    {
        if values.len() != self.fields.len() {
            return None;
        }
        let mut i: usize = 0;
        while i < values.len()
            invariant
                i <= values.len(),
                values@.len() == self@.fields.len(),
                forall|k: int| 0 <= k < i ==> #[trigger] values@[k].tag() == self@.fields[k].data_type,
            decreases values.len() - i,
        {
            if values[i].name() != self.fields[i].data_type {
                return None;
            }
            i += 1;
        }
        Some(Record { values })
    }

    /// The value of the field called `name` in `rec`, if one is declared.
    pub fn get_field(&self, rec: &Record, name: &str) -> (r: Option<DataType>)
        requires
            holds(self@.fields, rec.values@),
        ensures
            r == field_value(self@.fields, rec.values@, name@),
    {
        match self.find_field(name) {
            Some(i) => Some(rec.values[i].duplicate()),
            None => None,
        }
    }

    /// Stores `value` in the field called `name` when that field is declared
    /// and `value` has its type; otherwise leaves `rec` as it was. Returns
    /// whether the value was stored.
    pub fn set_field(&self, rec: &mut Record, name: &str, value: DataType) -> (r: bool)
        requires
            holds(self@.fields, old(rec).values@),
        ensures
            r == accepts(self@.fields, name@, value),
            r ==> final(rec).values@ == with_field(self@.fields, old(rec).values@, name@, value),
            !r ==> *final(rec) == *old(rec),
            holds(self@.fields, final(rec).values@),
    {
        match self.find_field(name) {
            Some(i) => {
                if value.name() == self.fields[i].data_type {
                    rec.values[i] = value;
                    true
                } else {
                    false
                }
            },
            None => false,
        }
    }

    /// The bind parameters of `rec`, in declared order: the order of the
    /// columns of the insert statement.
    pub fn bind_params(&self, rec: &Record) -> (r: Vec<DataType>)
        requires
            holds(self@.fields, rec.values@),
        ensures
            r@ == rec.values@,
    {
        let mut r: Vec<DataType> = Vec::new();
        let mut i: usize = 0;
        while i < rec.values.len()
            invariant
                i <= rec.values.len(),
                r@ == rec.values@.take(i as int),
            decreases rec.values.len() - i,
        {
            r.push(rec.values[i].duplicate());
            i += 1;
            proof {
                assert(r@ =~= rec.values@.take(i as int));
            }
        }
        proof {
            assert(rec.values@.take(i as int) =~= rec.values@);
        }
        r
    }

    /// Maps a stored row onto a record: column 0 is the key and is skipped,
    /// column `i + 1` holds field `i`.
    pub fn map_row(&self, row: &Vec<DataType>) -> (r: Result<Record, MappingError>)
        ensures
            match (r, decoded(row@, types_of(self@.fields))) {
                (Ok(rec), Ok(vs)) => rec.values@ == vs,
                (Err(e), Err(d)) => e == d,
                _ => false,
            },
    {
        match self.decode_row(row) {
            Ok(values) => Ok(Record { values }),
            Err(e) => Err(e),
        }
    }
}

} // verus!
