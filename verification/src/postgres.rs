//! PostgreSQL catalog normalization: mapping raw catalog metadata (declared
//! type, namespace hint, internal type tag, nullability flag) onto the
//! portable vocabulary, resolving table references, and assembling `Table`
//! values from raw catalog rows.

use crate::strutil::str_eq;
use crate::table::{spec_parse, Column, ColumnModel, DataType, DataTypeModel, Table, TableModel};
use vstd::multiset::Multiset;
use vstd::prelude::*;
use vstd::string::StrSliceExecFns;
use vstd::string::StringExecFns;

verus! {

/// A failure to map a raw type descriptor onto the vocabulary.
#[derive(Debug, PartialEq, Eq)]
pub enum NormalizeError {
    /// An `ARRAY` column whose element tag is not in the fixed element table;
    /// carries the unrecognized tag.
    UnknownArrayElementType(String),
    /// A declared type that the canonical parser does not recognize; carries
    /// the raw declared-type string.
    UnrecognizedDataType(String),
}

/// The mathematical value of a `NormalizeError`.
pub enum NormalizeErrorModel {
    UnknownArrayElementType(Seq<char>),
    UnrecognizedDataType(Seq<char>),
}

impl NormalizeError {
    /// The mathematical value of this error.
    pub open spec fn model(self) -> NormalizeErrorModel {
        match self {
            NormalizeError::UnknownArrayElementType(tag) => NormalizeErrorModel::UnknownArrayElementType(
                tag@,
            ),
            NormalizeError::UnrecognizedDataType(raw) => NormalizeErrorModel::UnrecognizedDataType(
                raw@,
            ),
        }
    }
}

/// The mathematical value of a normalization result.
pub open spec fn normalize_result_model(r: Result<DataType, NormalizeError>) -> Result<
    DataTypeModel,
    NormalizeErrorModel,
> {
    match r {
        Result::Ok(dt) => Result::Ok(dt.model()),
        Result::Err(e) => Result::Err(e.model()),
    }
}

/// The fixed array-element table: each known underscore-prefixed internal tag
/// maps to its scalar type; everything else is unknown.
pub open spec fn spec_array_element(udt_name: Seq<char>) -> Option<DataTypeModel> {
    if udt_name == "_bool"@ {
        Some(DataTypeModel::Boolean)
    } else if udt_name == "_float8"@ {
        Some(DataTypeModel::DoublePrecision)
    } else if udt_name == "_int4"@ {
        Some(DataTypeModel::Integer)
    } else if udt_name == "_text"@ {
        Some(DataTypeModel::Text)
    } else if udt_name == "_uuid"@ {
        Some(DataTypeModel::Uuid)
    } else {
        None
    }
}

/// What type normalization returns, in order of precedence: the `ARRAY`
/// sentinel goes through the fixed element table (unknown tags fail loudly),
/// the `USER-DEFINED` sentinel is opaque by design, and everything else goes
/// through the canonical parser (unrecognized names fail loudly).
pub open spec fn spec_pg_data_type(data_type: Seq<char>, udt_name: Seq<char>) -> Result<
    DataTypeModel,
    NormalizeErrorModel,
> {
    if data_type == "ARRAY"@ {
        match spec_array_element(udt_name) {
            Some(elem) => Result::Ok(DataTypeModel::Array(Box::new(elem))),
            None => Result::Err(NormalizeErrorModel::UnknownArrayElementType(udt_name)),
        }
    } else if data_type == "USER-DEFINED"@ {
        Result::Ok(DataTypeModel::Other(udt_name))
    } else {
        match spec_parse(data_type) {
            Some(v) => Result::Ok(v),
            None => Result::Err(NormalizeErrorModel::UnrecognizedDataType(data_type)),
        }
    }
}

/// Choose an appropriate `DataType` for one raw catalog type descriptor.
///
/// The namespace hint is accepted for interface symmetry but takes no part in
/// the decision.
pub fn pg_data_type(data_type: &str, _udt_schema: &str, udt_name: &str) -> (r: Result<
    DataType,
    NormalizeError,
>)
    ensures
        normalize_result_model(r) == spec_pg_data_type(data_type@, udt_name@),
{
    if str_eq(data_type, "ARRAY") {
        let element_type = if str_eq(udt_name, "_bool") {
            DataType::Boolean
        } else if str_eq(udt_name, "_float8") {
            DataType::DoublePrecision
        } else if str_eq(udt_name, "_int4") {
            DataType::Integer
        } else if str_eq(udt_name, "_text") {
            DataType::Text
        } else if str_eq(udt_name, "_uuid") {
            DataType::Uuid
        } else {
            return Result::Err(NormalizeError::UnknownArrayElementType(udt_name.to_owned()));
        };
        proof {
            assert(element_type.model() == spec_array_element(udt_name@)->Some_0);
        }
        Result::Ok(DataType::Array(Box::new(element_type)))
    } else if str_eq(data_type, "USER-DEFINED") {
        Result::Ok(DataType::Other(udt_name.to_owned()))
    } else {
        match DataType::parse(data_type) {
            Some(dt) => Result::Ok(dt),
            None => Result::Err(NormalizeError::UnrecognizedDataType(data_type.to_owned())),
        }
    }
}

/// True when the reference string contains the namespace separator.
pub open spec fn spec_has_separator(s: Seq<char>) -> bool {
    exists|i: int| 0 <= i < s.len() && s[i] == '.'
}

/// Given a table reference of the form `mytable` or `myschema.mytable`, split
/// it at the first `.` into a namespace and a table name; without a separator
/// the namespace defaults to `public`.
pub fn parse_full_table_name(full_table_name: &str) -> (r: (String, String))
    ensures
        spec_has_separator(full_table_name@) ==> exists|i: int|
            0 <= i < full_table_name@.len() && full_table_name@[i] == '.' && (forall|j: int|
                0 <= j < i ==> full_table_name@[j] != '.') && r.0@ == full_table_name@.take(i)
                && r.1@ == full_table_name@.skip(i + 1),
        !spec_has_separator(full_table_name@) ==> r.0@ == "public"@ && r.1@ == full_table_name@,
{
    let len = full_table_name.unicode_len();
    let mut i: usize = 0;
    while i < len
        invariant
            len == full_table_name@.len(),
            0 <= i <= len,
            forall|j: int| 0 <= j < i ==> full_table_name@[j] != '.',
        decreases len - i,
    {
        if full_table_name.get_char(i) == '.' {
            let namespace = full_table_name.substring_char(0, i).to_owned();
            let name = full_table_name.substring_char(i + 1, len).to_owned();
            proof {
                assert(0 <= i < full_table_name@.len() && full_table_name@[i as int] == '.' && (
                forall|j: int| 0 <= j < i ==> full_table_name@[j] != '.') && namespace@
                    == full_table_name@.take(i as int) && name@ == full_table_name@.skip(
                    i + 1,
                ));
            }
            return (namespace, name);
        }
        i += 1;
    }
    (String::from_str("public"), full_table_name.to_owned())
}

/// One raw catalog row: the backend's native projection of one
/// information-schema column record.
#[derive(Debug, PartialEq, Eq)]
pub struct PgColumn {
    pub table_catalog: String,
    pub table_schema: String,
    pub table_name: String,
    pub column_name: String,
    pub ordinal_position: i32,
    pub is_nullable: String,
    pub data_type: String,
    pub udt_schema: String,
    pub udt_name: String,
}

impl PgColumn {
    /// Get the data type for a column.
    pub fn data_type(&self) -> (r: Result<DataType, NormalizeError>)
        ensures
            normalize_result_model(r) == spec_pg_data_type(self.data_type@, self.udt_name@),
    {
        pg_data_type(self.data_type.as_str(), self.udt_schema.as_str(), self.udt_name.as_str())
    }
}

/// A failure to assemble a `Table` from catalog rows.
#[derive(Debug, PartialEq, Eq)]
pub enum IntrospectionError {
    /// A nullability flag outside `YES`/`NO`; carries the column name and the
    /// offending value.
    InvalidNullabilityEncoding { column: String, value: String },
    /// A type-normalization failure, annotated with the offending column
    /// name.
    Normalization { column: String, error: NormalizeError },
}

/// The mathematical value of an `IntrospectionError`.
pub enum IntrospectionErrorModel {
    InvalidNullabilityEncoding { column: Seq<char>, value: Seq<char> },
    Normalization { column: Seq<char>, error: NormalizeErrorModel },
}

impl IntrospectionError {
    /// The mathematical value of this error.
    pub open spec fn model(self) -> IntrospectionErrorModel {
        match self {
            IntrospectionError::InvalidNullabilityEncoding { column, value } => IntrospectionErrorModel::InvalidNullabilityEncoding {
                column: column@,
                value: value@,
            },
            IntrospectionError::Normalization { column, error } => IntrospectionErrorModel::Normalization {
                column: column@,
                error: error.model(),
            },
        }
    }
}

/// The two-valued nullability encoding: `YES` or `NO`, anything else is
/// invalid.
pub open spec fn spec_nullability(s: Seq<char>) -> Option<bool> {
    if s == "YES"@ {
        Some(true)
    } else if s == "NO"@ {
        Some(false)
    } else {
        None
    }
}

/// What one raw catalog row decodes to: the nullability flag is decoded
/// first, then the type descriptor is normalized; comments are out of scope
/// and always absent.
pub open spec fn spec_decode_row(row: PgColumn) -> Result<ColumnModel, IntrospectionErrorModel> {
    match spec_nullability(row.is_nullable@) {
        None => Result::Err(
            IntrospectionErrorModel::InvalidNullabilityEncoding {
                column: row.column_name@,
                value: row.is_nullable@,
            },
        ),
        Some(b) => match spec_pg_data_type(row.data_type@, row.udt_name@) {
            Result::Err(e) => Result::Err(
                IntrospectionErrorModel::Normalization { column: row.column_name@, error: e },
            ),
            Result::Ok(dt) => Result::Ok(
                ColumnModel {
                    name: row.column_name@,
                    data_type: dt,
                    is_nullable: b,
                    comment: None,
                },
            ),
        },
    }
}

/// Ascending catalog ordinal order.
pub open spec fn spec_sorted_by_ordinal(rows: Seq<PgColumn>) -> bool {
    forall|i: int, j: int|
        0 <= i < j < rows.len() ==> rows[i].ordinal_position <= rows[j].ordinal_position
}

/// `s` holds exactly the rows of `rows`, in ascending ordinal order.
pub open spec fn spec_sorted_permutation_of(s: Seq<PgColumn>, rows: Seq<PgColumn>) -> bool {
    spec_sorted_by_ordinal(s) && s.to_multiset() == rows.to_multiset() && s.len() == rows.len()
}

/// `t`'s columns are exactly the decoded rows of `s`, pointwise and in
/// order.
pub open spec fn spec_assembled_from(t: TableModel, s: Seq<PgColumn>) -> bool {
    t.columns.len() == s.len() && (forall|i: int|
        0 <= i < s.len() ==> spec_decode_row(s[i]) is Ok && t.columns[i] == spec_decode_row(
            s[i],
        )->Ok_0)
}

/// `e` is the decode error of the first row of `s` that fails to decode.
pub open spec fn spec_first_failure(s: Seq<PgColumn>, e: IntrospectionErrorModel) -> bool {
    exists|i: int|
        0 <= i < s.len() && spec_decode_row(s[i]) == Result::<
            ColumnModel,
            IntrospectionErrorModel,
        >::Err(e) && (forall|j: int| 0 <= j < i ==> spec_decode_row(s[j]) is Ok)
}

/// Sort catalog rows into ascending ordinal order; the result is a
/// permutation of the input.
pub fn sort_rows_by_ordinal(rows: Vec<PgColumn>) -> (sorted: Vec<PgColumn>)
    ensures
        spec_sorted_by_ordinal(sorted@),
        sorted@.to_multiset() == rows@.to_multiset(),
        sorted@.len() == rows@.len(),
{
    broadcast use vstd::seq_lib::group_to_multiset_ensures, vstd::multiset::group_multiset_axioms;

    let mut rest = rows;
    let mut sorted: Vec<PgColumn> = Vec::new();
    proof {
        assert(sorted@.to_multiset().add(rest@.to_multiset()) =~= rows@.to_multiset());
    }
    while rest.len() > 0
        invariant
            sorted@.to_multiset().add(rest@.to_multiset()) == rows@.to_multiset(),
            sorted@.len() + rest@.len() == rows@.len(),
            spec_sorted_by_ordinal(sorted@),
            forall|i: int, j: int|
                0 <= i < sorted@.len() && 0 <= j < rest@.len() ==> sorted@[i].ordinal_position
                    <= rest@[j].ordinal_position,
        decreases rest@.len(),
    {
        let mut min_idx: usize = 0;
        let mut k: usize = 1;
        while k < rest.len()
            invariant
                0 < rest@.len(),
                min_idx < k,
                1 <= k <= rest@.len(),
                forall|t: int|
                    0 <= t < k ==> rest@[min_idx as int].ordinal_position
                        <= rest@[t].ordinal_position,
            decreases rest@.len() - k,
        {
            if rest[k].ordinal_position < rest[min_idx].ordinal_position {
                min_idx = k;
            }
            k += 1;
        }
        let ghost rest_before = rest@;
        let ghost sorted_before = sorted@;
        let row = rest.remove(min_idx);
        sorted.push(row);
        proof {
            broadcast use vstd::multiset::group_multiset_axioms;

            vstd::seq_lib::to_multiset_contains::<PgColumn>(rest_before, row);
            vstd::seq_lib::to_multiset_build::<PgColumn>(sorted_before, row);
            vstd::seq_lib::to_multiset_remove::<PgColumn>(rest_before, min_idx as int);
            assert(rest_before.contains(row));
            assert(rest_before.to_multiset().count(row) > 0);
            assert(sorted@.to_multiset().add(rest@.to_multiset()) =~= sorted_before.to_multiset().add(
                rest_before.to_multiset(),
            ));
        }
    }
    proof {
        assert(rest@.to_multiset() =~= Multiset::<PgColumn>::empty());
        assert(sorted@.to_multiset() =~= rows@.to_multiset());
    }
    sorted
}

/// A driver for working with PostgreSQL.
pub struct PostgresDriver;

impl PostgresDriver {
    /// Assemble a `Table` from raw catalog rows: the rows are put into
    /// ascending ordinal order and decoded one by one; the first row that
    /// fails to decode aborts the assembly. Zero rows yield a table with no
    /// columns, not an error.
    pub fn table_from_rows(table_name: &str, rows: Vec<PgColumn>) -> (r: Result<
        Table,
        IntrospectionError,
    >)
        ensures
            r is Ok <==> (forall|i: int|
                0 <= i < rows@.len() ==> spec_decode_row(rows@[i]) is Ok),
            r matches Ok(t) ==> t.model().name == table_name@ && exists|s: Seq<PgColumn>|
                spec_sorted_permutation_of(s, rows@) && spec_assembled_from(t.model(), s),
            r matches Err(e) ==> exists|s: Seq<PgColumn>|
                spec_sorted_permutation_of(s, rows@) && spec_first_failure(s, e.model()),
            r matches Err(e) ==> exists|i: int|
                0 <= i < rows@.len() && spec_decode_row(rows@[i]) == Result::<
                    ColumnModel,
                    IntrospectionErrorModel,
                >::Err(e.model()),
    {
        broadcast use vstd::seq_lib::group_to_multiset_ensures;

        let sorted = sort_rows_by_ordinal(rows);
        let mut columns: Vec<Column> = Vec::new();
        let mut idx: usize = 0;
        while idx < sorted.len()
            invariant
                spec_sorted_by_ordinal(sorted@),
                sorted@.to_multiset() == rows@.to_multiset(),
                sorted@.len() == rows@.len(),
                0 <= idx <= sorted@.len(),
                columns@.len() == idx,
                forall|i: int|
                    0 <= i < idx ==> #[trigger] spec_decode_row(sorted@[i]) is Ok
                        && columns@[i].model() == spec_decode_row(sorted@[i])->Ok_0,
            decreases sorted@.len() - idx,
        {
            let row = &sorted[idx];
            let is_nullable = if str_eq(row.is_nullable.as_str(), "YES") {
                true
            } else if str_eq(row.is_nullable.as_str(), "NO") {
                false
            } else {
                let err = IntrospectionError::InvalidNullabilityEncoding {
                    column: row.column_name.clone(),
                    value: row.is_nullable.clone(),
                };
                proof {
                    lemma_row_in_rows(sorted@, rows@, idx as int);
                    let j = choose|j: int|
                        0 <= j < rows@.len() && rows@[j] == sorted@[idx as int];
                    assert(spec_decode_row(rows@[j]) == Result::<
                        ColumnModel,
                        IntrospectionErrorModel,
                    >::Err(err.model()));
                    assert(spec_sorted_permutation_of(sorted@, rows@));
                    assert(0 <= idx < sorted@.len() && spec_decode_row(sorted@[idx as int])
                        == Result::<ColumnModel, IntrospectionErrorModel>::Err(err.model()) && (
                    forall|j: int| 0 <= j < idx ==> spec_decode_row(sorted@[j]) is Ok));
                    assert(spec_first_failure(sorted@, err.model()));
                }
                return Result::Err(err);
            };
            let data_type = match row.data_type() {
                Result::Ok(dt) => dt,
                Result::Err(e) => {
                    let err = IntrospectionError::Normalization {
                        column: row.column_name.clone(),
                        error: e,
                    };
                    proof {
                        lemma_row_in_rows(sorted@, rows@, idx as int);
                        let j = choose|j: int|
                            0 <= j < rows@.len() && rows@[j] == sorted@[idx as int];
                        assert(spec_decode_row(rows@[j]) == Result::<
                            ColumnModel,
                            IntrospectionErrorModel,
                        >::Err(err.model()));
                        assert(spec_sorted_permutation_of(sorted@, rows@));
                        assert(0 <= idx < sorted@.len() && spec_decode_row(sorted@[idx as int])
                            == Result::<ColumnModel, IntrospectionErrorModel>::Err(err.model())
                            && (forall|j: int|
                            0 <= j < idx ==> spec_decode_row(sorted@[j]) is Ok));
                        assert(spec_first_failure(sorted@, err.model()));
                    }
                    return Result::Err(err);
                },
            };
            let column = Column {
                name: row.column_name.clone(),
                data_type,
                is_nullable,
                comment: None,
            };
            columns.push(column);
            idx += 1;
        }
        let table = Table { name: table_name.to_owned(), columns };
        proof {
            assert forall|i: int| 0 <= i < rows@.len() implies spec_decode_row(
                rows@[i],
            ) is Ok by {
                lemma_row_in_rows(rows@, sorted@, i);
                let j = choose|j: int| 0 <= j < sorted@.len() && sorted@[j] == rows@[i];
                assert(spec_decode_row(sorted@[j]) is Ok);
            }
            assert forall|i: int| 0 <= i < sorted@.len() implies spec_decode_row(
                sorted@[i],
            ) is Ok && table.model().columns[i] == spec_decode_row(sorted@[i])->Ok_0 by {
                assert(columns@[i].model() == spec_decode_row(sorted@[i])->Ok_0);
            }
            assert(spec_sorted_permutation_of(sorted@, rows@));
            assert(spec_assembled_from(table.model(), sorted@));
        }
        Result::Ok(table)
    }
}

/// One identifier character, escaped by the backend's identifier rule: an
/// embedded double quote is doubled, every other character (a backslash
/// included) stands as it is.
pub open spec fn spec_escaped_char(c: char) -> Seq<char> {
    if c == '"' {
        seq!['"', '"']
    } else {
        seq![c]
    }
}

/// A column name's characters, each escaped, in order.
pub open spec fn spec_escaped_chars(name: Seq<char>) -> Seq<char>
    decreases name.len(),
{
    if name.len() == 0 {
        Seq::empty()
    } else {
        spec_escaped_chars(name.drop_last()) + spec_escaped_char(name.last())
    }
}

/// A quoted identifier: the name, with embedded double quotes doubled,
/// wrapped in double quotes.
pub open spec fn spec_quoted_ident(name: Seq<char>) -> Seq<char> {
    seq!['"'] + spec_escaped_chars(name) + seq!['"']
}

/// The comma-separated quoted column names, in order, with no trailing
/// separator.
pub open spec fn spec_select_args(cols: Seq<ColumnModel>) -> Seq<char>
    decreases cols.len(),
{
    if cols.len() == 0 {
        Seq::empty()
    } else if cols.len() == 1 {
        spec_quoted_ident(cols[0].name)
    } else {
        spec_select_args(cols.drop_last()) + seq![','] + spec_quoted_ident(cols.last().name)
    }
}

impl PostgresDriver {
    /// Write out a table's column names as `SELECT` arguments: each name
    /// quoted as an identifier (wrapped in double quotes, embedded double
    /// quotes doubled), comma-separated, in column order.
    pub fn write_select_args(f: &mut String, table: &Table)
        ensures
            final(f)@ == old(f)@ + spec_select_args(table.model().columns),
    {
        let ghost cols = table.model().columns;
        let mut ci: usize = 0;
        while ci < table.columns.len()
            invariant
                cols == table.model().columns,
                cols.len() == table.columns@.len(),
                0 <= ci <= cols.len(),
                f@ == old(f)@ + spec_select_args(cols.take(ci as int)),
            decreases cols.len() - ci,
        {
            if ci > 0 {
                f.push(',');
            }
            f.push('"');
            let name: &String = &table.columns[ci].name;
            let ghost mid = f@;
            let len = name.as_str().unicode_len();
            let mut j: usize = 0;
            while j < len
                invariant
                    len == name@.len(),
                    0 <= j <= len,
                    f@ == mid + spec_escaped_chars(name@.take(j as int)),
                decreases len - j,
            {
                let c = name.as_str().get_char(j);
                if c == '"' {
                    f.push('"');
                }
                f.push(c);
                proof {
                    assert(name@.take(j + 1).drop_last() =~= name@.take(j as int));
                    assert(name@.take(j + 1).last() == name@[j as int]);
                    assert(f@ =~= mid + spec_escaped_chars(name@.take(j + 1)));
                }
                j += 1;
            }
            f.push('"');
            proof {
                assert(name@.take(len as int) =~= name@);
                assert(cols[ci as int].name == name@);
                assert(cols.take(ci + 1).drop_last() =~= cols.take(ci as int));
                assert(cols.take(ci + 1).last() == cols[ci as int]);
                if ci == 0 {
                    assert(spec_select_args(cols.take(1)) == spec_quoted_ident(
                        cols.take(1)[0].name,
                    ));
                }
                assert(f@ =~= old(f)@ + spec_select_args(cols.take(ci + 1)));
            }
            ci += 1;
        }
        proof {
            assert(cols.take(cols.len() as int) =~= cols);
        }
    }
}

/// An element of one sequence is an element of any other sequence with the
/// same multiset of elements.
proof fn lemma_row_in_rows(a: Seq<PgColumn>, b: Seq<PgColumn>, i: int)
    requires
        a.to_multiset() == b.to_multiset(),
        0 <= i < a.len(),
    ensures
        exists|j: int| 0 <= j < b.len() && b[j] == a[i],
{
    broadcast use vstd::seq_lib::group_to_multiset_ensures;

    assert(a.contains(a[i]));
    assert(a.to_multiset().count(a[i]) > 0);
    assert(b.to_multiset().count(a[i]) > 0);
    assert(b.contains(a[i]));
}

} // verus!
