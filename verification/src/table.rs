//! The portable column-type vocabulary and the table/column model.
//!
//! `DataType` is a closed, backend-independent set of canonical column types
//! plus two escape hatches: `Array` for array types and `Other` for opaque,
//! backend-specific types. The non-escape variants have a canonical string
//! encoding that round-trips through `DataType::parse`; the escape variants
//! are only ever produced by backend-specific normalization, never by the
//! generic parser.

use crate::strutil::str_eq;
use vstd::prelude::*;
use vstd::string::StringExecFns;

verus! {

/// A canonical column type.
#[derive(Debug, PartialEq, Eq)]
pub enum DataType {
    Bigint,
    Boolean,
    CharacterVarying,
    Date,
    DoublePrecision,
    Integer,
    Json,
    Jsonb,
    Numeric,
    Real,
    Smallint,
    Text,
    TimestampWithoutTimeZone,
    Uuid,
    /// An array of another type.
    Array(Box<DataType>),
    /// An opaque, backend-specific type, carrying the backend's internal type
    /// name verbatim.
    Other(String),
}

/// The mathematical value of a `DataType`: the same tree, with strings
/// abstracted to character sequences.
pub enum DataTypeModel {
    Bigint,
    Boolean,
    CharacterVarying,
    Date,
    DoublePrecision,
    Integer,
    Json,
    Jsonb,
    Numeric,
    Real,
    Smallint,
    Text,
    TimestampWithoutTimeZone,
    Uuid,
    Array(Box<DataTypeModel>),
    Other(Seq<char>),
}

impl DataType {
    /// The mathematical value of this type.
    pub open spec fn model(self) -> DataTypeModel
        decreases self,
    {
        match self {
            DataType::Bigint => DataTypeModel::Bigint,
            DataType::Boolean => DataTypeModel::Boolean,
            DataType::CharacterVarying => DataTypeModel::CharacterVarying,
            DataType::Date => DataTypeModel::Date,
            DataType::DoublePrecision => DataTypeModel::DoublePrecision,
            DataType::Integer => DataTypeModel::Integer,
            DataType::Json => DataTypeModel::Json,
            DataType::Jsonb => DataTypeModel::Jsonb,
            DataType::Numeric => DataTypeModel::Numeric,
            DataType::Real => DataTypeModel::Real,
            DataType::Smallint => DataTypeModel::Smallint,
            DataType::Text => DataTypeModel::Text,
            DataType::TimestampWithoutTimeZone => DataTypeModel::TimestampWithoutTimeZone,
            DataType::Uuid => DataTypeModel::Uuid,
            DataType::Array(elem) => DataTypeModel::Array(Box::new((*elem).model())),
            DataType::Other(name) => DataTypeModel::Other(name@),
        }
    }
}

/// The canonical string encoding of a type: defined for every non-escape
/// variant, undefined for `Array` and `Other`.
pub open spec fn spec_canonical(v: DataTypeModel) -> Option<Seq<char>> {
    match v {
        DataTypeModel::Bigint => Some("bigint"@),
        DataTypeModel::Boolean => Some("boolean"@),
        DataTypeModel::CharacterVarying => Some("character varying"@),
        DataTypeModel::Date => Some("date"@),
        DataTypeModel::DoublePrecision => Some("double precision"@),
        DataTypeModel::Integer => Some("integer"@),
        DataTypeModel::Json => Some("json"@),
        DataTypeModel::Jsonb => Some("jsonb"@),
        DataTypeModel::Numeric => Some("numeric"@),
        DataTypeModel::Real => Some("real"@),
        DataTypeModel::Smallint => Some("smallint"@),
        DataTypeModel::Text => Some("text"@),
        DataTypeModel::TimestampWithoutTimeZone => Some("timestamp without time zone"@),
        DataTypeModel::Uuid => Some("uuid"@),
        DataTypeModel::Array(_) => None,
        DataTypeModel::Other(_) => None,
    }
}

/// What the canonical parser accepts: exactly the canonical encodings of the
/// non-escape variants. Everything else is rejected; in particular the parser
/// never produces `Array` or `Other`.
pub open spec fn spec_parse(s: Seq<char>) -> Option<DataTypeModel> {
    if s == "bigint"@ {
        Some(DataTypeModel::Bigint)
    } else if s == "boolean"@ {
        Some(DataTypeModel::Boolean)
    } else if s == "character varying"@ {
        Some(DataTypeModel::CharacterVarying)
    } else if s == "date"@ {
        Some(DataTypeModel::Date)
    } else if s == "double precision"@ {
        Some(DataTypeModel::DoublePrecision)
    } else if s == "integer"@ {
        Some(DataTypeModel::Integer)
    } else if s == "json"@ {
        Some(DataTypeModel::Json)
    } else if s == "jsonb"@ {
        Some(DataTypeModel::Jsonb)
    } else if s == "numeric"@ {
        Some(DataTypeModel::Numeric)
    } else if s == "real"@ {
        Some(DataTypeModel::Real)
    } else if s == "smallint"@ {
        Some(DataTypeModel::Smallint)
    } else if s == "text"@ {
        Some(DataTypeModel::Text)
    } else if s == "timestamp without time zone"@ {
        Some(DataTypeModel::TimestampWithoutTimeZone)
    } else if s == "uuid"@ {
        Some(DataTypeModel::Uuid)
    } else {
        None
    }
}

impl DataType {
    /// Render the canonical encoding of a non-escape variant; `Array` and
    /// `Other` have none.
    pub fn to_canonical_string(&self) -> (r: Option<String>)
        ensures
            r is Some <==> spec_canonical(self.model()) is Some,
            r matches Some(s) ==> spec_canonical(self.model()) == Some(s@),
    {
        match self {
            DataType::Bigint => Some(String::from_str("bigint")),
            DataType::Boolean => Some(String::from_str("boolean")),
            DataType::CharacterVarying => Some(String::from_str("character varying")),
            DataType::Date => Some(String::from_str("date")),
            DataType::DoublePrecision => Some(String::from_str("double precision")),
            DataType::Integer => Some(String::from_str("integer")),
            DataType::Json => Some(String::from_str("json")),
            DataType::Jsonb => Some(String::from_str("jsonb")),
            DataType::Numeric => Some(String::from_str("numeric")),
            DataType::Real => Some(String::from_str("real")),
            DataType::Smallint => Some(String::from_str("smallint")),
            DataType::Text => Some(String::from_str("text")),
            DataType::TimestampWithoutTimeZone => Some(
                String::from_str("timestamp without time zone"),
            ),
            DataType::Uuid => Some(String::from_str("uuid")),
            DataType::Array(_) => None,
            DataType::Other(_) => None,
        }
    }

    /// Parse a canonical encoding back into its type. Exactly the canonical
    /// encodings of the non-escape variants are accepted.
    pub fn parse(s: &str) -> (r: Option<DataType>)
        ensures
            r is Some <==> spec_parse(s@) is Some,
            r matches Some(dt) ==> spec_parse(s@) == Some(dt.model()),
    {
        if str_eq(s, "bigint") {
            Some(DataType::Bigint)
        } else if str_eq(s, "boolean") {
            Some(DataType::Boolean)
        } else if str_eq(s, "character varying") {
            Some(DataType::CharacterVarying)
        } else if str_eq(s, "date") {
            Some(DataType::Date)
        } else if str_eq(s, "double precision") {
            Some(DataType::DoublePrecision)
        } else if str_eq(s, "integer") {
            Some(DataType::Integer)
        } else if str_eq(s, "json") {
            Some(DataType::Json)
        } else if str_eq(s, "jsonb") {
            Some(DataType::Jsonb)
        } else if str_eq(s, "numeric") {
            Some(DataType::Numeric)
        } else if str_eq(s, "real") {
            Some(DataType::Real)
        } else if str_eq(s, "smallint") {
            Some(DataType::Smallint)
        } else if str_eq(s, "text") {
            Some(DataType::Text)
        } else if str_eq(s, "timestamp without time zone") {
            Some(DataType::TimestampWithoutTimeZone)
        } else if str_eq(s, "uuid") {
            Some(DataType::Uuid)
        } else {
            None
        }
    }
}

/// The encoding round-trips: parsing the canonical string of any non-escape
/// variant yields that variant back.
pub proof fn lemma_canonical_round_trip(v: DataTypeModel)
    requires
        spec_canonical(v) is Some,
    ensures
        spec_parse(spec_canonical(v)->Some_0) == Some(v),
{
    broadcast use vstd::string::group_string_axioms;

    reveal_strlit("bigint");
    reveal_strlit("boolean");
    reveal_strlit("character varying");
    reveal_strlit("date");
    reveal_strlit("double precision");
    reveal_strlit("integer");
    reveal_strlit("json");
    reveal_strlit("jsonb");
    reveal_strlit("numeric");
    reveal_strlit("real");
    reveal_strlit("smallint");
    reveal_strlit("text");
    reveal_strlit("timestamp without time zone");
    reveal_strlit("uuid");
    // The canonical encodings are pairwise distinct: no two share both their
    // length and their first character.
    assert("bigint"@.len() == 6);
    assert("boolean"@.len() == 7);
    assert("character varying"@.len() == 17);
    assert("date"@.len() == 4);
    assert("double precision"@.len() == 16);
    assert("integer"@.len() == 7);
    assert("json"@.len() == 4);
    assert("jsonb"@.len() == 5);
    assert("numeric"@.len() == 7);
    assert("real"@.len() == 4);
    assert("smallint"@.len() == 8);
    assert("text"@.len() == 4);
    assert("timestamp without time zone"@.len() == 27);
    assert("uuid"@.len() == 4);
    assert("boolean"@[0] == 'b' && "integer"@[0] == 'i' && "numeric"@[0] == 'n');
    assert("date"@[0] == 'd' && "json"@[0] == 'j' && "real"@[0] == 'r' && "text"@[0] == 't'
        && "uuid"@[0] == 'u');
    match v {
        DataTypeModel::Bigint => assert(spec_parse("bigint"@) == Some(v)),
        DataTypeModel::Boolean => assert(spec_parse("boolean"@) == Some(v)),
        DataTypeModel::CharacterVarying => assert(spec_parse("character varying"@) == Some(v)),
        DataTypeModel::Date => assert(spec_parse("date"@) == Some(v)),
        DataTypeModel::DoublePrecision => assert(spec_parse("double precision"@) == Some(v)),
        DataTypeModel::Integer => assert(spec_parse("integer"@) == Some(v)),
        DataTypeModel::Json => assert(spec_parse("json"@) == Some(v)),
        DataTypeModel::Jsonb => assert(spec_parse("jsonb"@) == Some(v)),
        DataTypeModel::Numeric => assert(spec_parse("numeric"@) == Some(v)),
        DataTypeModel::Real => assert(spec_parse("real"@) == Some(v)),
        DataTypeModel::Smallint => assert(spec_parse("smallint"@) == Some(v)),
        DataTypeModel::Text => assert(spec_parse("text"@) == Some(v)),
        DataTypeModel::TimestampWithoutTimeZone => assert(spec_parse(
            "timestamp without time zone"@,
        ) == Some(v)),
        DataTypeModel::Uuid => assert(spec_parse("uuid"@) == Some(v)),
        DataTypeModel::Array(_) => assert(false),
        DataTypeModel::Other(_) => assert(false),
    }
}

/// One column of a table.
#[derive(Debug, PartialEq)]
pub struct Column {
    pub name: String,
    pub data_type: DataType,
    pub is_nullable: bool,
    pub comment: Option<String>,
}

/// The mathematical value of a `Column`.
pub struct ColumnModel {
    pub name: Seq<char>,
    pub data_type: DataTypeModel,
    pub is_nullable: bool,
    pub comment: Option<Seq<char>>,
}

impl Column {
    /// The mathematical value of this column.
    pub open spec fn model(self) -> ColumnModel {
        ColumnModel {
            name: self.name@,
            data_type: self.data_type.model(),
            is_nullable: self.is_nullable,
            comment: match self.comment {
                Option::None => Option::None,
                Option::Some(c) => Option::Some(c@),
            },
        }
    }
}

/// A table: a name and its columns in catalog ordinal order.
#[derive(Debug, PartialEq)]
pub struct Table {
    pub name: String,
    pub columns: Vec<Column>,
}

/// The mathematical value of a `Table`.
pub struct TableModel {
    pub name: Seq<char>,
    pub columns: Seq<ColumnModel>,
}

impl Table {
    /// The mathematical value of this table.
    pub open spec fn model(self) -> TableModel {
        TableModel {
            name: self.name@,
            columns: self.columns@.map_values(|c: Column| c.model()),
        }
    }
}

} // verus!
