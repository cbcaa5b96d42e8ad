use schemaconv::postgres::{parse_full_table_name, pg_data_type, NormalizeError};
use schemaconv::table::DataType;

#[test]
fn parsing_full_table_name() {
    assert_eq!(
        parse_full_table_name("mytable"),
        ("public".to_string(), "mytable".to_string())
    );
    assert_eq!(
        parse_full_table_name("other.mytable"),
        ("other".to_string(), "mytable".to_string())
    );
}

#[test]
fn splitting_at_first_separator_only() {
    assert_eq!(
        parse_full_table_name("a.b.c"),
        ("a".to_string(), "b.c".to_string())
    );
}

#[test]
fn splitting_empty_reference() {
    assert_eq!(
        parse_full_table_name(""),
        ("public".to_string(), "".to_string())
    );
}

#[test]
fn parsing_pg_data_type() {
    let ok_examples = &[
        // Basic types.
        (("bigint", "pg_catalog", "int8"), DataType::Bigint),
        (("boolean", "pg_catalog", "bool"), DataType::Boolean),
        (
            ("character varying", "pg_catalog", "varchar"),
            DataType::CharacterVarying,
        ),
        (("date", "pg_catalog", "date"), DataType::Date),
        (
            ("double precision", "pg_catalog", "float8"),
            DataType::DoublePrecision,
        ),
        (("integer", "pg_catalog", "int4"), DataType::Integer),
        (("json", "pg_catalog", "json"), DataType::Json),
        (("jsonb", "pg_catalog", "jsonb"), DataType::Jsonb),
        (("numeric", "pg_catalog", "numeric"), DataType::Numeric),
        (("real", "pg_catalog", "float4"), DataType::Real),
        (("smallint", "pg_catalog", "int2"), DataType::Smallint),
        (("text", "pg_catalog", "text"), DataType::Text),
        (
            ("timestamp without time zone", "pg_catalog", "timestamp"),
            DataType::TimestampWithoutTimeZone,
        ),
        // Array types.
        (
            ("ARRAY", "pg_catalog", "_bool"),
            DataType::Array(Box::new(DataType::Boolean)),
        ),
        (
            ("ARRAY", "pg_catalog", "_float8"),
            DataType::Array(Box::new(DataType::DoublePrecision)),
        ),
        (
            ("ARRAY", "pg_catalog", "_int4"),
            DataType::Array(Box::new(DataType::Integer)),
        ),
        (
            ("ARRAY", "pg_catalog", "_text"),
            DataType::Array(Box::new(DataType::Text)),
        ),
        (
            ("ARRAY", "pg_catalog", "_uuid"),
            DataType::Array(Box::new(DataType::Uuid)),
        ),
        // User-defined types.
        (
            ("USER-DEFINED", "public", "citext"),
            DataType::Other("citext".to_owned()),
        ),
        (
            ("USER-DEFINED", "public", "geometry"),
            DataType::Other("geometry".to_owned()),
        ),
    ];
    for ((data_type, udt_schema, udt_name), expected) in ok_examples {
        assert_eq!(
            &pg_data_type(data_type, udt_schema, udt_name).unwrap(),
            expected,
        );
    }

    // Standard-looking names outside the closed vocabulary are a loud
    // failure, never a silent fallback.
    let err_examples = &[
        ("interval", "pg_catalog", "interval"),
        ("name", "pg_catalog", "name"),
        ("oid", "pg_catalog", "oid"),
        ("regclass", "pg_catalog", "regclass"),
        ("regtype", "pg_catalog", "regtype"),
    ];
    for (data_type, udt_schema, udt_name) in err_examples {
        assert_eq!(
            pg_data_type(data_type, udt_schema, udt_name),
            Err(NormalizeError::UnrecognizedDataType(data_type.to_string())),
        );
    }
}

#[test]
fn unknown_array_element_fails_loudly() {
    assert_eq!(
        pg_data_type("ARRAY", "pg_catalog", "_unknown_tag"),
        Err(NormalizeError::UnknownArrayElementType(
            "_unknown_tag".to_string()
        )),
    );
}

#[test]
fn user_defined_falls_back_to_other() {
    assert_eq!(
        pg_data_type("USER-DEFINED", "public", "citext"),
        Ok(DataType::Other("citext".to_string())),
    );
}

#[test]
fn unrecognized_data_type_fails_loudly() {
    assert_eq!(
        pg_data_type("totally_unknown_type", "pg_catalog", "whatever"),
        Err(NormalizeError::UnrecognizedDataType(
            "totally_unknown_type".to_string()
        )),
    );
}

#[test]
fn canonical_encoding_round_trips() {
    let variants = vec![
        DataType::Bigint,
        DataType::Boolean,
        DataType::CharacterVarying,
        DataType::Date,
        DataType::DoublePrecision,
        DataType::Integer,
        DataType::Json,
        DataType::Jsonb,
        DataType::Numeric,
        DataType::Real,
        DataType::Smallint,
        DataType::Text,
        DataType::TimestampWithoutTimeZone,
        DataType::Uuid,
    ];
    for v in variants {
        let s = v.to_canonical_string().unwrap();
        assert_eq!(DataType::parse(s.as_str()), Some(v));
    }
}

#[test]
fn escape_variants_have_no_canonical_encoding() {
    assert_eq!(
        DataType::Array(Box::new(DataType::Text)).to_canonical_string(),
        None
    );
    assert_eq!(
        DataType::Other("citext".to_string()).to_canonical_string(),
        None
    );
    assert_eq!(DataType::parse("ARRAY"), None);
    assert_eq!(DataType::parse("USER-DEFINED"), None);
}
