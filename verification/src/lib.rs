//! Schema-introspection core: a portable column-type vocabulary, the
//! PostgreSQL catalog normalization rules that map raw metadata onto it, and
//! the table/column model they assemble.

pub mod postgres;
pub mod strutil;
pub mod table;
