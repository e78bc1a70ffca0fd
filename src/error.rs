//! The ways in which generation fails.
use vstd::prelude::*;

verus! {

/// A fatal generation error: nothing is generated for the declaration.
#[derive(Debug, Clone, Copy, PartialEq, Eq, Structural)]
pub enum ModelError {
    /// The text does not parse as a struct, enum or union declaration.
    Unparsable,
    /// The declaration is an enum.
    EnumInput,
    /// The declaration is a union.
    UnionInput,
    /// The declaration is a struct whose fields have no names.
    TupleInput,
    /// No line carries the table-name marker.
    MissingTableName,
    /// The table-name marker line does not hold `#[table_name = "..."]`
    /// around an identifier.
    MalformedTableName,
    /// The key-field marker line does not hold `#[model_id = "..."]`
    /// around an identifier.
    MalformedKeyField,
}

} // verus!
