//! What generation guarantees of every declaration.
use vstd::prelude::*;

use crate::decl::{key_type_in, simple_name, Declaration, RecordField, Shape};
use crate::error::ModelError;
use crate::markers::{
    first_group,
    is_identifier,
    key_field_of,
    key_marker_pattern,
    key_marker_prefix,
    table_marker_pattern,
    table_marker_prefix,
    table_name_of,
};
use crate::ops::generation;
use crate::text::marker_line;

verus! {

proof fn lemma_key_type_found(
    fields: Seq<RecordField>,
    i: int,
    key: Seq<char>,
    default: Seq<char>,
    n: Seq<char>,
)
    requires
        0 <= i < fields.len(),
        fields[i].name@ == key,
        forall|j: int| 0 <= j < i ==> fields[j].name@ != key,
        simple_name(fields[i].ty) == Some(n),
    ensures
        key_type_in(fields, key, default) == n,
    decreases i,
{
    if i > 0 {
        let rest = fields.drop_first();
        assert forall|j: int| 0 <= j < i - 1 implies rest[j].name@ != key by {
            assert(rest[j] == fields[j + 1]);
        }
        lemma_key_type_found(rest, i - 1, key, default, n);
    }
}

proof fn lemma_key_type_absent(fields: Seq<RecordField>, key: Seq<char>, default: Seq<char>)
    requires
        forall|j: int| 0 <= j < fields.len() ==> fields[j].name@ != key,
    ensures
        key_type_in(fields, key, default) == default,
    decreases fields.len(),
{
    if fields.len() > 0 {
        let rest = fields.drop_first();
        assert forall|j: int| 0 <= j < rest.len() implies rest[j].name@ != key by {
            assert(rest[j] == fields[j + 1]);
        }
        lemma_key_type_absent(rest, key, default);
    }
}

/// Without a key-field marker line the key field is `id`; a record whose
/// table-name marker is well formed then generates with key field `id`.
pub proof fn lemma_key_field_defaults_to_id(d: Declaration, src: Seq<char>, default: Seq<char>)
    requires
        marker_line(src, key_marker_prefix()) is None,
    ensures
        key_field_of(src) == Ok::<Seq<char>, ModelError>("id"@),
        (d.shape is Record && table_name_of(src) is Ok) ==> (generation(d, src, default) is Ok
            && generation(d, src, default)->Ok_0.1 == "id"@),
{
}

/// Where the key field that the markers name is a field of the record with
/// a simple named type, the key type is that type's name.
pub proof fn lemma_declared_key_type(
    d: Declaration,
    fields: Vec<RecordField>,
    src: Seq<char>,
    default: Seq<char>,
    i: int,
    key: Seq<char>,
    table: Seq<char>,
    n: Seq<char>,
)
    requires
        d.shape == Shape::Record(fields),
        key_field_of(src) == Ok::<Seq<char>, ModelError>(key),
        table_name_of(src) == Ok::<Seq<char>, ModelError>(table),
        0 <= i < fields@.len(),
        fields@[i].name@ == key,
        forall|j: int| 0 <= j < i ==> fields@[j].name@ != key,
        simple_name(fields@[i].ty) == Some(n),
    ensures
        generation(d, src, default) == Ok::<(Seq<char>, Seq<char>, Seq<char>), ModelError>(
            (table, key, n),
        ),
{
    lemma_key_type_found(fields@, i, key, default, n);
}

/// Where no field of the record has the name that the markers give the key
/// field, the key type is the default one.
pub proof fn lemma_absent_key_type(
    d: Declaration,
    fields: Vec<RecordField>,
    src: Seq<char>,
    default: Seq<char>,
    key: Seq<char>,
    table: Seq<char>,
)
    requires
        d.shape == Shape::Record(fields),
        key_field_of(src) == Ok::<Seq<char>, ModelError>(key),
        table_name_of(src) == Ok::<Seq<char>, ModelError>(table),
        forall|j: int| 0 <= j < fields@.len() ==> fields@[j].name@ != key,
    ensures
        generation(d, src, default) == Ok::<(Seq<char>, Seq<char>, Seq<char>), ModelError>(
            (table, key, default),
        ),
{
    lemma_key_type_absent(fields@, key, default);
}

/// Generation fails on an enum or a union, on a malformed key-field marker,
/// on a missing table-name marker and on a malformed one; a marker whose
/// value is not an identifier is malformed.
pub proof fn lemma_fatal_inputs(d: Declaration, src: Seq<char>, default: Seq<char>)
    ensures
        d.shape is Enum ==> generation(d, src, default) == Err::<
            (Seq<char>, Seq<char>, Seq<char>),
            ModelError,
        >(ModelError::EnumInput),
        d.shape is Union ==> generation(d, src, default) == Err::<
            (Seq<char>, Seq<char>, Seq<char>),
            ModelError,
        >(ModelError::UnionInput),
        (d.shape is Record && marker_line(src, key_marker_prefix()) is Some && first_group(
            key_marker_pattern(),
            marker_line(src, key_marker_prefix())->Some_0,
        ) is None) ==> generation(d, src, default) == Err::<
            (Seq<char>, Seq<char>, Seq<char>),
            ModelError,
        >(ModelError::MalformedKeyField),
        (d.shape is Record && marker_line(src, key_marker_prefix()) is Some && first_group(
            key_marker_pattern(),
            marker_line(src, key_marker_prefix())->Some_0,
        ) is Some && !is_identifier(
            first_group(key_marker_pattern(), marker_line(src, key_marker_prefix())->Some_0)->Some_0,
        )) ==> generation(d, src, default) == Err::<
            (Seq<char>, Seq<char>, Seq<char>),
            ModelError,
        >(ModelError::MalformedKeyField),
        (d.shape is Record && key_field_of(src) is Ok && marker_line(src, table_marker_prefix())
            is Some && first_group(
            table_marker_pattern(),
            marker_line(src, table_marker_prefix())->Some_0,
        ) is Some && !is_identifier(
            first_group(table_marker_pattern(), marker_line(src, table_marker_prefix())->Some_0)->Some_0,
        )) ==> generation(d, src, default) == Err::<
            (Seq<char>, Seq<char>, Seq<char>),
            ModelError,
        >(ModelError::MalformedTableName),
        (d.shape is Record && key_field_of(src) is Ok && marker_line(src, table_marker_prefix())
            is None) ==> generation(d, src, default) == Err::<
            (Seq<char>, Seq<char>, Seq<char>),
            ModelError,
        >(ModelError::MissingTableName),
        (d.shape is Record && key_field_of(src) is Ok && marker_line(src, table_marker_prefix())
            is Some && first_group(
            table_marker_pattern(),
            marker_line(src, table_marker_prefix())->Some_0,
        ) is None) ==> generation(d, src, default) == Err::<
            (Seq<char>, Seq<char>, Seq<char>),
            ModelError,
        >(ModelError::MalformedTableName),
{
}

} // verus!
