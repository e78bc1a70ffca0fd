//! The four data-access operations and the generation pipeline.
use vstd::prelude::*;

use crate::decl::{key_type_in, resolve_key, Declaration, ResolvedKey, Shape};
use crate::error::ModelError;
use crate::inspect::{decl_matches, inspect, parsed_parts};
use crate::markers::{get_id_field, get_table_name, key_field_of, table_name_of};

verus! {

/// The key type assumed where the record does not declare its key field.
pub const DEFAULT_KEY_TYPE: &'static str = "i16";

/// What an operation does with the storage collaborator.
#[derive(Debug, Clone, Copy, PartialEq, Eq, Structural)]
pub enum OperationKind {
    /// Point query: the first row whose key column equals the given key.
    Find,
    /// Persist-or-update of the record's current field values.
    Save,
    /// Unfiltered scan of the table.
    All,
    /// Delete of the rows whose key column equals the record's key.
    Destroy,
}

/// One generated operation: its name, the table it reads or writes, and the
/// column it filters on.
#[derive(Debug, Clone)]
pub struct Operation {
    pub kind: OperationKind,
    pub name: String,
    pub table: Option<String>,
    pub filter_column: Option<String>,
}

/// The operations generated for one record type.
#[derive(Debug, Clone)]
pub struct OperationSet {
    pub record_name: String,
    pub table_name: String,
    pub key_field: String,
    pub key_type: String,
    pub operations: Vec<Operation>,
}

pub open spec fn opt_view(o: Option<String>) -> Option<Seq<char>> {
    match o {
        Some(s) => Some(s@),
        None => None,
    }
}

pub open spec fn is_operation(
    op: Operation,
    kind: OperationKind,
    name: Seq<char>,
    table: Option<Seq<char>>,
    filter_column: Option<Seq<char>>,
) -> bool {
    op.kind == kind && op.name@ == name && opt_view(op.table) == table && opt_view(
        op.filter_column,
    ) == filter_column
}

/// `s` holds exactly the operations `find`, `save`, `all` and `destroy`, in
/// that order: `find` and `destroy` filter its table on its key field, `all`
/// scans its table.
pub open spec fn well_formed_set(s: OperationSet) -> bool {
    let ops = s.operations@;
    let t = Some(s.table_name@);
    let k = Some(s.key_field@);
    &&& ops.len() == 4
    &&& is_operation(ops[0], OperationKind::Find, "find"@, t, k)
    &&& is_operation(ops[1], OperationKind::Save, "save"@, None, None)
    &&& is_operation(ops[2], OperationKind::All, "all"@, t, None)
    &&& is_operation(ops[3], OperationKind::Destroy, "destroy"@, t, k)
}

/// Builds the four operations of the record type `record_name`, bound to
/// table `table_name` and keyed by `key`.
pub fn emit(record_name: &String, table_name: &String, key: ResolvedKey) -> (r: OperationSet)
    ensures
        r.record_name@ == record_name@,
        r.table_name@ == table_name@,
        r.key_field@ == key.field_name@,
        r.key_type@ == key.field_type@,
        well_formed_set(r),
{
    let mut operations: Vec<Operation> = Vec::new();
    operations.push(
        Operation {
            kind: OperationKind::Find,
            name: "find".to_owned(),
            table: Some(table_name.clone()),
            filter_column: Some(key.field_name.clone()),
        },
    );
    operations.push(
        Operation {
            kind: OperationKind::Save,
            name: "save".to_owned(),
            table: None,
            filter_column: None,
        },
    );
    operations.push(
        Operation {
            kind: OperationKind::All,
            name: "all".to_owned(),
            table: Some(table_name.clone()),
            filter_column: None,
        },
    );
    operations.push(
        Operation {
            kind: OperationKind::Destroy,
            name: "destroy".to_owned(),
            table: Some(table_name.clone()),
            filter_column: Some(key.field_name.clone()),
        },
    );
    OperationSet {
        record_name: record_name.clone(),
        table_name: table_name.clone(),
        key_field: key.field_name,
        key_type: key.field_type,
        operations,
    }
}

/// What generation yields for declaration `d` with marker text `src` and
/// default key type `default`: the table name, the key field's name and
/// the key field's type, or the first fatal error met (shape, then key-field
/// marker, then table-name marker).
pub open spec fn generation(d: Declaration, src: Seq<char>, default: Seq<char>) -> Result<
    (Seq<char>, Seq<char>, Seq<char>),
    ModelError,
> {
    match d.shape {
        Shape::Enum => Err(ModelError::EnumInput),
        Shape::Union => Err(ModelError::UnionInput),
        Shape::Tuple => Err(ModelError::TupleInput),
        Shape::Record(fields) => match key_field_of(src) {
            Err(e) => Err(e),
            Ok(key) => match table_name_of(src) {
                Err(e) => Err(e),
                Ok(table) => Ok((table, key, key_type_in(fields@, key, default))),
            },
        },
    }
}

/// `r` is what generating the operations of `d`, with markers in `src` and
/// default key type `default`, yields.
pub open spec fn generated_from(
    d: Declaration,
    src: Seq<char>,
    default: Seq<char>,
    r: Result<OperationSet, ModelError>,
) -> bool {
    match r {
        Ok(s) => {
            &&& generation(d, src, default) == Ok::<(Seq<char>, Seq<char>, Seq<char>), ModelError>(
                (s.table_name@, s.key_field@, s.key_type@),
            )
            &&& s.record_name@ == d.name@
            &&& well_formed_set(s)
        },
        Err(e) => generation(d, src, default) == Err::<(Seq<char>, Seq<char>, Seq<char>), ModelError>(
            e,
        ),
    }
}

/// Generates the operations of the declaration `decl`, whose markers stand
/// in `source`, with `default_key_type` for a key field that the record does
/// not declare.
pub fn generate(decl: &Declaration, source: &str, default_key_type: &str) -> (r: Result<
    OperationSet,
    ModelError,
>)
    ensures
        generated_from(*decl, source@, default_key_type@, r),
{
    let fields = match &decl.shape {
        Shape::Enum => return Err(ModelError::EnumInput),
        Shape::Union => return Err(ModelError::UnionInput),
        Shape::Tuple => return Err(ModelError::TupleInput),
        Shape::Record(fields) => fields,
    };
    let key_field = match get_id_field(source) {
        Ok(k) => k,
        Err(e) => return Err(e),
    };
    let key = resolve_key(fields, &key_field, default_key_type);
    let table_name = match get_table_name(source) {
        Ok(t) => t,
        Err(e) => return Err(e),
    };
    Ok(emit(&decl.name, &table_name, key))
}

/// Generates the operations of the type declared, with its markers, in
/// `input`, with `i16` as the type of a key field that the record does not
/// declare: those of the declaration that `syn` parses out of `input`.
/// Text that holds no type declaration gives `Unparsable`.
pub fn model(input: &str) -> (r: Result<OperationSet, ModelError>)
    ensures
        match parsed_parts(input@) {
            None => r == Err::<OperationSet, ModelError>(ModelError::Unparsable),
            Some(v) => exists|d: Declaration|
                decl_matches(d, v) && generated_from(d, input@, DEFAULT_KEY_TYPE@, r),
        },
{
    match inspect(input) {
        None => Err(ModelError::Unparsable),
        Some(decl) => {
            let r = generate(&decl, input, DEFAULT_KEY_TYPE);
            assert(decl_matches(decl, parsed_parts(input@)->Some_0));
            assert(generated_from(decl, input@, DEFAULT_KEY_TYPE@, r));
            r
        },
    }
}

} // verus!
