//! Record declarations and the resolution of their key field's type.
use vstd::prelude::*;

verus! {

/// One segment of a type path: its identifier and whether it carries
/// generic arguments.
#[derive(Debug, Clone)]
pub struct PathSegment {
    pub ident: String,
    pub has_arguments: bool,
}

/// A field's declared type: a path (`i32`, `Vec<u8>`, `std::string::String`)
/// or any other form (a reference, a tuple, an array, ...).
#[derive(Debug, Clone)]
pub enum TypeExpr {
    Path(Vec<PathSegment>),
    Other,
}

/// A named field of a record.
#[derive(Debug, Clone)]
pub struct RecordField {
    pub name: String,
    pub ty: TypeExpr,
}

/// What kind of type a declaration introduces; only a record, a struct with
/// named fields, can be given data-access operations.
#[derive(Debug, Clone)]
pub enum Shape {
    Record(Vec<RecordField>),
    Tuple,
    Enum,
    Union,
}

/// A type declaration: its name and its shape.
#[derive(Debug, Clone)]
pub struct Declaration {
    pub name: String,
    pub shape: Shape,
}

/// The key field's name and declared type, as the operations use them.
#[derive(Debug, Clone)]
pub struct ResolvedKey {
    pub field_name: String,
    pub field_type: String,
}

/// The name of a simple named type: a path of one segment without generic
/// arguments. Other types have none.
pub open spec fn simple_name(t: TypeExpr) -> Option<Seq<char>> {
    match t {
        TypeExpr::Path(segs) => if segs@.len() == 1 && !segs@[0].has_arguments {
            Some(segs@[0].ident@)
        } else {
            None
        },
        TypeExpr::Other => None,
    }
}

/// The key type for the key field named `key` among `fields`: the simple
/// type name of the first field so named, else `default`.
pub open spec fn key_type_in(fields: Seq<RecordField>, key: Seq<char>, default: Seq<char>) -> Seq<char>
    decreases fields.len(),
{
    if fields.len() == 0 {
        default
    } else if fields[0].name@ == key {
        match simple_name(fields[0].ty) {
            Some(n) => n,
            None => default,
        }
    } else {
        key_type_in(fields.drop_first(), key, default)
    }
}

/// The simple name of `t`, if it is a simple named type.
pub fn simple_type_name(t: &TypeExpr) -> (r: Option<String>)
    ensures
        match r {
            Some(n) => simple_name(*t) == Some(n@),
            None => simple_name(*t) is None,
        },
{
    match t {
        TypeExpr::Path(segs) => {
            if segs.len() == 1 && !segs[0].has_arguments {
                Some(segs[0].ident.clone())
            } else {
                None
            }
        },
        TypeExpr::Other => None,
    }
}

proof fn lemma_key_type_step(fields: Seq<RecordField>, i: int, key: Seq<char>, default: Seq<char>)
    requires
        0 <= i < fields.len(),
        fields[i].name@ != key,
    ensures
        key_type_in(fields.subrange(i, fields.len() as int), key, default) == key_type_in(
            fields.subrange(i + 1, fields.len() as int),
            key,
            default,
        ),
{
    assert(fields.subrange(i, fields.len() as int).drop_first() =~= fields.subrange(
        i + 1,
        fields.len() as int,
    ));
}

/// Resolves the key field named `key_field` among `fields`: its type is the
/// simple type name of the first field so named, or `default_type` where no
/// field has that name or its type is not a simple named type.
pub fn resolve_key(fields: &Vec<RecordField>, key_field: &String, default_type: &str) -> (r:
    ResolvedKey)
    ensures
        r.field_name@ == key_field@,
        r.field_type@ == key_type_in(fields@, key_field@, default_type@),
{
    let mut i: usize = 0;
    assert(fields@.subrange(0, fields@.len() as int) =~= fields@);
    while i < fields.len()
        invariant
            i <= fields@.len(),
            key_type_in(fields@, key_field@, default_type@) == key_type_in(
                fields@.subrange(i as int, fields@.len() as int),
                key_field@,
                default_type@,
            ),
        decreases fields@.len() - i,
    {
        if fields[i].name == *key_field {
            let ghost rest = fields@.subrange(i as int, fields@.len() as int);
            assert(rest[0] == fields@[i as int]);
            let field_type = match simple_type_name(&fields[i].ty) {
                Some(n) => n,
                None => default_type.to_owned(),
            };
            return ResolvedKey { field_name: key_field.clone(), field_type };
        }
        proof {
            lemma_key_type_step(fields@, i as int, key_field@, default_type@);
        }
        i = i + 1;
    }
    ResolvedKey { field_name: key_field.clone(), field_type: default_type.to_owned() }
}

} // verus!
