//! Reading a declaration's name, shape and fields out of its text.
use vstd::prelude::*;

use crate::decl::{Declaration, PathSegment, Shape, TypeExpr};
use syn::{parse_str, Data, DeriveInput, Type};

verus! {

/// A field as parsed: its name (none in a tuple struct) and, for a path
/// type, whether it has a qualified self type and its segments, each with
/// whether it is bare (has no generic arguments).
pub type FieldParts = (Option<String>, Option<(bool, Vec<(String, bool)>)>);

/// A declaration as parsed: its name, its kind (0 a struct, 1 an enum, 2 a
/// union) and the fields of a struct.
pub type DeclParts = (String, u8, Vec<FieldParts>);

/// What `syn` parses `src` into as a struct, enum or union declaration,
/// seen as plain values: its name, its kind (0 a struct, 1 an enum, 2 a
/// union) and each field of a struct, with its name and, for a path type,
/// whether it has a qualified self type and each segment's identifier and
/// whether generic arguments follow it; `None` where `src` is no such
/// declaration.
pub uninterp spec fn parsed_parts(src: Seq<char>) -> Option<
    (Seq<char>, u8, Seq<(Option<Seq<char>>, Option<(bool, Seq<(Seq<char>, bool)>)>)>),
>;

pub open spec fn segment_view(s: PathSegment) -> (Seq<char>, bool) {
    (s.ident@, s.has_arguments)
}

pub open spec fn parsed_segment_view(s: (String, bool)) -> (Seq<char>, bool) {
    (s.0@, !s.1)
}

pub open spec fn path_view(p: Option<(bool, Vec<(String, bool)>)>) -> Option<
    (bool, Seq<(Seq<char>, bool)>),
> {
    match p {
        Some((q, segs)) => Some((q, segs@.map_values(|s: (String, bool)| parsed_segment_view(s)))),
        None => None,
    }
}

pub open spec fn field_parts_view(f: FieldParts) -> (
    Option<Seq<char>>,
    Option<(bool, Seq<(Seq<char>, bool)>)>,
) {
    (
        match f.0 {
            Some(n) => Some(n@),
            None => None,
        },
        path_view(f.1),
    )
}

pub open spec fn fields_view(fields: Seq<FieldParts>) -> Seq<
    (Option<Seq<char>>, Option<(bool, Seq<(Seq<char>, bool)>)>),
> {
    fields.map_values(|f: FieldParts| field_parts_view(f))
}

pub open spec fn parts_view(r: Option<DeclParts>) -> Option<
    (Seq<char>, u8, Seq<(Option<Seq<char>>, Option<(bool, Seq<(Seq<char>, bool)>)>)>),
> {
    match r {
        Some((name, kind, fields)) => Some(
            (name@, kind, fields_view(fields@)),
        ),
        None => None,
    }
}

/// Relies on `syn::parse_str::<DeriveInput>`: the declaration's `ident`,
/// which variant of `Data` it is, and for a struct each field's `ident` and,
/// for a `Type::Path`, whether `qself` is set and each segment's `ident` and
/// `PathArguments::is_none`.
#[verifier::external_body]
fn parse_parts(src: &str) -> (r: Option<DeclParts>)
    ensures
        parts_view(r) == parsed_parts(src@),
{
    let d: DeriveInput = parse_str(src).ok()?;
    let (kind, fields) = match &d.data {
        Data::Struct(b) => (0, Some(&b.fields)),
        Data::Enum(_) => (1, None),
        Data::Union(_) => (2, None)
    };
    let parts = fields.into_iter().flatten().map(|f| (f.ident.as_ref().map(ToString::to_string), match &f.ty {
        Type::Path(p) => Some((p.qself.is_some(), p.path.segments.iter().map(|s|
            (s.ident.to_string(), s.arguments.is_none())).collect())),
        _ => None
    })).collect();
    Some((d.ident.to_string(), kind, parts))
}

/// `t` is the type expression that the parsed type `p` stands for: a path
/// without a qualified self type, or another form.
pub open spec fn type_matches(t: TypeExpr, p: Option<(bool, Seq<(Seq<char>, bool)>)>) -> bool {
    match p {
        Some((false, segs)) => match t {
            TypeExpr::Path(v) => v@.map_values(|s: PathSegment| segment_view(s)) == segs,
            TypeExpr::Other => false,
        },
        _ => t is Other,
    }
}

pub open spec fn all_named(fs: Seq<(Option<Seq<char>>, Option<(bool, Seq<(Seq<char>, bool)>)>)>) -> bool {
    forall|i: int| 0 <= i < fs.len() ==> fs[i].0 is Some
}

/// `fields` are the record fields that the parsed fields `fs` stand for.
pub open spec fn fields_match(
    fields: Seq<crate::decl::RecordField>,
    fs: Seq<(Option<Seq<char>>, Option<(bool, Seq<(Seq<char>, bool)>)>)>,
) -> bool {
    &&& fields.len() == fs.len()
    &&& forall|i: int|
        0 <= i < fs.len() ==> fs[i].0 == Some(#[trigger] fields[i].name@) && type_matches(
            fields[i].ty,
            fs[i].1,
        )
}

/// `d` is the declaration that the parsed parts `v` stand for: a struct
/// whose fields all have names is a record, any other struct a tuple
/// struct.
pub open spec fn decl_matches(
    d: Declaration,
    v: (Seq<char>, u8, Seq<(Option<Seq<char>>, Option<(bool, Seq<(Seq<char>, bool)>)>)>),
) -> bool {
    &&& d.name@ == v.0
    &&& if v.1 == 0 {
        if all_named(v.2) {
            match d.shape {
                Shape::Record(fields) => fields_match(fields@, v.2),
                _ => false,
            }
        } else {
            d.shape is Tuple
        }
    } else if v.1 == 1 {
        d.shape is Enum
    } else {
        d.shape is Union
    }
}

/// The path segments that the parsed segments `segs` stand for.
fn path_segments(segs: Vec<(String, bool)>) -> (r: Vec<PathSegment>)
    ensures
        r@.map_values(|s: PathSegment| segment_view(s)) == segs@.map_values(
            |s: (String, bool)| parsed_segment_view(s),
        ),
{
    let ghost orig = segs@;
    let mut rest = segs;
    let mut out: Vec<PathSegment> = Vec::new();
    while rest.len() > 0
        invariant
            out@.len() + rest@.len() == orig.len(),
            forall|j: int| 0 <= j < rest@.len() ==> rest@[j] == orig[out@.len() + j],
            forall|j: int|
                0 <= j < out@.len() ==> segment_view(#[trigger] out@[j]) == parsed_segment_view(
                    orig[j],
                ),
        decreases rest@.len(),
    {
        let ghost old_rest = rest@;
        let (ident, bare) = rest.remove(0);
        assert forall|j: int| 0 <= j < rest@.len() implies rest@[j] == orig[out@.len() + 1 + j] by {
            assert(rest@[j] == old_rest[j + 1]);
        }
        out.push(PathSegment { ident, has_arguments: !bare });
    }
    assert(out@.map_values(|s: PathSegment| segment_view(s)) =~= orig.map_values(
        |s: (String, bool)| parsed_segment_view(s),
    ));
    out
}

/// The type expression of a parsed field type.
pub fn type_expr(path: Option<(bool, Vec<(String, bool)>)>) -> (r: TypeExpr)
    ensures
        type_matches(r, path_view(path)),
{
    match path {
        Some((false, segs)) => TypeExpr::Path(path_segments(segs)),
        _ => TypeExpr::Other,
    }
}

/// The shape of a struct with the parsed fields `parts`.
fn struct_shape(parts: Vec<FieldParts>) -> (r: Shape)
    ensures
        ({
            let fs = fields_view(parts@);
            if all_named(fs) {
                match r {
                    Shape::Record(fields) => fields_match(fields@, fs),
                    _ => false,
                }
            } else {
                r is Tuple
            }
        }),
{
    let ghost fs = fields_view(parts@);
    let ghost n = parts@.len();
    let mut rest = parts;
    let mut fields: Vec<crate::decl::RecordField> = Vec::new();
    while rest.len() > 0
        invariant
            fields@.len() + rest@.len() == n,
            n == fs.len(),
            fs == fields_view(parts@),
            forall|j: int| 0 <= j < rest@.len() ==> field_parts_view(rest@[j]) == fs[fields@.len() + j],
            forall|j: int|
                0 <= j < fields@.len() ==> fs[j].0 == Some(#[trigger] fields@[j].name@)
                    && type_matches(fields@[j].ty, fs[j].1),
        decreases rest@.len(),
    {
        let ghost old_rest = rest@;
        let ghost k = fields@.len();
        let item = rest.remove(0);
        assert(item == old_rest[0]);
        assert(field_parts_view(item) == fs[k as int]);
        let (name, path) = item;
        assert forall|j: int| 0 <= j < rest@.len() implies field_parts_view(rest@[j]) == fs[k + 1
            + j] by {
            assert(rest@[j] == old_rest[j + 1]);
        }
        match name {
            Some(nm) => {
                fields.push(crate::decl::RecordField { name: nm, ty: type_expr(path) });
            },
            None => {
                assert(fs[k as int].0 is None);
                assert(!all_named(fs));
                return Shape::Tuple;
            },
        }
    }
    assert forall|i: int| 0 <= i < fs.len() implies fs[i].0 is Some by {
        assert(fs[i].0 == Some(fields@[i].name@));
    }
    assert(fields_match(fields@, fs));
    Shape::Record(fields)
}

/// The declaration that `src` holds, `None` where it holds none.
pub fn inspect(src: &str) -> (r: Option<Declaration>)
    ensures
        match parsed_parts(src@) {
            None => r is None,
            Some(v) => r is Some && decl_matches(r->Some_0, v),
        },
{
    let (name, kind, parts) = match parse_parts(src) {
        Some(p) => p,
        None => return None,
    };
    let shape = if kind == 0 {
        struct_shape(parts)
    } else if kind == 1 {
        Shape::Enum
    } else {
        Shape::Union
    };
    Some(Declaration { name, shape })
}

} // verus!
