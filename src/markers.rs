//! Reading the table-name and key-field markers out of declaration text.
use vstd::prelude::*;

use crate::error::ModelError;
use crate::text::{find_marker_line, marker_line};

verus! {

/// What the first capture group of the leftmost match of `pattern` in
/// `text` holds; `None` where there is no match.
pub uninterp spec fn first_group(pattern: Seq<char>, text: Seq<char>) -> Option<Seq<char>>;

/// Relies on `regex::Regex::new`, `Regex::captures` and `Captures::get`:
/// the text of group 1 of the leftmost match, `None` without a match (or
/// where the pattern does not compile).
#[verifier::external_body]
fn capture_first_group(pattern: &str, text: &Vec<char>) -> (r: Option<String>)
    ensures
        match r {
            Some(v) => first_group(pattern@, text@) == Some(v@),
            None => first_group(pattern@, text@) is None,
        },
{
    let haystack: String = text.iter().collect();
    let re = regex::Regex::new(pattern).ok()?;
    let caps = re.captures(&haystack)?;
    caps.get(1).map(|m| m.as_str().to_string())
}

/// What `syn` parses `text` into as one identifier, written back out;
/// `None` where it is not one (a keyword, a number, several tokens, ...).
pub uninterp spec fn ident_text(text: Seq<char>) -> Option<Seq<char>>;

/// Relies on `syn::parse_str::<syn::Ident>` and `Ident`'s `Display`: the
/// identifier that `s` parses as, `None` where it parses as none.
#[verifier::external_body]
fn parse_ident(s: &String) -> (r: Option<String>)
    ensures
        match r {
            Some(v) => ident_text(s@) == Some(v@),
            None => ident_text(s@) is None,
        },
{
    syn::parse_str::<syn::Ident>(s).ok().map(|i| i.to_string())
}

/// Whether `v` is an identifier, written exactly as `syn` writes it back.
pub open spec fn is_identifier(v: Seq<char>) -> bool {
    ident_text(v) == Some(v)
}

/// Whether `v` is an identifier, written exactly as `syn` writes it back.
pub fn identifier(v: &String) -> (r: bool)
    ensures
        r == is_identifier(v@),
{
    match parse_ident(v) {
        Some(t) => t == *v,
        None => false,
    }
}

/// The characters of `s`, in order.
pub fn chars_of(s: &str) -> (r: Vec<char>)
    ensures
        r@ == s@,
{
    let n = s.unicode_len();
    let mut v: Vec<char> = Vec::new();
    let mut i: usize = 0;
    while i < n
        invariant
            n == s@.len(),
            i <= n,
            v@ == s@.subrange(0, i as int),
        decreases n - i,
    {
        v.push(s.get_char(i));
        i = i + 1;
        assert(v@ =~= s@.subrange(0, i as int));
    }
    assert(v@ =~= s@);
    v
}

/// The start of a line that carries the key-field marker.
pub open spec fn key_marker_prefix() -> Seq<char> {
    "#[model_id"@
}

/// The shape of a well-formed key-field marker; group 1 is the field name.
pub open spec fn key_marker_pattern() -> Seq<char> {
    r###"#\[model_id[\s_]?=[\s_]?"(.*)"\]"###@
}

/// The start of a line that carries the table-name marker.
pub open spec fn table_marker_prefix() -> Seq<char> {
    "#[table_name ="@
}

/// The shape of a well-formed table-name marker; group 1 is the table name.
pub open spec fn table_marker_pattern() -> Seq<char> {
    r###"#\[table_name = "(.*)"\]"###@
}

/// The name of the key field that the text `src` declares: `"id"` without
/// a key-field marker line, else the value that the first such line holds,
/// which must be an identifier.
pub open spec fn key_field_of(src: Seq<char>) -> Result<Seq<char>, ModelError> {
    match marker_line(src, key_marker_prefix()) {
        None => Ok("id"@),
        Some(line) => match first_group(key_marker_pattern(), line) {
            Some(v) => if is_identifier(v) {
                Ok(v)
            } else {
                Err(ModelError::MalformedKeyField)
            },
            None => Err(ModelError::MalformedKeyField),
        },
    }
}

/// The table name that the text `src` declares in its first table-name
/// marker line, which must be an identifier.
pub open spec fn table_name_of(src: Seq<char>) -> Result<Seq<char>, ModelError> {
    match marker_line(src, table_marker_prefix()) {
        None => Err(ModelError::MissingTableName),
        Some(line) => match first_group(table_marker_pattern(), line) {
            Some(v) => if is_identifier(v) {
                Ok(v)
            } else {
                Err(ModelError::MalformedTableName)
            },
            None => Err(ModelError::MalformedTableName),
        },
    }
}

/// The key field's name, from the key-field marker of `input` or `"id"`.
pub fn get_id_field(input: &str) -> (r: Result<String, ModelError>)
    ensures
        match r {
            Ok(v) => key_field_of(input@) == Ok::<Seq<char>, ModelError>(v@),
            Err(e) => key_field_of(input@) == Err::<Seq<char>, ModelError>(e),
        },
{
    let src = chars_of(input);
    let prefix = chars_of("#[model_id");
    match find_marker_line(&src, &prefix) {
        None => Ok("id".to_owned()),
        Some(line) => match capture_first_group(r###"#\[model_id[\s_]?=[\s_]?"(.*)"\]"###, &line) {
            Some(v) => if identifier(&v) {
                Ok(v)
            } else {
                Err(ModelError::MalformedKeyField)
            },
            None => Err(ModelError::MalformedKeyField),
        },
    }
}

/// The table name, from the table-name marker of `input`.
pub fn get_table_name(input: &str) -> (r: Result<String, ModelError>)
    ensures
        match r {
            Ok(v) => table_name_of(input@) == Ok::<Seq<char>, ModelError>(v@),
            Err(e) => table_name_of(input@) == Err::<Seq<char>, ModelError>(e),
        },
{
    let src = chars_of(input);
    let prefix = chars_of("#[table_name =");
    match find_marker_line(&src, &prefix) {
        None => Err(ModelError::MissingTableName),
        Some(line) => match capture_first_group(r###"#\[table_name = "(.*)"\]"###, &line) {
            Some(v) => if identifier(&v) {
                Ok(v)
            } else {
                Err(ModelError::MalformedTableName)
            },
            None => Err(ModelError::MalformedTableName),
        },
    }
}

} // verus!
