//! Identifiers of emitted items, and the hand-maintained types left out of emission.
use vstd::prelude::*;
use crate::text::same_text;

verus! {

/// What heck's snake-case conversion makes of a text.
pub uninterp spec fn snake_case_of(s: Seq<char>) -> Seq<char>;

/// What heck's upper-camel-case conversion makes of a text.
pub uninterp spec fn pascal_case_of(s: Seq<char>) -> Seq<char>;

/// Relies on `heck::ToSnakeCase::to_snake_case` for `str`: its result is a
/// function of the input text alone.
#[verifier::external_body]
fn snake_case(s: &str) -> (r: String)
    ensures
        r@ == snake_case_of(s@),
{
    heck::ToSnakeCase::to_snake_case(s)
}

/// Relies on `heck::ToPascalCase::to_pascal_case` for `str`: its result is a
/// function of the input text alone.
#[verifier::external_body]
fn pascal_case(s: &str) -> (r: String)
    ensures
        r@ == pascal_case_of(s@),
{
    heck::ToPascalCase::to_pascal_case(s)
}

/// The Rust identifier of a field: a raw identifier for the keywords that the
/// schema uses as field names, else the snake-case form.
pub open spec fn field_ident(name: Seq<char>) -> Seq<char> {
    if name == "type"@ {
        "r#type"@
    } else if name == "self"@ {
        "r#self"@
    } else if name == "move"@ {
        "r#move"@
    } else {
        snake_case_of(name)
    }
}

/// The Rust identifier of a field named `name` on the wire.
pub fn rust_field_name(name: &str) -> (r: String)
    ensures
        r@ == field_ident(name@),
{
    if same_text(name, "type") {
        String::from_str("r#type")
    } else if same_text(name, "self") {
        String::from_str("r#self")
    } else if same_text(name, "move") {
        String::from_str("r#move")
    } else {
        snake_case(name)
    }
}

/// The name of the wrapper function of a method.
pub fn method_fn_name(name: &str) -> (r: String)
    ensures
        r@ == snake_case_of(name@),
{
    snake_case(name)
}

pub open spec fn params_type_name(name: Seq<char>) -> Seq<char> {
    pascal_case_of(name) + "Params"@
}

/// The name of the struct that holds a method's optional parameters.
pub fn method_params_name(name: &str) -> (r: String)
    ensures
        r@ == params_type_name(name@),
{
    let mut out = pascal_case(name);
    out.append("Params");
    out
}

/// The types written by hand in the client library, never emitted.
pub open spec fn skip_listed(name: Seq<char>) -> bool {
    name == "InputFile"@ || name == "InputMedia"@
}

/// Whether the named type is maintained by hand and left out of emission.
pub fn is_skipped(name: &str) -> (r: bool)
    ensures
        r == skip_listed(name@),
{
    same_text(name, "InputFile") || same_text(name, "InputMedia")
}

} // verus!
