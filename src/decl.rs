//! Emitted struct fields: what each one declares and its source text.
use vstd::prelude::*;
use crate::naming::{field_ident, rust_field_name};
use crate::resolve::{
    RustType, TypeExpr, field_rust_type, field_type, optional_of, type_keys_unique, type_text,
    types_map,
};
use crate::schema::{Field, FieldView, TgType, TgTypeView};
use crate::text::{flatten_newlines, flattened, has_prefix, is_prefix, same_text};

verus! {

/// One field of an emitted struct.
#[derive(Debug)]
pub struct FieldDecl {
    /// Rust identifier.
    pub ident: String,
    /// Name in the serialized form.
    pub wire_name: String,
    pub ty: RustType,
    /// One-line documentation.
    pub doc: String,
}

pub struct FieldDeclView {
    pub ident: Seq<char>,
    pub wire_name: Seq<char>,
    pub ty: TypeExpr,
    pub doc: Seq<char>,
}

impl View for FieldDecl {
    type V = FieldDeclView;

    open spec fn view(&self) -> FieldDeclView {
        FieldDeclView {
            ident: self.ident@,
            wire_name: self.wire_name@,
            ty: self.ty@,
            doc: self.doc@,
        }
    }
}

pub open spec fn field_decls_view(ds: Seq<FieldDecl>) -> Seq<FieldDeclView> {
    ds.map_values(|d: FieldDecl| d@)
}

/// The declaration that a schema field becomes.
pub open spec fn field_decl_of(f: FieldView, m: Map<Seq<char>, TgTypeView>) -> FieldDeclView {
    FieldDeclView {
        ident: field_ident(f.name),
        wire_name: f.name,
        ty: field_type(f, m),
        doc: flattened(f.description),
    }
}

/// Builds the declaration of a schema field.
pub fn field_decl(field: &Field, types: &Vec<(String, TgType)>) -> (r: FieldDecl)
    requires
        type_keys_unique(types@),
    ensures
        r@ == field_decl_of(field@, types_map(types@)),
{
    FieldDecl {
        ident: rust_field_name(field.name.as_str()),
        wire_name: field.name.clone(),
        ty: field_rust_type(field, types),
        doc: flatten_newlines(field.description.as_str()),
    }
}

/// The identifier differs from the wire name, or is a raw identifier.
pub open spec fn needs_rename(d: FieldDeclView) -> bool {
    is_prefix("r#"@, d.ident) || d.ident != d.wire_name
}

/// `t` as an optional type: unchanged if it is one already.
pub open spec fn as_optional(t: TypeExpr) -> TypeExpr {
    if t is Optional {
        t
    } else {
        optional_of(t)
    }
}

/// The type a field is declared with: in an options struct always optional.
pub open spec fn declared_type(d: FieldDeclView, in_options: bool) -> TypeExpr {
    if in_options {
        as_optional(d.ty)
    } else {
        d.ty
    }
}

pub open spec fn rename_text(d: FieldDeclView) -> Seq<char> {
    if needs_rename(d) {
        "    #[serde(rename = \""@ + d.wire_name + "\")]\n"@
    } else {
        Seq::empty()
    }
}

pub open spec fn skip_none_text(t: TypeExpr) -> Seq<char> {
    if t is Optional {
        "    #[serde(skip_serializing_if = \"Option::is_none\")]\n"@
    } else {
        Seq::empty()
    }
}

/// The source text of a field inside a struct body.
pub open spec fn field_text(d: FieldDeclView, in_options: bool) -> Seq<char> {
    let t = declared_type(d, in_options);
    "    /// "@ + d.doc + "\n"@ + rename_text(d) + skip_none_text(t) + "    pub "@ + d.ident + ": "@
        + type_text(t) + ",\n"@
}

impl FieldDecl {
    /// Whether the serialized name must be given explicitly.
    pub fn needs_rename(&self) -> (r: bool)
        ensures
            r == needs_rename(self@),
    {
        has_prefix(self.ident.as_str(), "r#") || !same_text(
            self.ident.as_str(),
            self.wire_name.as_str(),
        )
    }

    /// The source text of this field; `in_options` makes its type optional.
    pub fn render(&self, in_options: bool) -> (r: String)
        ensures
            r@ == field_text(self@, in_options),
    {
        let mut out = String::from_str("    /// ");
        out.append(self.doc.as_str());
        out.append("\n");
        if self.needs_rename() {
            out.append("    #[serde(rename = \"");
            out.append(self.wire_name.as_str());
            out.append("\")]\n");
        }
        let rendered;
        let optional;
        if in_options && !self.ty.is_optional() {
            let t = self.ty.render();
            let mut s = String::from_str("Option<");
            s.append(t.as_str());
            s.append(">");
            rendered = s;
            optional = true;
        } else {
            rendered = self.ty.render();
            optional = self.ty.is_optional();
        }
        assert(optional == (declared_type(self@, in_options) is Optional));
        assert(rendered@ == type_text(declared_type(self@, in_options)));
        if optional {
            out.append("    #[serde(skip_serializing_if = \"Option::is_none\")]\n");
        }
        out.append("    pub ");
        out.append(self.ident.as_str());
        out.append(": ");
        out.append(rendered.as_str());
        out.append(",\n");
        out
    }
}

/// The source text of consecutive fields.
pub open spec fn fields_text(fs: Seq<FieldDeclView>, in_options: bool) -> Seq<char>
    decreases fs.len(),
{
    if fs.len() == 0 {
        Seq::empty()
    } else {
        fields_text(fs.drop_last(), in_options) + field_text(fs.last(), in_options)
    }
}

/// The source text of the fields in order.
pub fn render_fields(fs: &Vec<FieldDecl>, in_options: bool) -> (r: String)
    ensures
        r@ == fields_text(field_decls_view(fs@), in_options),
{
    let ghost v = field_decls_view(fs@);
    let mut out = String::new();
    let mut i: usize = 0;
    while i < fs.len()
        invariant
            i <= fs.len(),
            v == field_decls_view(fs@),
            out@ == fields_text(v.take(i as int), in_options),
        decreases fs.len() - i,
    {
        let t = fs[i].render(in_options);
        out.append(t.as_str());
        assert(v.take(i + 1).drop_last() =~= v.take(i as int));
        i += 1;
    }
    assert(v.take(i as int) =~= v);
    out
}

} // verus!
