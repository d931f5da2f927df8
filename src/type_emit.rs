//! The type emitter: one declaration per named schema type, in name order.
use vstd::prelude::*;
use crate::decl::{
    FieldDecl, FieldDeclView, field_decl, field_decl_of, field_decls_view, fields_text,
    render_fields,
};
use crate::naming::{is_skipped, skip_listed};
use crate::ordering::{entry_keys, lists_sorted, sorted_keys, sorted_names};
use crate::resolve::{find_type, type_keys_unique, types_map};
use crate::schema::{
    ApiSpec, TgType, TgTypeView, keys_of, lemma_entries_map_dom, type_entries,
};
use crate::text::{join_with, joined};

verus! {

/// The declaration that a named schema type becomes.
#[derive(Debug)]
pub enum TypeDecl {
    /// An untagged enum whose variants wrap the types of the same names.
    Sum { name: String, doc: String, href: String, variants: Vec<String> },
    /// An empty struct.
    Marker { name: String, doc: String, href: String },
    /// A struct with one field per schema field.
    Struct { name: String, doc: String, href: String, fields: Vec<FieldDecl> },
}

pub enum TypeDeclView {
    Sum { name: Seq<char>, doc: Seq<char>, href: Seq<char>, variants: Seq<Seq<char>> },
    Marker { name: Seq<char>, doc: Seq<char>, href: Seq<char> },
    Struct { name: Seq<char>, doc: Seq<char>, href: Seq<char>, fields: Seq<FieldDeclView> },
}

impl View for TypeDecl {
    type V = TypeDeclView;

    open spec fn view(&self) -> TypeDeclView {
        match self {
            TypeDecl::Sum { name, doc, href, variants } => TypeDeclView::Sum {
                name: name@,
                doc: doc@,
                href: href@,
                variants: variants.deep_view(),
            },
            TypeDecl::Marker { name, doc, href } => TypeDeclView::Marker {
                name: name@,
                doc: doc@,
                href: href@,
            },
            TypeDecl::Struct { name, doc, href, fields } => TypeDeclView::Struct {
                name: name@,
                doc: doc@,
                href: href@,
                fields: field_decls_view(fields@),
            },
        }
    }
}

impl TypeDeclView {
    pub open spec fn name(self) -> Seq<char> {
        match self {
            TypeDeclView::Sum { name, .. } => name,
            TypeDeclView::Marker { name, .. } => name,
            TypeDeclView::Struct { name, .. } => name,
        }
    }
}

pub open spec fn type_decls_view(ds: Seq<TypeDecl>) -> Seq<TypeDeclView> {
    ds.map_values(|d: TypeDecl| d@)
}

/// The documentation lines of a type, joined for a `///` block.
pub open spec fn type_doc(t: TgTypeView) -> Seq<char> {
    joined(t.description, "\n/// "@)
}

/// The fields of a struct, each declared in schema order.
pub open spec fn field_decls_of(
    fs: Seq<crate::schema::FieldView>,
    m: Map<Seq<char>, TgTypeView>,
) -> Seq<FieldDeclView> {
    fs.map_values(|f: crate::schema::FieldView| field_decl_of(f, m))
}

/// What the named type `t`, listed under `name`, is declared as.
pub open spec fn type_decl_of(
    name: Seq<char>,
    t: TgTypeView,
    m: Map<Seq<char>, TgTypeView>,
) -> TypeDeclView {
    if t.subtypes.len() > 0 {
        TypeDeclView::Sum { name, doc: type_doc(t), href: t.href, variants: t.subtypes }
    } else if t.fields.len() == 0 {
        TypeDeclView::Marker { name, doc: type_doc(t), href: t.href }
    } else {
        TypeDeclView::Struct {
            name,
            doc: type_doc(t),
            href: t.href,
            fields: field_decls_of(t.fields, m),
        }
    }
}

/// The declarations for `names` in order, the skip-listed ones left out.
pub open spec fn plan_of_names(
    names: Seq<Seq<char>>,
    m: Map<Seq<char>, TgTypeView>,
) -> Seq<TypeDeclView>
    decreases names.len(),
{
    if names.len() == 0 {
        Seq::empty()
    } else {
        let rest = plan_of_names(names.drop_last(), m);
        let n = names.last();
        if skip_listed(n) {
            rest
        } else {
            rest.push(type_decl_of(n, m[n], m))
        }
    }
}

/// All type declarations of a schema, by increasing name.
pub open spec fn type_plan(m: Map<Seq<char>, TgTypeView>) -> Seq<TypeDeclView> {
    plan_of_names(sorted_names(m.dom()), m)
}

fn copy_names(v: &Vec<String>) -> (r: Vec<String>)
    ensures
        r.deep_view() == v.deep_view(),
{
    let mut out: Vec<String> = Vec::new();
    let mut i: usize = 0;
    while i < v.len()
        invariant
            i <= v.len(),
            out@.len() == i,
            forall|j: int| 0 <= j < i ==> #[trigger] out@[j]@ == v@[j]@,
        decreases v.len() - i,
    {
        let c = v[i].clone();
        out.push(c);
        i += 1;
    }
    assert(out.deep_view() =~= v.deep_view());
    out
}

/// Builds the declaration of the named type `t`, listed under `name`.
pub fn type_decl(name: &String, t: &TgType, types: &Vec<(String, TgType)>) -> (r: TypeDecl)
    requires
        type_keys_unique(types@),
    ensures
        r@ == type_decl_of(name@, t@, types_map(types@)),
{
    let doc = join_with(&t.description, "\n/// ");
    if t.subtypes.len() > 0 {
        TypeDecl::Sum {
            name: name.clone(),
            doc,
            href: t.href.clone(),
            variants: copy_names(&t.subtypes),
        }
    } else if t.fields.len() == 0 {
        TypeDecl::Marker { name: name.clone(), doc, href: t.href.clone() }
    } else {
        let ghost m = types_map(types@);
        let mut fields: Vec<FieldDecl> = Vec::new();
        let mut i: usize = 0;
        while i < t.fields.len()
            invariant
                i <= t.fields.len(),
                type_keys_unique(types@),
                m == types_map(types@),
                fields@.len() == i,
                forall|j: int|
                    0 <= j < i ==> #[trigger] fields@[j]@ == field_decl_of(t.fields@[j]@, m),
            decreases t.fields.len() - i,
        {
            let d = field_decl(&t.fields[i], types);
            fields.push(d);
            i += 1;
        }
        assert(field_decls_view(fields@) =~= field_decls_of(t@.fields, m));
        TypeDecl::Struct { name: name.clone(), doc, href: t.href.clone(), fields }
    }
}

/// The set of keys of a table is the domain of the map it stands for.
pub(crate) proof fn lemma_key_set(types: Seq<(String, TgType)>)
    ensures
        entry_keys(types).to_set() == types_map(types).dom(),
        keys_of(type_entries(types)) == entry_keys(types),
{
    assert(keys_of(type_entries(types)) =~= entry_keys(types));
    assert forall|k: Seq<char>| #[trigger] entry_keys(types).to_set().contains(k)
        == types_map(types).dom().contains(k) by {
        lemma_entries_map_dom(type_entries(types), k);
    }
    assert(entry_keys(types).to_set() =~= types_map(types).dom());
}

/// The declarations of all named types that are not skip-listed, by name.
pub fn plan_types(spec: &ApiSpec) -> (r: Vec<TypeDecl>)
    requires
        spec.wf(),
    ensures
        type_decls_view(r@) == type_plan(spec@.types),
{
    let types = &spec.types;
    let ghost m = types_map(types@);
    proof {
        lemma_key_set(types@);
    }
    let keys = sorted_keys(types);
    let ghost names = keys.deep_view();
    assert(names == sorted_names(m.dom()));
    let mut out: Vec<TypeDecl> = Vec::new();
    let mut i: usize = 0;
    while i < keys.len()
        invariant
            i <= keys.len(),
            names == keys.deep_view(),
            type_keys_unique(types@),
            m == types_map(types@),
            m.dom() == entry_keys(types@).to_set(),
            lists_sorted(names, m.dom()),
            type_decls_view(out@) == plan_of_names(names.take(i as int), m),
        decreases keys.len() - i,
    {
        let key = &keys[i];
        assert(names.take(i + 1).drop_last() =~= names.take(i as int));
        assert(names.take(i + 1).last() == key@);
        if !is_skipped(key.as_str()) {
            assert(names.to_set().contains(names[i as int]));
            match find_type(types, key.as_str()) {
                Some(j) => {
                    let d = type_decl(key, &types[j].1, types);
                    out.push(d);
                    assert(type_decls_view(out@) =~= plan_of_names(names.take(i + 1), m));
                },
                None => {},
            }
        }
        i += 1;
    }
    assert(names.take(i as int) =~= names);
    out
}

/// The documentation block and reference link above a declaration.
pub open spec fn doc_head_text(doc: Seq<char>, href: Seq<char>) -> Seq<char> {
    "/// "@ + doc + "\n"@ + "/// See: "@ + href + "\n"@
}

/// The variant lines of a sum type.
pub open spec fn variants_text(vs: Seq<Seq<char>>) -> Seq<char>
    decreases vs.len(),
{
    if vs.len() == 0 {
        Seq::empty()
    } else {
        variants_text(vs.drop_last()) + "    "@ + vs.last() + "("@ + vs.last() + "),\n"@
    }
}

/// The source text of one type declaration.
pub open spec fn type_decl_text(d: TypeDeclView) -> Seq<char> {
    match d {
        TypeDeclView::Sum { name, doc, href, variants } => doc_head_text(doc, href)
            + "#[derive(Debug, Clone, Serialize, Deserialize, PartialEq)]\n"@
            + "#[serde(untagged)]\n"@ + "pub enum "@ + name + " {\n"@ + variants_text(variants)
            + "}\n"@ + "\n"@,
        TypeDeclView::Marker { name, doc, href } => doc_head_text(doc, href)
            + "#[derive(Debug, Clone, Serialize, Deserialize, PartialEq, Default)]\n"@
            + "pub struct "@ + name + " {}\n"@ + "\n"@,
        TypeDeclView::Struct { name, doc, href, fields } => doc_head_text(doc, href)
            + "#[derive(Debug, Clone, Serialize, Deserialize, PartialEq)]\n"@ + "pub struct "@
            + name + " {\n"@ + fields_text(fields, false) + "}\n"@ + "\n"@,
    }
}

/// The source text of consecutive type declarations.
pub open spec fn type_decls_text(ds: Seq<TypeDeclView>) -> Seq<char>
    decreases ds.len(),
{
    if ds.len() == 0 {
        Seq::empty()
    } else {
        type_decls_text(ds.drop_last()) + type_decl_text(ds.last())
    }
}

/// The lines that open the emitted types file.
pub open spec fn types_header_text(version: Seq<char>) -> Seq<char> {
    "// THIS FILE IS AUTO-GENERATED. DO NOT EDIT.\n"@ + "// Generated from Telegram Bot API "@
        + version + "\n"@ + "// https://core.telegram.org/bots/api\n"@ + "\n"@
        + "use serde::{Deserialize, Serialize};\n"@
        + "use crate::{ChatId, InputFile, InputFileOrString, ReplyMarkup};\n"@ + "\n"@
}

/// The whole emitted types file for a schema.
pub open spec fn types_file_text(spec: crate::schema::ApiSpecView) -> Seq<char> {
    types_header_text(spec.version) + type_decls_text(type_plan(spec.types))
}

fn render_variants(vs: &Vec<String>) -> (r: String)
    ensures
        r@ == variants_text(vs.deep_view()),
{
    let ghost v = vs.deep_view();
    let mut out = String::new();
    let mut i: usize = 0;
    while i < vs.len()
        invariant
            i <= vs.len(),
            v == vs.deep_view(),
            out@ == variants_text(v.take(i as int)),
        decreases vs.len() - i,
    {
        out.append("    ");
        out.append(vs[i].as_str());
        out.append("(");
        out.append(vs[i].as_str());
        out.append("),\n");
        assert(v.take(i + 1).drop_last() =~= v.take(i as int));
        i += 1;
    }
    assert(v.take(i as int) =~= v);
    out
}

fn doc_head(doc: &String, href: &String) -> (r: String)
    ensures
        r@ == doc_head_text(doc@, href@),
{
    let mut out = String::from_str("/// ");
    out.append(doc.as_str());
    out.append("\n");
    out.append("/// See: ");
    out.append(href.as_str());
    out.append("\n");
    out
}

impl TypeDecl {
    /// The source text of this declaration.
    pub fn render(&self) -> (r: String)
        ensures
            r@ == type_decl_text(self@),
    {
        match self {
            TypeDecl::Sum { name, doc, href, variants } => {
                let mut out = doc_head(doc, href);
                out.append("#[derive(Debug, Clone, Serialize, Deserialize, PartialEq)]\n");
                out.append("#[serde(untagged)]\n");
                out.append("pub enum ");
                out.append(name.as_str());
                out.append(" {\n");
                let vs = render_variants(variants);
                out.append(vs.as_str());
                out.append("}\n");
                out.append("\n");
                out
            },
            TypeDecl::Marker { name, doc, href } => {
                let mut out = doc_head(doc, href);
                out.append("#[derive(Debug, Clone, Serialize, Deserialize, PartialEq, Default)]\n");
                out.append("pub struct ");
                out.append(name.as_str());
                out.append(" {}\n");
                out.append("\n");
                out
            },
            TypeDecl::Struct { name, doc, href, fields } => {
                let mut out = doc_head(doc, href);
                out.append("#[derive(Debug, Clone, Serialize, Deserialize, PartialEq)]\n");
                out.append("pub struct ");
                out.append(name.as_str());
                out.append(" {\n");
                let fs = render_fields(fields, false);
                out.append(fs.as_str());
                out.append("}\n");
                out.append("\n");
                out
            },
        }
    }
}

/// The emitted types file: a header naming the schema version, then every
/// declaration of `plan_types` in order.
pub fn generate_types(spec: &ApiSpec) -> (r: String)
    requires
        spec.wf(),
    ensures
        r@ == types_file_text(spec@),
{
    let plan = plan_types(spec);
    let ghost v = type_decls_view(plan@);
    let mut out = String::from_str("// THIS FILE IS AUTO-GENERATED. DO NOT EDIT.\n");
    out.append("// Generated from Telegram Bot API ");
    out.append(spec.version.as_str());
    out.append("\n");
    out.append("// https://core.telegram.org/bots/api\n");
    out.append("\n");
    out.append("use serde::{Deserialize, Serialize};\n");
    out.append("use crate::{ChatId, InputFile, InputFileOrString, ReplyMarkup};\n");
    out.append("\n");
    let ghost head = out@;
    assert(head == types_header_text(spec.version@));
    let mut i: usize = 0;
    while i < plan.len()
        invariant
            i <= plan.len(),
            v == type_decls_view(plan@),
            out@ == head + type_decls_text(v.take(i as int)),
        decreases plan.len() - i,
    {
        let t = plan[i].render();
        out.append(t.as_str());
        assert(v.take(i + 1).drop_last() =~= v.take(i as int));
        assert(out@ =~= head + type_decls_text(v.take(i + 1)));
        i += 1;
    }
    assert(v.take(i as int) =~= v);
    out
}

} // verus!
