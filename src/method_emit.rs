//! The method emitter: an options struct and a call wrapper per schema method.
use vstd::prelude::*;
use crate::decl::{
    FieldDecl, FieldDeclView, field_decl, field_decl_of, field_decls_view, fields_text,
    render_fields,
};
use crate::naming::{method_fn_name, method_params_name, params_type_name, snake_case_of};
use crate::ordering::{entry_keys, find_key, lists_sorted, sorted_keys, sorted_names};
use crate::resolve::{
    RustType, TypeExpr, build_return_type, return_type, type_keys_unique, type_text, types_map,
};
use crate::schema::{
    ApiSpec, ApiSpecView, FieldView, Method, MethodView, TgTypeView, entries_map, keys_of,
    lemma_entries_map_dom, lemma_entries_map_index, method_entries,
};
use crate::text::{join_with, joined};

verus! {

/// What a schema method is emitted as.
#[derive(Debug)]
pub struct MethodDecl {
    /// Operation name on the wire.
    pub name: String,
    /// Name of the wrapper function.
    pub fn_name: String,
    /// Name of the options struct.
    pub params_name: String,
    pub doc: String,
    pub href: String,
    /// Required parameters, in schema order.
    pub required: Vec<FieldDecl>,
    /// Optional parameters, in schema order; held by the options struct.
    pub optional: Vec<FieldDecl>,
    /// Result type of the wrapper.
    pub result: RustType,
}

pub struct MethodDeclView {
    pub name: Seq<char>,
    pub fn_name: Seq<char>,
    pub params_name: Seq<char>,
    pub doc: Seq<char>,
    pub href: Seq<char>,
    pub required: Seq<FieldDeclView>,
    pub optional: Seq<FieldDeclView>,
    pub result: TypeExpr,
}

impl View for MethodDecl {
    type V = MethodDeclView;

    open spec fn view(&self) -> MethodDeclView {
        MethodDeclView {
            name: self.name@,
            fn_name: self.fn_name@,
            params_name: self.params_name@,
            doc: self.doc@,
            href: self.href@,
            required: field_decls_view(self.required@),
            optional: field_decls_view(self.optional@),
            result: self.result@,
        }
    }
}

pub open spec fn method_decls_view(ds: Seq<MethodDecl>) -> Seq<MethodDeclView> {
    ds.map_values(|d: MethodDecl| d@)
}

/// The declarations of the fields whose `required` flag is `required`, in order.
pub open spec fn decls_where(
    fs: Seq<FieldView>,
    required: bool,
    m: Map<Seq<char>, TgTypeView>,
) -> Seq<FieldDeclView>
    decreases fs.len(),
{
    if fs.len() == 0 {
        Seq::empty()
    } else {
        let rest = decls_where(fs.drop_last(), required, m);
        if fs.last().required == required {
            rest.push(field_decl_of(fs.last(), m))
        } else {
            rest
        }
    }
}

/// What the method `meth` is emitted as.
pub open spec fn method_decl_of(meth: MethodView, m: Map<Seq<char>, TgTypeView>) -> MethodDeclView {
    MethodDeclView {
        name: meth.name,
        fn_name: snake_case_of(meth.name),
        params_name: params_type_name(meth.name),
        doc: joined(meth.description, "\n    /// "@),
        href: meth.href,
        required: decls_where(meth.fields, true, m),
        optional: decls_where(meth.fields, false, m),
        result: return_type(meth.result_types, m),
    }
}

/// The methods listed under `names`, in that order.
pub open spec fn methods_of_names(
    names: Seq<Seq<char>>,
    mm: Map<Seq<char>, MethodView>,
    m: Map<Seq<char>, TgTypeView>,
) -> Seq<MethodDeclView>
    decreases names.len(),
{
    if names.len() == 0 {
        Seq::empty()
    } else {
        methods_of_names(names.drop_last(), mm, m).push(method_decl_of(mm[names.last()], m))
    }
}

/// All method declarations of a schema, by increasing key.
pub open spec fn method_plan(spec: ApiSpecView) -> Seq<MethodDeclView> {
    methods_of_names(sorted_names(spec.methods.dom()), spec.methods, spec.types)
}

/// Builds what the method `meth` is emitted as.
pub fn method_decl(meth: &Method, types: &Vec<(String, crate::schema::TgType)>) -> (r: MethodDecl)
    requires
        type_keys_unique(types@),
    ensures
        r@ == method_decl_of(meth@, types_map(types@)),
{
    let ghost m = types_map(types@);
    let ghost fs = meth@.fields;
    let mut required: Vec<FieldDecl> = Vec::new();
    let mut optional: Vec<FieldDecl> = Vec::new();
    let mut i: usize = 0;
    while i < meth.fields.len()
        invariant
            i <= meth.fields.len(),
            type_keys_unique(types@),
            m == types_map(types@),
            fs == meth@.fields,
            field_decls_view(required@) == decls_where(fs.take(i as int), true, m),
            field_decls_view(optional@) == decls_where(fs.take(i as int), false, m),
        decreases meth.fields.len() - i,
    {
        let f = &meth.fields[i];
        assert(fs.take(i + 1).drop_last() =~= fs.take(i as int));
        assert(fs.take(i + 1).last() == f@);
        let d = field_decl(f, types);
        if f.required {
            required.push(d);
            assert(field_decls_view(required@) =~= decls_where(fs.take(i as int), true, m).push(
                d@,
            ));
        } else {
            optional.push(d);
            assert(field_decls_view(optional@) =~= decls_where(fs.take(i as int), false, m).push(
                d@,
            ));
        }
        i += 1;
    }
    assert(fs.take(i as int) =~= fs);
    MethodDecl {
        name: meth.name.clone(),
        fn_name: method_fn_name(meth.name.as_str()),
        params_name: method_params_name(meth.name.as_str()),
        doc: join_with(&meth.description, "\n    /// "),
        href: meth.href.clone(),
        required,
        optional,
        result: build_return_type(&meth.result_types, types),
    }
}

/// The declarations of all methods, by key.
pub fn plan_methods(spec: &ApiSpec) -> (r: Vec<MethodDecl>)
    requires
        spec.wf(),
    ensures
        method_decls_view(r@) == method_plan(spec@),
{
    let methods = &spec.methods;
    let ghost es = method_entries(methods@);
    let ghost mm = entries_map(es);
    let ghost m = types_map(spec.types@);
    proof {
        assert(keys_of(es) =~= entry_keys(methods@));
        assert forall|k: Seq<char>| #[trigger] entry_keys(methods@).to_set().contains(k)
            == mm.dom().contains(k) by {
            lemma_entries_map_dom(es, k);
        }
        assert(entry_keys(methods@).to_set() =~= mm.dom());
    }
    let keys = sorted_keys(methods);
    let ghost names = keys.deep_view();
    let mut out: Vec<MethodDecl> = Vec::new();
    let mut i: usize = 0;
    while i < keys.len()
        invariant
            i <= keys.len(),
            names == keys.deep_view(),
            spec.wf(),
            es == method_entries(methods@),
            methods == &spec.methods,
            mm == entries_map(es),
            m == types_map(spec.types@),
            keys_of(es) == entry_keys(methods@),
            lists_sorted(names, mm.dom()),
            method_decls_view(out@) == methods_of_names(names.take(i as int), mm, m),
        decreases keys.len() - i,
    {
        let key = &keys[i];
        assert(names.take(i + 1).drop_last() =~= names.take(i as int));
        assert(names.take(i + 1).last() == key@);
        assert(names.to_set().contains(names[i as int]));
        proof {
            lemma_entries_map_dom(es, key@);
        }
        match find_key(methods, key.as_str()) {
            Some(j) => {
                proof {
                    lemma_entries_map_index(es, j as int);
                }
                let d = method_decl(&methods[j].1, &spec.types);
                out.push(d);
                assert(method_decls_view(out@) =~= methods_of_names(names.take(i + 1), mm, m));
            },
            None => {
                assert(keys_of(es) == entry_keys(methods@));
            },
        }
        i += 1;
    }
    assert(names.take(i as int) =~= names);
    out
}

/// The options struct of a method, if it has optional parameters.
pub open spec fn options_struct_text(d: MethodDeclView) -> Seq<char> {
    if d.optional.len() == 0 {
        Seq::empty()
    } else {
        "/// Optional parameters for [`Bot::"@ + d.fn_name + "`]\n"@
            + "#[derive(Debug, Clone, Serialize, Deserialize, Default)]\n"@ + "pub struct "@
            + d.params_name + " {\n"@ + fields_text(d.optional, true) + "}\n"@ + "\n"@
    }
}

/// Parameter types that callers may pass through `Into`.
pub open spec fn takes_into(t: TypeExpr) -> bool {
    t is Str || t is ChatId || t is InputFileOrString
}

/// The type of a required parameter in the wrapper's signature.
pub open spec fn param_type_text(t: TypeExpr) -> Seq<char> {
    match t {
        TypeExpr::Str => "impl Into<String>"@,
        TypeExpr::ChatId => "impl Into<ChatId>"@,
        TypeExpr::InputFileOrString => "impl Into<InputFileOrString>"@,
        _ => type_text(t),
    }
}

pub open spec fn param_text(d: FieldDeclView) -> Seq<char> {
    d.ident + ": "@ + param_type_text(d.ty)
}

/// The required parameters of a signature, comma-separated.
pub open spec fn params_list_text(fs: Seq<FieldDeclView>) -> Seq<char> {
    joined(fs.map_values(|d: FieldDeclView| param_text(d)), ", "@)
}

/// The parameters after `&self`: the required ones, then the options if any.
pub open spec fn signature_args_text(d: MethodDeclView) -> Seq<char> {
    if d.optional.len() == 0 {
        params_list_text(d.required)
    } else {
        params_list_text(d.required) + (if d.required.len() > 0 {
            ", "@
        } else {
            Seq::empty()
        }) + "params: Option<&"@ + d.params_name + ">"@
    }
}

/// The payload line of a required parameter.
pub open spec fn required_insert_text(d: FieldDeclView) -> Seq<char> {
    "        form[\""@ + d.wire_name + "\"] = serde_json::to_value("@ + d.ident + (if takes_into(
        d.ty,
    ) {
        ".into()"@
    } else {
        Seq::empty()
    }) + ").unwrap_or_default();\n"@
}

/// The payload line of an optional parameter, taken only when present.
pub open spec fn optional_insert_text(d: FieldDeclView) -> Seq<char> {
    "            if let Some(ref v) = p."@ + d.ident + " { form[\""@ + d.wire_name
        + "\"] = serde_json::to_value(v).unwrap_or_default(); }\n"@
}

pub open spec fn required_inserts_text(fs: Seq<FieldDeclView>) -> Seq<char>
    decreases fs.len(),
{
    if fs.len() == 0 {
        Seq::empty()
    } else {
        required_inserts_text(fs.drop_last()) + required_insert_text(fs.last())
    }
}

pub open spec fn optional_inserts_text(fs: Seq<FieldDeclView>) -> Seq<char>
    decreases fs.len(),
{
    if fs.len() == 0 {
        Seq::empty()
    } else {
        optional_inserts_text(fs.drop_last()) + optional_insert_text(fs.last())
    }
}

/// The overlay of present options onto the payload.
pub open spec fn options_overlay_text(d: MethodDeclView) -> Seq<char> {
    if d.optional.len() == 0 {
        Seq::empty()
    } else {
        "        if let Some(p) = params {\n"@ + optional_inserts_text(d.optional) + "        }\n"@
    }
}

/// The wrapper: builds the payload and hands it to the dispatcher under the
/// method's wire name.
pub open spec fn wrapper_text(d: MethodDeclView) -> Seq<char> {
    "impl Bot {\n"@ + "    /// "@ + d.doc + "\n"@ + "    /// See: "@ + d.href + "\n"@
        + "    pub async fn "@ + d.fn_name + "(&self, "@ + signature_args_text(d)
        + ") -> Result<"@ + type_text(d.result) + ", BotError> {\n"@
        + "        let mut form = serde_json::json!({});\n"@ + required_inserts_text(d.required)
        + options_overlay_text(d) + "        self.call_api(\""@ + d.name + "\", &form).await\n"@
        + "    }\n"@ + "}\n"@ + "\n"@
}

/// The source text emitted for one method.
pub open spec fn method_text(d: MethodDeclView) -> Seq<char> {
    options_struct_text(d) + wrapper_text(d)
}

pub open spec fn method_decls_text(ds: Seq<MethodDeclView>) -> Seq<char>
    decreases ds.len(),
{
    if ds.len() == 0 {
        Seq::empty()
    } else {
        method_decls_text(ds.drop_last()) + method_text(ds.last())
    }
}

/// The lines that open the emitted methods file.
pub open spec fn methods_header_text(version: Seq<char>) -> Seq<char> {
    "// THIS FILE IS AUTO-GENERATED. DO NOT EDIT.\n"@ + "// Generated from Telegram Bot API "@
        + version + "\n"@ + "\n"@ + "use serde::{Deserialize, Serialize};\n"@
        + "use crate::{Bot, BotError, ChatId, InputFile, InputFileOrString, ReplyMarkup};\n"@
        + "use crate::types::*;\n"@ + "\n"@
}

/// The whole emitted methods file for a schema.
pub open spec fn methods_file_text(spec: ApiSpecView) -> Seq<char> {
    methods_header_text(spec.version) + method_decls_text(method_plan(spec))
}

fn param_type(t: &RustType) -> (r: String)
    ensures
        r@ == param_type_text(t@),
{
    match t {
        RustType::Str => String::from_str("impl Into<String>"),
        RustType::ChatId => String::from_str("impl Into<ChatId>"),
        RustType::InputFileOrString => String::from_str("impl Into<InputFileOrString>"),
        _ => t.render(),
    }
}

fn params_list(fs: &Vec<FieldDecl>) -> (r: String)
    ensures
        r@ == params_list_text(field_decls_view(fs@)),
{
    let ghost texts = field_decls_view(fs@).map_values(|d: FieldDeclView| param_text(d));
    let mut out = String::new();
    let mut i: usize = 0;
    while i < fs.len()
        invariant
            i <= fs.len(),
            texts == field_decls_view(fs@).map_values(|d: FieldDeclView| param_text(d)),
            out@ == joined(texts.take(i as int), ", "@),
        decreases fs.len() - i,
    {
        if i > 0 {
            out.append(", ");
        }
        out.append(fs[i].ident.as_str());
        out.append(": ");
        let t = param_type(&fs[i].ty);
        out.append(t.as_str());
        assert(texts[i as int] == param_text(fs@[i as int]@));
        assert(texts.take(i + 1).drop_last() =~= texts.take(i as int));
        i += 1;
    }
    assert(texts.take(i as int) =~= texts);
    out
}

fn required_inserts(fs: &Vec<FieldDecl>) -> (r: String)
    ensures
        r@ == required_inserts_text(field_decls_view(fs@)),
{
    let ghost v = field_decls_view(fs@);
    let mut out = String::new();
    let mut i: usize = 0;
    while i < fs.len()
        invariant
            i <= fs.len(),
            v == field_decls_view(fs@),
            out@ == required_inserts_text(v.take(i as int)),
        decreases fs.len() - i,
    {
        let d = &fs[i];
        out.append("        form[\"");
        out.append(d.wire_name.as_str());
        out.append("\"] = serde_json::to_value(");
        out.append(d.ident.as_str());
        let into = match d.ty {
            RustType::Str => true,
            RustType::ChatId => true,
            RustType::InputFileOrString => true,
            _ => false,
        };
        if into {
            out.append(".into()");
        }
        out.append(").unwrap_or_default();\n");
        assert(v.take(i + 1).drop_last() =~= v.take(i as int));
        i += 1;
    }
    assert(v.take(i as int) =~= v);
    out
}

fn optional_inserts(fs: &Vec<FieldDecl>) -> (r: String)
    ensures
        r@ == optional_inserts_text(field_decls_view(fs@)),
{
    let ghost v = field_decls_view(fs@);
    let mut out = String::new();
    let mut i: usize = 0;
    while i < fs.len()
        invariant
            i <= fs.len(),
            v == field_decls_view(fs@),
            out@ == optional_inserts_text(v.take(i as int)),
        decreases fs.len() - i,
    {
        let d = &fs[i];
        out.append("            if let Some(ref v) = p.");
        out.append(d.ident.as_str());
        out.append(" { form[\"");
        out.append(d.wire_name.as_str());
        out.append("\"] = serde_json::to_value(v).unwrap_or_default(); }\n");
        assert(v.take(i + 1).drop_last() =~= v.take(i as int));
        i += 1;
    }
    assert(v.take(i as int) =~= v);
    out
}

impl MethodDecl {
    /// The options struct, or nothing when every parameter is required.
    pub fn render_options(&self) -> (r: String)
        ensures
            r@ == options_struct_text(self@),
    {
        if self.optional.len() == 0 {
            return String::new();
        }
        let mut out = String::from_str("/// Optional parameters for [`Bot::");
        out.append(self.fn_name.as_str());
        out.append("`]\n");
        out.append("#[derive(Debug, Clone, Serialize, Deserialize, Default)]\n");
        out.append("pub struct ");
        out.append(self.params_name.as_str());
        out.append(" {\n");
        let fs = render_fields(&self.optional, true);
        out.append(fs.as_str());
        out.append("}\n");
        out.append("\n");
        out
    }

    /// The parameter list after `&self`.
    pub fn render_signature_args(&self) -> (r: String)
        ensures
            r@ == signature_args_text(self@),
    {
        let mut out = params_list(&self.required);
        if self.optional.len() > 0 {
            if self.required.len() > 0 {
                out.append(", ");
            }
            out.append("params: Option<&");
            out.append(self.params_name.as_str());
            out.append(">");
        }
        out
    }

    /// The wrapper function.
    pub fn render_wrapper(&self) -> (r: String)
        ensures
            r@ == wrapper_text(self@),
    {
        let mut out = String::from_str("impl Bot {\n");
        out.append("    /// ");
        out.append(self.doc.as_str());
        out.append("\n");
        out.append("    /// See: ");
        out.append(self.href.as_str());
        out.append("\n");
        out.append("    pub async fn ");
        out.append(self.fn_name.as_str());
        out.append("(&self, ");
        let args = self.render_signature_args();
        out.append(args.as_str());
        out.append(") -> Result<");
        let rt = self.result.render();
        out.append(rt.as_str());
        out.append(", BotError> {\n");
        out.append("        let mut form = serde_json::json!({});\n");
        let req = required_inserts(&self.required);
        out.append(req.as_str());
        let ghost before = out@;
        if self.optional.len() > 0 {
            out.append("        if let Some(p) = params {\n");
            let opt = optional_inserts(&self.optional);
            out.append(opt.as_str());
            out.append("        }\n");
        }
        assert(out@ =~= before + options_overlay_text(self@));
        out.append("        self.call_api(\"");
        out.append(self.name.as_str());
        out.append("\", &form).await\n");
        out.append("    }\n");
        out.append("}\n");
        out.append("\n");
        out
    }

    /// The source text emitted for this method.
    pub fn render(&self) -> (r: String)
        ensures
            r@ == method_text(self@),
    {
        let mut out = self.render_options();
        let w = self.render_wrapper();
        out.append(w.as_str());
        out
    }
}

/// The emitted methods file: a header naming the schema version, then every
/// method of `plan_methods` in order.
pub fn generate_methods(spec: &ApiSpec) -> (r: String)
    requires
        spec.wf(),
    ensures
        r@ == methods_file_text(spec@),
{
    let plan = plan_methods(spec);
    let ghost v = method_decls_view(plan@);
    let mut out = String::from_str("// THIS FILE IS AUTO-GENERATED. DO NOT EDIT.\n");
    out.append("// Generated from Telegram Bot API ");
    out.append(spec.version.as_str());
    out.append("\n");
    out.append("\n");
    out.append("use serde::{Deserialize, Serialize};\n");
    out.append("use crate::{Bot, BotError, ChatId, InputFile, InputFileOrString, ReplyMarkup};\n");
    out.append("use crate::types::*;\n");
    out.append("\n");
    let ghost head = out@;
    assert(head == methods_header_text(spec.version@));
    let mut i: usize = 0;
    while i < plan.len()
        invariant
            i <= plan.len(),
            v == method_decls_view(plan@),
            out@ == head + method_decls_text(v.take(i as int)),
        decreases plan.len() - i,
    {
        let t = plan[i].render();
        out.append(t.as_str());
        assert(v.take(i + 1).drop_last() =~= v.take(i as int));
        assert(out@ =~= head + method_decls_text(v.take(i + 1)));
        i += 1;
    }
    assert(v.take(i as int) =~= v);
    out
}

} // verus!
