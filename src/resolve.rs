//! The type resolver: maps a schema type reference to a Rust type expression.
use vstd::prelude::*;
use crate::schema::{
    Field, FieldView, TgType, TgTypeView, entries_map, keys_of, type_entries,
    lemma_entries_map_dom, lemma_entries_map_index,
};
use crate::text::{has_prefix, is_prefix, same_text};
use vstd::seq_lib::lemma_seq_contains_after_push;

verus! {

/// A Rust type expression as emitted into generated code.
#[derive(Debug)]
pub enum RustType {
    /// `i64`
    Int,
    /// `f64`
    Float,
    /// `bool`
    Bool,
    /// `String`
    Str,
    /// A schema type, by name.
    Named(String),
    /// `Vec<T>`
    List(Box<RustType>),
    /// `Option<T>`
    Optional(Box<RustType>),
    /// `Box<T>`
    Boxed(Box<RustType>),
    /// The shared chat-identifier type (number or handle).
    ChatId,
    /// The shared file-or-reference type.
    InputFileOrString,
    /// The shared reply-markup type.
    ReplyMarkup,
    /// The dynamic JSON value.
    Json,
}

/// What a `RustType` stands for.
pub enum TypeExpr {
    Int,
    Float,
    Bool,
    Str,
    Named(Seq<char>),
    List(Box<TypeExpr>),
    Optional(Box<TypeExpr>),
    Boxed(Box<TypeExpr>),
    ChatId,
    InputFileOrString,
    ReplyMarkup,
    Json,
}

impl RustType {
    pub open spec fn expr(&self) -> TypeExpr
        decreases self,
    {
        match self {
            RustType::Int => TypeExpr::Int,
            RustType::Float => TypeExpr::Float,
            RustType::Bool => TypeExpr::Bool,
            RustType::Str => TypeExpr::Str,
            RustType::Named(n) => TypeExpr::Named(n@),
            RustType::List(t) => TypeExpr::List(Box::new(t.expr())),
            RustType::Optional(t) => TypeExpr::Optional(Box::new(t.expr())),
            RustType::Boxed(t) => TypeExpr::Boxed(Box::new(t.expr())),
            RustType::ChatId => TypeExpr::ChatId,
            RustType::InputFileOrString => TypeExpr::InputFileOrString,
            RustType::ReplyMarkup => TypeExpr::ReplyMarkup,
            RustType::Json => TypeExpr::Json,
        }
    }
}

impl View for RustType {
    type V = TypeExpr;

    open spec fn view(&self) -> TypeExpr {
        self.expr()
    }
}

/// The Rust source text of a type expression.
pub open spec fn type_text(t: TypeExpr) -> Seq<char>
    decreases t,
{
    match t {
        TypeExpr::Int => "i64"@,
        TypeExpr::Float => "f64"@,
        TypeExpr::Bool => "bool"@,
        TypeExpr::Str => "String"@,
        TypeExpr::Named(n) => n,
        TypeExpr::List(inner) => "Vec<"@ + type_text(*inner) + ">"@,
        TypeExpr::Optional(inner) => "Option<"@ + type_text(*inner) + ">"@,
        TypeExpr::Boxed(inner) => "Box<"@ + type_text(*inner) + ">"@,
        TypeExpr::ChatId => "ChatId"@,
        TypeExpr::InputFileOrString => "InputFileOrString"@,
        TypeExpr::ReplyMarkup => "ReplyMarkup"@,
        TypeExpr::Json => "serde_json::Value"@,
    }
}

impl RustType {
    /// The Rust source text of this type.
    pub fn render(&self) -> (r: String)
        ensures
            r@ == type_text(self@),
        decreases self,
    {
        match self {
            RustType::Int => String::from_str("i64"),
            RustType::Float => String::from_str("f64"),
            RustType::Bool => String::from_str("bool"),
            RustType::Str => String::from_str("String"),
            RustType::Named(n) => n.clone(),
            RustType::List(inner) => {
                let mut out = String::from_str("Vec<");
                let t = inner.render();
                out.append(t.as_str());
                out.append(">");
                out
            },
            RustType::Optional(inner) => {
                let mut out = String::from_str("Option<");
                let t = inner.render();
                out.append(t.as_str());
                out.append(">");
                out
            },
            RustType::Boxed(inner) => {
                let mut out = String::from_str("Box<");
                let t = inner.render();
                out.append(t.as_str());
                out.append(">");
                out
            },
            RustType::ChatId => String::from_str("ChatId"),
            RustType::InputFileOrString => String::from_str("InputFileOrString"),
            RustType::ReplyMarkup => String::from_str("ReplyMarkup"),
            RustType::Json => String::from_str("serde_json::Value"),
        }
    }

    /// Whether this is an `Option<..>`.
    pub fn is_optional(&self) -> (r: bool)
        ensures
            r == (self@ is Optional),
    {
        match self {
            RustType::Optional(_) => true,
            _ => false,
        }
    }
}

/// The prefix that marks an array type reference.
pub open spec fn array_prefix() -> Seq<char> {
    seq!['A', 'r', 'r', 'a', 'y', ' ', 'o', 'f', ' ']
}

pub open spec fn is_array_ref(s: Seq<char>) -> bool {
    is_prefix(array_prefix(), s)
}

/// The element reference of an array reference; other references are kept.
pub open spec fn element_ref(s: Seq<char>) -> Seq<char> {
    if is_array_ref(s) {
        s.skip(array_prefix().len() as int)
    } else {
        s
    }
}

/// A scalar tag or a named type, not optional.
pub open spec fn base_type(s: Seq<char>) -> TypeExpr {
    if s == "Integer"@ {
        TypeExpr::Int
    } else if s == "Float"@ {
        TypeExpr::Float
    } else if s == "Boolean"@ {
        TypeExpr::Bool
    } else if s == "String"@ {
        TypeExpr::Str
    } else {
        TypeExpr::Named(s)
    }
}

/// A named struct (with fields) or sum type (with variants): boxed when optional.
pub open spec fn boxed_when_optional(s: Seq<char>, m: Map<Seq<char>, TgTypeView>) -> bool {
    m.contains_key(s) && (m[s].subtypes.len() > 0 || m[s].fields.len() > 0)
}

pub open spec fn optional_of(t: TypeExpr) -> TypeExpr {
    TypeExpr::Optional(Box::new(t))
}

pub open spec fn wrap_optional(t: TypeExpr, optional: bool) -> TypeExpr {
    if optional {
        optional_of(t)
    } else {
        t
    }
}

/// The type expression of reference `s`, optional or not, against the named types `m`.
pub open spec fn resolve(s: Seq<char>, optional: bool, m: Map<Seq<char>, TgTypeView>) -> TypeExpr
    decreases s.len(),
{
    if is_array_ref(s) {
        let list = TypeExpr::List(Box::new(resolve(element_ref(s), false, m)));
        wrap_optional(list, optional)
    } else if optional && boxed_when_optional(s, m) {
        optional_of(TypeExpr::Boxed(Box::new(base_type(s))))
    } else {
        wrap_optional(base_type(s), optional)
    }
}

/// The declared types are integer and text, both and nothing else.
pub open spec fn is_chat_id_set(ts: Seq<Seq<char>>) -> bool {
    &&& ts.contains("Integer"@)
    &&& ts.contains("String"@)
    &&& forall|i: int| 0 <= i < ts.len() ==> #[trigger] ts[i] == "Integer"@ || ts[i] == "String"@
}

/// The declared types are the file reference and text, in either order.
pub open spec fn is_file_or_text(ts: Seq<Seq<char>>) -> bool {
    &&& ts.len() == 2
    &&& (ts[0] == "InputFile"@ && ts[1] == "String"@) || (ts[0] == "String"@ && ts[1]
        == "InputFile"@)
}

/// The type expression of a field, union patterns included.
pub open spec fn field_type(f: FieldView, m: Map<Seq<char>, TgTypeView>) -> TypeExpr {
    let optional = !f.required;
    if f.types.len() == 0 {
        TypeExpr::Json
    } else if f.types.len() == 1 {
        resolve(f.types[0], optional, m)
    } else if is_chat_id_set(f.types) {
        wrap_optional(TypeExpr::ChatId, optional)
    } else if is_file_or_text(f.types) {
        wrap_optional(TypeExpr::InputFileOrString, optional)
    } else if f.name == "reply_markup"@ {
        wrap_optional(TypeExpr::ReplyMarkup, optional)
    } else {
        resolve(f.types[0], optional, m)
    }
}

/// The result type of a method: its one declared type, else the dynamic JSON value.
pub open spec fn return_type(
    result_types: Seq<Seq<char>>,
    m: Map<Seq<char>, TgTypeView>,
) -> TypeExpr {
    if result_types.len() == 1 {
        resolve(result_types[0], false, m)
    } else {
        TypeExpr::Json
    }
}

pub open spec fn types_map(types: Seq<(String, TgType)>) -> Map<Seq<char>, TgTypeView> {
    entries_map(type_entries(types))
}

pub open spec fn type_keys_unique(types: Seq<(String, TgType)>) -> bool {
    keys_of(type_entries(types)).no_duplicates()
}

/// Whether `s` is an array reference (`Array of T`).
pub fn is_tg_array(s: &str) -> (r: bool)
    ensures
        r == is_array_ref(s@),
{
    proof {
        reveal_strlit("Array of ");
    }
    assert("Array of "@ =~= array_prefix());
    has_prefix(s, "Array of ")
}

/// The element reference of an array reference; any other reference unchanged.
pub fn strip_array(s: &str) -> (r: &str)
    ensures
        r@ == element_ref(s@),
{
    if is_tg_array(s) {
        s.substring_char(9, s.unicode_len())
    } else {
        s
    }
}

/// The position of the named type `name` in the table, if it is there.
pub(crate) fn find_type(types: &Vec<(String, TgType)>, name: &str) -> (r: Option<usize>)
    requires
        type_keys_unique(types@),
    ensures
        r is Some ==> r->0 < types@.len() && types_map(types@).contains_key(name@)
            && types_map(types@)[name@] == types@[r->0 as int].1@,
        r is None ==> !types_map(types@).contains_key(name@),
{
    let ghost es = type_entries(types@);
    let mut i: usize = 0;
    while i < types.len()
        invariant
            i <= types.len(),
            es == type_entries(types@),
            keys_of(es).no_duplicates(),
            forall|j: int| 0 <= j < i ==> #[trigger] keys_of(es)[j] != name@,
        decreases types.len() - i,
    {
        if same_text(types[i].0.as_str(), name) {
            proof {
                lemma_entries_map_index(es, i as int);
            }
            return Some(i);
        }
        assert(keys_of(es)[i as int] == types@[i as int].0@);
        i += 1;
    }
    proof {
        lemma_entries_map_dom(es, name@);
        if keys_of(es).contains(name@) {
            let j = choose|j: int| 0 <= j < keys_of(es).len() && keys_of(es)[j] == name@;
            assert(keys_of(es)[j] != name@);
        }
    }
    None
}

/// The scalar or named type that a non-array reference stands for.
fn base_rust_type(s: &str) -> (r: RustType)
    ensures
        r@ == base_type(s@),
{
    if same_text(s, "Integer") {
        RustType::Int
    } else if same_text(s, "Float") {
        RustType::Float
    } else if same_text(s, "Boolean") {
        RustType::Bool
    } else if same_text(s, "String") {
        RustType::Str
    } else {
        RustType::Named(String::from_str(s))
    }
}

/// Resolves a type reference; `optional` wraps it in `Option`, and boxes a named
/// struct or sum type inside.
pub fn tg_to_rust(s: &str, optional: bool, types: &Vec<(String, TgType)>) -> (r: RustType)
    requires
        type_keys_unique(types@),
    ensures
        r@ == resolve(s@, optional, types_map(types@)),
    decreases s@.len(),
{
    if is_tg_array(s) {
        let inner = strip_array(s);
        let inner_rust = tg_to_rust(inner, false, types);
        let list = RustType::List(Box::new(inner_rust));
        assert(list@ == TypeExpr::List(Box::new(inner_rust@)));
        if optional {
            let r = RustType::Optional(Box::new(list));
            assert(r@ == optional_of(list@));
            return r;
        }
        return list;
    }
    let base = base_rust_type(s);
    if optional {
        let boxed = match find_type(types, s) {
            Some(i) => types[i].1.subtypes.len() > 0 || types[i].1.fields.len() > 0,
            None => false,
        };
        assert(boxed == boxed_when_optional(s@, types_map(types@)));
        if boxed {
            let b = RustType::Boxed(Box::new(base));
            assert(b@ == TypeExpr::Boxed(Box::new(base@)));
            let r = RustType::Optional(Box::new(b));
            assert(r@ == optional_of(b@));
            r
        } else {
            let r = RustType::Optional(Box::new(base));
            assert(r@ == optional_of(base@));
            r
        }
    } else {
        base
    }
}

fn wrap_if(t: RustType, optional: bool) -> (r: RustType)
    ensures
        r@ == wrap_optional(t@, optional),
{
    if optional {
        RustType::Optional(Box::new(t))
    } else {
        t
    }
}

/// Whether the declared types are exactly integer and text.
fn chat_id_pattern(ts: &Vec<String>) -> (r: bool)
    ensures
        r == is_chat_id_set(ts.deep_view()),
{
    let ghost tv = ts.deep_view();
    proof {
        reveal_strlit("Integer");
        reveal_strlit("String");
    }
    assert("Integer"@.len() != "String"@.len());
    let mut seen_int = false;
    let mut seen_text = false;
    let mut i: usize = 0;
    while i < ts.len()
        invariant
            i <= ts.len(),
            tv == ts.deep_view(),
            "Integer"@ != "String"@,
            forall|j: int| 0 <= j < i ==> #[trigger] tv[j] == "Integer"@ || tv[j] == "String"@,
            seen_int == tv.take(i as int).contains("Integer"@),
            seen_text == tv.take(i as int).contains("String"@),
        decreases ts.len() - i,
    {
        assert(tv.take(i + 1) =~= tv.take(i as int).push(tv[i as int]));
        proof {
            lemma_seq_contains_after_push(tv.take(i as int), tv[i as int], "Integer"@);
            lemma_seq_contains_after_push(tv.take(i as int), tv[i as int], "String"@);
        }
        if same_text(ts[i].as_str(), "Integer") {
            seen_int = true;
        } else if same_text(ts[i].as_str(), "String") {
            seen_text = true;
        } else {
            return false;
        }
        i += 1;
    }
    assert(tv.take(i as int) =~= tv);
    seen_int && seen_text
}

/// Whether the declared types are the file reference and text.
fn file_or_text_pattern(ts: &Vec<String>) -> (r: bool)
    ensures
        r == is_file_or_text(ts.deep_view()),
{
    if ts.len() != 2 {
        return false;
    }
    (same_text(ts[0].as_str(), "InputFile") && same_text(ts[1].as_str(), "String")) || (
    same_text(ts[0].as_str(), "String") && same_text(ts[1].as_str(), "InputFile"))
}

/// The Rust type of a field: a single reference resolved, or one of the shared
/// union types, or the first reference where no pattern applies.
pub fn field_rust_type(field: &Field, types: &Vec<(String, TgType)>) -> (r: RustType)
    requires
        type_keys_unique(types@),
    ensures
        r@ == field_type(field@, types_map(types@)),
{
    let optional = !field.required;
    let n = field.types.len();
    if n == 0 {
        return RustType::Json;
    }
    if n == 1 {
        return tg_to_rust(field.types[0].as_str(), optional, types);
    }
    if chat_id_pattern(&field.types) {
        return wrap_if(RustType::ChatId, optional);
    }
    if file_or_text_pattern(&field.types) {
        return wrap_if(RustType::InputFileOrString, optional);
    }
    if same_text(field.name.as_str(), "reply_markup") {
        return wrap_if(RustType::ReplyMarkup, optional);
    }
    tg_to_rust(field.types[0].as_str(), optional, types)
}

/// A union field that matches none of the shared patterns, and so is given
/// the type of its first declared reference.
pub open spec fn falls_back_to_first(f: FieldView) -> bool {
    &&& f.types.len() >= 2
    &&& !is_chat_id_set(f.types)
    &&& !is_file_or_text(f.types)
    &&& f.name != "reply_markup"@
}

/// Whether the field's type narrows a union to its first declared reference.
pub fn uses_first_type_fallback(field: &Field) -> (r: bool)
    ensures
        r == falls_back_to_first(field@),
{
    field.types.len() >= 2 && !chat_id_pattern(&field.types) && !file_or_text_pattern(&field.types)
        && !same_text(field.name.as_str(), "reply_markup")
}

/// The result type of a method wrapper.
pub fn build_return_type(result_types: &Vec<String>, types: &Vec<(String, TgType)>) -> (r: RustType)
    requires
        type_keys_unique(types@),
    ensures
        r@ == return_type(result_types.deep_view(), types_map(types@)),
{
    if result_types.len() == 1 {
        tg_to_rust(result_types[0].as_str(), false, types)
    } else {
        RustType::Json
    }
}

} // verus!
