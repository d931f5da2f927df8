//! The in-memory model of an API schema: named types, methods and their fields.
use vstd::prelude::*;
use crate::ordering::{entry_keys, keys_distinct};

verus! {

/// A member of a type or a parameter of a method.
#[derive(Debug, Clone)]
pub struct Field {
    /// Identifier on the wire.
    pub name: String,
    /// Declared type references; more than one makes a union field.
    pub types: Vec<String>,
    pub required: bool,
    pub description: String,
}

pub struct FieldView {
    pub name: Seq<char>,
    pub types: Seq<Seq<char>>,
    pub required: bool,
    pub description: Seq<char>,
}

impl View for Field {
    type V = FieldView;

    open spec fn view(&self) -> FieldView {
        FieldView {
            name: self.name@,
            types: self.types.deep_view(),
            required: self.required,
            description: self.description@,
        }
    }
}

pub open spec fn fields_view(fields: Seq<Field>) -> Seq<FieldView> {
    fields.map_values(|f: Field| f@)
}

/// A named type: a struct (fields), a sum type (subtypes) or a marker (neither).
#[derive(Debug, Clone)]
pub struct TgType {
    pub name: String,
    pub description: Vec<String>,
    pub href: String,
    pub fields: Vec<Field>,
    /// Variants, when this is a sum type.
    pub subtypes: Vec<String>,
    /// Sum types this type takes part in; informational only.
    pub subtype_of: Vec<String>,
}

pub struct TgTypeView {
    pub name: Seq<char>,
    pub description: Seq<Seq<char>>,
    pub href: Seq<char>,
    pub fields: Seq<FieldView>,
    pub subtypes: Seq<Seq<char>>,
    pub subtype_of: Seq<Seq<char>>,
}

impl View for TgType {
    type V = TgTypeView;

    open spec fn view(&self) -> TgTypeView {
        TgTypeView {
            name: self.name@,
            description: self.description.deep_view(),
            href: self.href@,
            fields: fields_view(self.fields@),
            subtypes: self.subtypes.deep_view(),
            subtype_of: self.subtype_of.deep_view(),
        }
    }
}

/// A callable operation of the API.
#[derive(Debug, Clone)]
pub struct Method {
    pub name: String,
    pub description: Vec<String>,
    pub href: String,
    pub fields: Vec<Field>,
    /// Declared result type references (zero, one or several).
    pub result_types: Vec<String>,
}

pub struct MethodView {
    pub name: Seq<char>,
    pub description: Seq<Seq<char>>,
    pub href: Seq<char>,
    pub fields: Seq<FieldView>,
    pub result_types: Seq<Seq<char>>,
}

impl View for Method {
    type V = MethodView;

    open spec fn view(&self) -> MethodView {
        MethodView {
            name: self.name@,
            description: self.description.deep_view(),
            href: self.href@,
            fields: fields_view(self.fields@),
            result_types: self.result_types.deep_view(),
        }
    }
}

/// A whole schema document. The two tables are keyed by name, each key once.
#[derive(Debug, Clone)]
pub struct ApiSpec {
    pub version: String,
    pub release_date: String,
    pub methods: Vec<(String, Method)>,
    pub types: Vec<(String, TgType)>,
}

pub struct ApiSpecView {
    pub version: Seq<char>,
    pub release_date: Seq<char>,
    pub methods: Map<Seq<char>, MethodView>,
    pub types: Map<Seq<char>, TgTypeView>,
}

/// The keys of a table, in the order held.
pub open spec fn keys_of<V>(es: Seq<(Seq<char>, V)>) -> Seq<Seq<char>> {
    es.map_values(|e: (Seq<char>, V)| e.0)
}

/// The map that a table of keyed entries stands for.
pub open spec fn entries_map<V>(es: Seq<(Seq<char>, V)>) -> Map<Seq<char>, V>
    decreases es.len(),
{
    if es.len() == 0 {
        Map::empty()
    } else {
        entries_map(es.drop_last()).insert(es.last().0, es.last().1)
    }
}

pub open spec fn type_entries(es: Seq<(String, TgType)>) -> Seq<(Seq<char>, TgTypeView)> {
    es.map_values(|e: (String, TgType)| (e.0@, e.1@))
}

pub open spec fn method_entries(es: Seq<(String, Method)>) -> Seq<(Seq<char>, MethodView)> {
    es.map_values(|e: (String, Method)| (e.0@, e.1@))
}

impl ApiSpec {
    /// Each key stands once in each table.
    pub open spec fn wf(&self) -> bool {
        &&& keys_of(type_entries(self.types@)).no_duplicates()
        &&& keys_of(method_entries(self.methods@)).no_duplicates()
    }

    /// Whether each key stands once in each table, as the emitters require.
    pub fn has_unique_keys(&self) -> (r: bool)
        ensures
            r == self.wf(),
    {
        assert(keys_of(type_entries(self.types@)) =~= entry_keys(self.types@));
        assert(keys_of(method_entries(self.methods@)) =~= entry_keys(self.methods@));
        keys_distinct(&self.types) && keys_distinct(&self.methods)
    }
}

impl View for ApiSpec {
    type V = ApiSpecView;

    open spec fn view(&self) -> ApiSpecView {
        ApiSpecView {
            version: self.version@,
            release_date: self.release_date@,
            methods: entries_map(method_entries(self.methods@)),
            types: entries_map(type_entries(self.types@)),
        }
    }
}

/// The entry at a given position is what the map holds for its key.
pub proof fn lemma_entries_map_index<V>(es: Seq<(Seq<char>, V)>, i: int)
    requires
        keys_of(es).no_duplicates(),
        0 <= i < es.len(),
    ensures
        entries_map(es).contains_key(es[i].0),
        entries_map(es)[es[i].0] == es[i].1,
    decreases es.len(),
{
    let last = es.len() - 1;
    if i < last {
        assert(keys_of(es.drop_last()) =~= keys_of(es).drop_last());
        assert(keys_of(es)[i] == es[i].0 && keys_of(es)[last] == es[last].0);
        lemma_entries_map_index(es.drop_last(), i);
        assert(es.drop_last()[i] == es[i]);
    }
}

/// The map's keys are exactly the table's keys.
pub proof fn lemma_entries_map_dom<V>(es: Seq<(Seq<char>, V)>, k: Seq<char>)
    ensures
        entries_map(es).contains_key(k) <==> keys_of(es).contains(k),
    decreases es.len(),
{
    if es.len() > 0 {
        lemma_entries_map_dom(es.drop_last(), k);
        assert(keys_of(es.drop_last()) =~= keys_of(es).drop_last());
        assert(keys_of(es)[es.len() - 1] == es.last().0);
        if keys_of(es.drop_last()).contains(k) {
            let j = choose|j: int| 0 <= j < es.len() - 1 && keys_of(es.drop_last())[j] == k;
            assert(keys_of(es)[j] == k);
        }
        if keys_of(es).contains(k) {
            let j = choose|j: int| 0 <= j < es.len() && keys_of(es)[j] == k;
            if j < es.len() - 1 {
                assert(keys_of(es.drop_last())[j] == k);
            }
        }
    }
}

} // verus!
