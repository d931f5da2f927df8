//! Whether every type reference of a schema resolves to something declared.
use vstd::prelude::*;
use crate::resolve::{
    element_ref, find_type, is_array_ref, is_tg_array, strip_array, type_keys_unique, types_map,
};
use crate::schema::{
    ApiSpec, ApiSpecView, Field, FieldView, MethodView, TgType, TgTypeView, fields_view, keys_of,
    lemma_entries_map_dom, lemma_entries_map_index, method_entries, type_entries,
};
use crate::text::same_text;

verus! {

/// A scalar tag of the schema.
pub open spec fn is_scalar_ref(r: Seq<char>) -> bool {
    r == "Integer"@ || r == "Float"@ || r == "Boolean"@ || r == "String"@
}

/// A reference that is a scalar or a name of `m`, possibly under array forms.
pub open spec fn ref_covered(r: Seq<char>, m: Map<Seq<char>, TgTypeView>) -> bool
    decreases r.len(),
{
    if is_array_ref(r) {
        ref_covered(element_ref(r), m)
    } else {
        is_scalar_ref(r) || m.contains_key(r)
    }
}

pub open spec fn field_refs_covered(f: FieldView, m: Map<Seq<char>, TgTypeView>) -> bool {
    forall|k: int| 0 <= k < f.types.len() ==> ref_covered(#[trigger] f.types[k], m)
}

/// The field types of `t` are covered and its variants are names of `m`.
pub open spec fn type_refs_ok(t: TgTypeView, m: Map<Seq<char>, TgTypeView>) -> bool {
    &&& forall|j: int| 0 <= j < t.fields.len() ==> field_refs_covered(#[trigger] t.fields[j], m)
    &&& forall|k: int| 0 <= k < t.subtypes.len() ==> m.contains_key(#[trigger] t.subtypes[k])
}

/// The parameter types and result types of `meth` are covered.
pub open spec fn method_refs_ok(meth: MethodView, m: Map<Seq<char>, TgTypeView>) -> bool {
    &&& forall|j: int|
        0 <= j < meth.fields.len() ==> field_refs_covered(#[trigger] meth.fields[j], m)
    &&& forall|k: int|
        0 <= k < meth.result_types.len() ==> ref_covered(#[trigger] meth.result_types[k], m)
}

/// Every type reference of the schema (field types, variants, method results)
/// is a scalar, an array form or a declared type name.
pub open spec fn schema_names_covered(s: ApiSpecView) -> bool {
    &&& forall|n: Seq<char>| #[trigger]
        s.types.contains_key(n) ==> type_refs_ok(s.types[n], s.types)
    &&& forall|n: Seq<char>| #[trigger]
        s.methods.contains_key(n) ==> method_refs_ok(s.methods[n], s.types)
}

fn ref_is_covered(r: &str, types: &Vec<(String, TgType)>) -> (b: bool)
    requires
        type_keys_unique(types@),
    ensures
        b == ref_covered(r@, types_map(types@)),
    decreases r@.len(),
{
    if is_tg_array(r) {
        return ref_is_covered(strip_array(r), types);
    }
    same_text(r, "Integer") || same_text(r, "Float") || same_text(r, "Boolean") || same_text(
        r,
        "String",
    ) || find_type(types, r).is_some()
}

fn refs_covered(rs: &Vec<String>, types: &Vec<(String, TgType)>) -> (b: bool)
    requires
        type_keys_unique(types@),
    ensures
        b == forall|k: int|
            0 <= k < rs.deep_view().len() ==> ref_covered(
                #[trigger] rs.deep_view()[k],
                types_map(types@),
            ),
{
    let mut k: usize = 0;
    while k < rs.len()
        invariant
            k <= rs.len(),
            type_keys_unique(types@),
            forall|a: int|
                0 <= a < k ==> ref_covered(#[trigger] rs.deep_view()[a], types_map(types@)),
        decreases rs.len() - k,
    {
        assert(rs.deep_view()[k as int] == rs@[k as int]@);
        if !ref_is_covered(rs[k].as_str(), types) {
            return false;
        }
        k += 1;
    }
    true
}

fn names_declared_in(rs: &Vec<String>, types: &Vec<(String, TgType)>) -> (b: bool)
    requires
        type_keys_unique(types@),
    ensures
        b == forall|k: int|
            0 <= k < rs.deep_view().len() ==> types_map(types@).contains_key(
                #[trigger] rs.deep_view()[k],
            ),
{
    let mut k: usize = 0;
    while k < rs.len()
        invariant
            k <= rs.len(),
            type_keys_unique(types@),
            forall|a: int|
                0 <= a < k ==> types_map(types@).contains_key(#[trigger] rs.deep_view()[a]),
        decreases rs.len() - k,
    {
        assert(rs.deep_view()[k as int] == rs@[k as int]@);
        if find_type(types, rs[k].as_str()).is_none() {
            return false;
        }
        k += 1;
    }
    true
}

fn fields_covered(fs: &Vec<Field>, types: &Vec<(String, TgType)>) -> (b: bool)
    requires
        type_keys_unique(types@),
    ensures
        b == forall|j: int|
            0 <= j < fs@.len() ==> field_refs_covered(
                #[trigger] fields_view(fs@)[j],
                types_map(types@),
            ),
{
    let mut j: usize = 0;
    while j < fs.len()
        invariant
            j <= fs.len(),
            type_keys_unique(types@),
            forall|a: int| 0 <= a < j ==> field_refs_covered(
                #[trigger] fields_view(fs@)[a],
                types_map(types@),
            ),
        decreases fs.len() - j,
    {
        let ok = refs_covered(&fs[j].types, types);
        assert(fields_view(fs@)[j as int] == fs@[j as int]@);
        if !ok {
            let ghost m = types_map(types@);
            let ghost ts = fs@[j as int].types.deep_view();
            assert(!field_refs_covered(fields_view(fs@)[j as int], m)) by {
                let k = choose|k: int| 0 <= k < ts.len() && !ref_covered(ts[k], m);
                assert(fields_view(fs@)[j as int].types[k] == ts[k]);
            }
            return false;
        }
        j += 1;
    }
    true
}

/// Whether every type reference of the schema is a scalar, an array form or a
/// declared type name.
pub fn names_covered(spec: &ApiSpec) -> (b: bool)
    requires
        spec.wf(),
    ensures
        b == schema_names_covered(spec@),
{
    let types = &spec.types;
    let ghost m = types_map(types@);
    let mut i: usize = 0;
    while i < types.len()
        invariant
            i <= types.len(),
            types == &spec.types,
            spec.wf(),
            m == types_map(types@),
            forall|a: int| 0 <= a < i ==> type_refs_ok(#[trigger] types@[a].1@, m),
        decreases types.len() - i,
    {
        let t = &types[i].1;
        let fc = fields_covered(&t.fields, types);
        let nd = names_declared_in(&t.subtypes, types);
        let ok = fc && nd;
        assert(t@.fields == fields_view(t.fields@));
        assert(fc == forall|j: int|
            0 <= j < t@.fields.len() ==> field_refs_covered(#[trigger] t@.fields[j], m));
        assert(t@.subtypes == t.subtypes.deep_view());
        assert(nd == forall|k: int|
            0 <= k < t@.subtypes.len() ==> m.contains_key(#[trigger] t@.subtypes[k]));
        assert(ok == type_refs_ok(t@, m));
        if !ok {
            proof {
                lemma_entries_map_index(type_entries(types@), i as int);
                let key = types@[i as int].0@;
                assert(keys_of(type_entries(types@))[i as int] == key);
                assert(type_entries(types@)[i as int] == (key, t@));
                assert(spec@.types.contains_key(key));
            }
            return false;
        }
        i += 1;
    }
    let methods = &spec.methods;
    let mut i: usize = 0;
    while i < methods.len()
        invariant
            i <= methods.len(),
            methods == &spec.methods,
            types == &spec.types,
            spec.wf(),
            m == types_map(types@),
            forall|a: int| 0 <= a < types@.len() ==> type_refs_ok(#[trigger] types@[a].1@, m),
            forall|a: int| 0 <= a < i ==> method_refs_ok(#[trigger] methods@[a].1@, m),
        decreases methods.len() - i,
    {
        let meth = &methods[i].1;
        let fc = fields_covered(&meth.fields, types);
        let rc = refs_covered(&meth.result_types, types);
        let ok = fc && rc;
        assert(meth@.fields == fields_view(meth.fields@));
        assert(fc == forall|j: int|
            0 <= j < meth@.fields.len() ==> field_refs_covered(#[trigger] meth@.fields[j], m));
        assert(meth@.result_types == meth.result_types.deep_view());
        assert(rc == forall|k: int|
            0 <= k < meth@.result_types.len() ==> ref_covered(
                #[trigger] meth@.result_types[k],
                m,
            ));
        assert(ok == method_refs_ok(meth@, m));
        if !ok {
            proof {
                lemma_entries_map_index(method_entries(methods@), i as int);
                let key = methods@[i as int].0@;
                assert(method_entries(methods@)[i as int] == (key, meth@));
                assert(spec@.methods.contains_key(key));
            }
            return false;
        }
        i += 1;
    }
    proof {
        let tes = type_entries(types@);
        let mes = method_entries(methods@);
        assert forall|n: Seq<char>| #[trigger] m.contains_key(n) implies type_refs_ok(m[n], m) by {
            lemma_entries_map_dom(tes, n);
            let a = choose|a: int| 0 <= a < keys_of(tes).len() && keys_of(tes)[a] == n;
            lemma_entries_map_index(tes, a);
            assert(type_refs_ok(types@[a].1@, m));
        }
        assert forall|n: Seq<char>| #[trigger] spec@.methods.contains_key(n) implies method_refs_ok(
            spec@.methods[n],
            m,
        ) by {
            lemma_entries_map_dom(mes, n);
            let a = choose|a: int| 0 <= a < keys_of(mes).len() && keys_of(mes)[a] == n;
            lemma_entries_map_index(mes, a);
            assert(method_refs_ok(methods@[a].1@, m));
        }
    }
    true
}

} // verus!
