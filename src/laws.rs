//! Properties that hold of every run of the emitters.
use vstd::prelude::*;
use crate::coverage::{
    field_refs_covered, method_refs_ok, ref_covered, schema_names_covered, type_refs_ok,
};
use crate::decl::field_decl_of;
use crate::method_emit::{
    decls_where, method_decl_of, method_plan, methods_of_names,
    methods_file_text,
};
use crate::naming::skip_listed;
use crate::ordering::{
    entry_keys, lemma_sorted_listing_exists, lists_sorted, sorted_names, strictly_sorted,
};
use crate::resolve::{
    TypeExpr, base_type, element_ref, field_type, is_array_ref, resolve,
};
use crate::schema::{
    ApiSpec, FieldView, TgTypeView, entries_map, keys_of, lemma_entries_map_dom,
    lemma_entries_map_index, method_entries, type_entries,
};
use crate::text::text_lt;
use crate::type_emit::{
    lemma_key_set, plan_of_names, type_decl_of, type_plan, types_file_text,
};

verus! {

proof fn lemma_type_names_listed(spec: ApiSpec)
    requires
        spec.wf(),
    ensures
        lists_sorted(sorted_names(spec@.types.dom()), spec@.types.dom()),
{
    lemma_key_set(spec.types@);
    lemma_sorted_listing_exists(entry_keys(spec.types@));
}

proof fn lemma_method_names_listed(spec: ApiSpec)
    requires
        spec.wf(),
    ensures
        lists_sorted(sorted_names(spec@.methods.dom()), spec@.methods.dom()),
{
    let es = method_entries(spec.methods@);
    assert(keys_of(es) =~= entry_keys(spec.methods@));
    assert forall|k: Seq<char>| #[trigger] entry_keys(spec.methods@).to_set().contains(k)
        == spec@.methods.dom().contains(k) by {
        lemma_entries_map_dom(es, k);
    }
    assert(entry_keys(spec.methods@).to_set() =~= spec@.methods.dom());
    lemma_sorted_listing_exists(entry_keys(spec.methods@));
}

/// Where the declaration at position `i` of a plan comes from.
proof fn lemma_plan_origin(names: Seq<Seq<char>>, m: Map<Seq<char>, TgTypeView>, i: int) -> (k: int)
    requires
        0 <= i < plan_of_names(names, m).len(),
    ensures
        0 <= k < names.len(),
        !skip_listed(names[k]),
        plan_of_names(names, m)[i] == type_decl_of(names[k], m[names[k]], m),
        plan_of_names(names, m)[i].name() == names[k],
    decreases names.len(),
{
    let rest = plan_of_names(names.drop_last(), m);
    if i < rest.len() {
        let k = lemma_plan_origin(names.drop_last(), m, i);
        assert(names.drop_last()[k] == names[k]);
        k
    } else {
        names.len() - 1
    }
}

proof fn lemma_plan_sorted(names: Seq<Seq<char>>, m: Map<Seq<char>, TgTypeView>)
    requires
        strictly_sorted(names),
    ensures
        forall|i: int, j: int|
            0 <= i < j < plan_of_names(names, m).len() ==> text_lt(
                #[trigger] plan_of_names(names, m)[i].name(),
                #[trigger] plan_of_names(names, m)[j].name(),
            ),
    decreases names.len(),
{
    if names.len() > 0 {
        let init = names.drop_last();
        assert forall|a: int, b: int| 0 <= a < b < init.len() implies text_lt(
            #[trigger] init[a],
            #[trigger] init[b],
        ) by {
            assert(init[a] == names[a] && init[b] == names[b]);
        }
        lemma_plan_sorted(init, m);
        let rest = plan_of_names(init, m);
        let plan = plan_of_names(names, m);
        assert forall|i: int, j: int| 0 <= i < j < plan.len() implies text_lt(
            #[trigger] plan[i].name(),
            #[trigger] plan[j].name(),
        ) by {
            if j >= rest.len() {
                let k = lemma_plan_origin(init, m, i);
                assert(init[k] == names[k]);
                assert(plan[j].name() == names[names.len() - 1]);
                assert(text_lt(names[k], names[names.len() - 1]));
            } else {
                assert(plan[i] == rest[i] && plan[j] == rest[j]);
            }
        }
    }
}

/// No type on the skip-list is among the emitted declarations.
pub proof fn lemma_skip_list_excluded(spec: ApiSpec)
    ensures
        forall|i: int|
            0 <= i < type_plan(spec@.types).len() ==> !skip_listed(
                #[trigger] type_plan(spec@.types)[i].name(),
            ),
{
    let names = sorted_names(spec@.types.dom());
    assert forall|i: int| 0 <= i < type_plan(spec@.types).len() implies !skip_listed(
        #[trigger] type_plan(spec@.types)[i].name(),
    ) by {
        lemma_plan_origin(names, spec@.types, i);
    }
}

/// Type declarations are emitted in strictly increasing name order.
pub proof fn lemma_types_in_name_order(spec: ApiSpec)
    requires
        spec.wf(),
    ensures
        forall|i: int, j: int|
            0 <= i < j < type_plan(spec@.types).len() ==> text_lt(
                #[trigger] type_plan(spec@.types)[i].name(),
                #[trigger] type_plan(spec@.types)[j].name(),
            ),
{
    lemma_type_names_listed(spec);
    lemma_plan_sorted(sorted_names(spec@.types.dom()), spec@.types);
}

/// Each emitted declaration is of exactly one kind, decided by its schema type:
/// a sum type (its variants, in schema order, and nothing else) when the type
/// lists variants; a struct with one field per schema field when it has fields
/// and no variants; an empty marker otherwise.
pub proof fn lemma_declaration_kind(spec: ApiSpec, i: int)
    requires
        spec.wf(),
        0 <= i < type_plan(spec@.types).len(),
    ensures
        ({
            let d = type_plan(spec@.types)[i];
            let t = spec@.types[d.name()];
            &&& spec@.types.contains_key(d.name())
            &&& d is Sum <==> t.subtypes.len() > 0
            &&& d is Sum ==> d->Sum_variants == t.subtypes
            &&& d is Struct <==> t.subtypes.len() == 0 && t.fields.len() > 0
            &&& d is Struct ==> d->Struct_fields.len() == t.fields.len()
        }),
{
    let names = sorted_names(spec@.types.dom());
    lemma_type_names_listed(spec);
    let k = lemma_plan_origin(names, spec@.types, i);
    assert(names.to_set().contains(names[k]));
}

proof fn lemma_resolve_optional(s: Seq<char>, optional: bool, m: Map<Seq<char>, TgTypeView>)
    ensures
        resolve(s, optional, m) is Optional <==> optional,
{
    assert(base_type(s) !is Optional);
}

/// An emitted struct field is optional exactly when its schema field is not
/// required (for fields that declare at least one type, as every schema field
/// does).
pub proof fn lemma_optionality_fidelity(spec: ApiSpec, i: int, j: int)
    requires
        spec.wf(),
        0 <= i < type_plan(spec@.types).len(),
        type_plan(spec@.types)[i] is Struct,
        0 <= j < type_plan(spec@.types)[i]->Struct_fields.len(),
        spec@.types[type_plan(spec@.types)[i].name()].fields[j].types.len() > 0,
    ensures
        ({
            let d = type_plan(spec@.types)[i];
            let f = spec@.types[d.name()].fields[j];
            &&& d->Struct_fields[j].wire_name == f.name
            &&& d->Struct_fields[j].ty is Optional <==> !f.required
        }),
{
    let names = sorted_names(spec@.types.dom());
    let m = spec@.types;
    let k = lemma_plan_origin(names, m, i);
    let f = m[names[k]].fields[j];
    lemma_resolve_optional(f.types[0], !f.required, m);
}

/// Output depends on the schema's content alone: two well-formed documents of
/// the same version whose tables hold the same entries, in whatever order,
/// yield the same two files.
pub proof fn lemma_output_independent_of_table_order(a: ApiSpec, b: ApiSpec)
    requires
        a.wf(),
        b.wf(),
        a.version@ == b.version@,
        type_entries(a.types@).to_set() == type_entries(b.types@).to_set(),
        method_entries(a.methods@).to_set() == method_entries(b.methods@).to_set(),
    ensures
        types_file_text(a@) == types_file_text(b@),
        methods_file_text(a@) == methods_file_text(b@),
{
    lemma_same_entries_same_map(type_entries(a.types@), type_entries(b.types@));
    lemma_same_entries_same_map(method_entries(a.methods@), method_entries(b.methods@));
    assert(a@.types == b@.types);
    assert(a@.methods == b@.methods);
}

proof fn lemma_same_entries_same_map<V>(e1: Seq<(Seq<char>, V)>, e2: Seq<(Seq<char>, V)>)
    requires
        keys_of(e1).no_duplicates(),
        keys_of(e2).no_duplicates(),
        e1.to_set() == e2.to_set(),
    ensures
        entries_map(e1) == entries_map(e2),
{
    let m1 = entries_map(e1);
    let m2 = entries_map(e2);
    assert forall|k: Seq<char>| #[trigger] m1.dom().contains(k) == m2.dom().contains(k) && (
    m1.dom().contains(k) ==> m1[k] == m2[k]) by {
        if m1.contains_key(k) {
            lemma_entries_map_dom(e1, k);
            let i = choose|i: int| 0 <= i < keys_of(e1).len() && keys_of(e1)[i] == k;
            lemma_entries_map_index(e1, i);
            assert(e1.to_set().contains(e1[i]));
            let j = choose|j: int| 0 <= j < e2.len() && e2[j] == e1[i];
            lemma_entries_map_index(e2, j);
        }
        if m2.contains_key(k) {
            lemma_entries_map_dom(e2, k);
            let j = choose|j: int| 0 <= j < keys_of(e2).len() && keys_of(e2)[j] == k;
            assert(e2.to_set().contains(e2[j]));
            let i = choose|i: int| 0 <= i < e1.len() && e1[i] == e2[j];
            lemma_entries_map_index(e1, i);
        }
    }
    assert(m1 =~= m2);
}

proof fn lemma_methods_of_names(
    names: Seq<Seq<char>>,
    mm: Map<Seq<char>, crate::schema::MethodView>,
    m: Map<Seq<char>, TgTypeView>,
)
    ensures
        methods_of_names(names, mm, m).len() == names.len(),
        forall|i: int|
            0 <= i < names.len() ==> #[trigger] methods_of_names(names, mm, m)[i] == method_decl_of(
                mm[names[i]],
                m,
            ),
    decreases names.len(),
{
    if names.len() > 0 {
        lemma_methods_of_names(names.drop_last(), mm, m);
        assert forall|i: int| 0 <= i < names.len() - 1 implies #[trigger] methods_of_names(
            names,
            mm,
            m,
        )[i] == method_decl_of(mm[names[i]], m) by {
            assert(names.drop_last()[i] == names[i]);
        }
    }
}

/// Wrappers are emitted one per method, in strictly increasing order of the
/// methods' keys; where each method is listed under its own name, in strictly
/// increasing order of their names.
pub proof fn lemma_methods_in_name_order(spec: ApiSpec)
    requires
        spec.wf(),
    ensures
        ({
            let names = sorted_names(spec@.methods.dom());
            let plan = method_plan(spec@);
            &&& lists_sorted(names, spec@.methods.dom())
            &&& plan.len() == names.len()
            &&& forall|i: int|
                0 <= i < plan.len() ==> #[trigger] plan[i] == method_decl_of(
                    spec@.methods[names[i]],
                    spec@.types,
                )
            &&& (forall|k: Seq<char>| #[trigger]
                spec@.methods.contains_key(k) ==> spec@.methods[k].name == k) ==> forall|
                i: int,
                j: int,
            | 0 <= i < j < plan.len() ==> text_lt(#[trigger] plan[i].name, #[trigger] plan[j].name)
        }),
{
    let names = sorted_names(spec@.methods.dom());
    lemma_method_names_listed(spec);
    lemma_methods_of_names(names, spec@.methods, spec@.types);
    let plan = method_plan(spec@);
    if forall|k: Seq<char>| #[trigger]
        spec@.methods.contains_key(k) ==> spec@.methods[k].name == k {
        assert forall|i: int, j: int| 0 <= i < j < plan.len() implies text_lt(
            #[trigger] plan[i].name,
            #[trigger] plan[j].name,
        ) by {
            assert(names.to_set().contains(names[i]));
            assert(names.to_set().contains(names[j]));
        }
    }
}

/// Every named type inside `t` is a name of `m`.
pub open spec fn names_declared(t: TypeExpr, m: Map<Seq<char>, TgTypeView>) -> bool
    decreases t,
{
    match t {
        TypeExpr::Named(n) => m.contains_key(n),
        TypeExpr::List(inner) => names_declared(*inner, m),
        TypeExpr::Optional(inner) => names_declared(*inner, m),
        TypeExpr::Boxed(inner) => names_declared(*inner, m),
        _ => true,
    }
}

proof fn lemma_resolve_declared(r: Seq<char>, optional: bool, m: Map<Seq<char>, TgTypeView>)
    requires
        ref_covered(r, m),
    ensures
        names_declared(resolve(r, optional, m), m),
    decreases r.len(),
{
    reveal_with_fuel(names_declared, 3);
    if is_array_ref(r) {
        lemma_resolve_declared(element_ref(r), false, m);
    }
}

proof fn lemma_field_declared(f: FieldView, m: Map<Seq<char>, TgTypeView>)
    requires
        field_refs_covered(f, m),
    ensures
        names_declared(field_type(f, m), m),
{
    reveal_with_fuel(names_declared, 2);
    if f.types.len() > 0 {
        lemma_resolve_declared(f.types[0], !f.required, m);
    }
}

proof fn lemma_decls_where_origin(
    fs: Seq<FieldView>,
    required: bool,
    m: Map<Seq<char>, TgTypeView>,
    i: int,
) -> (k: int)
    requires
        0 <= i < decls_where(fs, required, m).len(),
    ensures
        0 <= k < fs.len(),
        decls_where(fs, required, m)[i] == field_decl_of(fs[k], m),
    decreases fs.len(),
{
    let rest = decls_where(fs.drop_last(), required, m);
    if i < rest.len() {
        let k = lemma_decls_where_origin(fs.drop_last(), required, m, i);
        assert(fs.drop_last()[k] == fs[k]);
        k
    } else {
        fs.len() - 1
    }
}

/// Where every type reference of the schema is a scalar, an array form or a
/// declared type name, the emitted code names only declared types: in struct
/// fields, sum-type variants, wrapper parameters and wrapper results.
pub proof fn lemma_emitted_names_declared(spec: ApiSpec)
    requires
        spec.wf(),
        schema_names_covered(spec@),
    ensures
        forall|i: int, j: int|
            0 <= i < type_plan(spec@.types).len() && type_plan(spec@.types)[i] is Struct && 0 <= j
                < type_plan(spec@.types)[i]->Struct_fields.len() ==> names_declared(
                #[trigger] type_plan(spec@.types)[i]->Struct_fields[j].ty,
                spec@.types,
            ),
        forall|i: int, k: int|
            0 <= i < type_plan(spec@.types).len() && type_plan(spec@.types)[i] is Sum && 0 <= k
                < type_plan(spec@.types)[i]->Sum_variants.len() ==> spec@.types.contains_key(
                #[trigger] type_plan(spec@.types)[i]->Sum_variants[k],
            ),
        forall|i: int|
            0 <= i < method_plan(spec@).len() ==> names_declared(
                #[trigger] method_plan(spec@)[i].result,
                spec@.types,
            ),
        forall|i: int, j: int|
            0 <= i < method_plan(spec@).len() && 0 <= j < method_plan(spec@)[i].required.len()
                ==> names_declared(#[trigger] method_plan(spec@)[i].required[j].ty, spec@.types),
        forall|i: int, j: int|
            0 <= i < method_plan(spec@).len() && 0 <= j < method_plan(spec@)[i].optional.len()
                ==> names_declared(#[trigger] method_plan(spec@)[i].optional[j].ty, spec@.types),
{
    let m = spec@.types;
    let mm = spec@.methods;
    let tnames = sorted_names(m.dom());
    let mnames = sorted_names(mm.dom());
    lemma_type_names_listed(spec);
    lemma_method_names_listed(spec);
    lemma_methods_of_names(mnames, mm, m);
    let tplan = type_plan(m);
    let mplan = method_plan(spec@);
    assert forall|i: int, j: int|
        0 <= i < tplan.len() && tplan[i] is Struct && 0 <= j < tplan[i]->Struct_fields.len()
            implies names_declared(#[trigger] tplan[i]->Struct_fields[j].ty, m) by {
        let k = lemma_plan_origin(tnames, m, i);
        assert(tnames.to_set().contains(tnames[k]));
        assert(type_refs_ok(m[tnames[k]], m));
        lemma_field_declared(m[tnames[k]].fields[j], m);
    }
    assert forall|i: int, k: int|
        0 <= i < tplan.len() && tplan[i] is Sum && 0 <= k < tplan[i]->Sum_variants.len()
            implies m.contains_key(#[trigger] tplan[i]->Sum_variants[k]) by {
        let n = lemma_plan_origin(tnames, m, i);
        assert(tnames.to_set().contains(tnames[n]));
        assert(type_refs_ok(m[tnames[n]], m));
        assert(m[tnames[n]].subtypes[k] == tplan[i]->Sum_variants[k]);
    }
    assert forall|i: int| 0 <= i < mplan.len() implies names_declared(
        #[trigger] mplan[i].result,
        m,
    ) by {
        assert(mnames.to_set().contains(mnames[i]));
        let meth = mm[mnames[i]];
        assert(method_refs_ok(meth, m));
        if meth.result_types.len() == 1 {
            assert(ref_covered(meth.result_types[0], m));
            lemma_resolve_declared(meth.result_types[0], false, m);
        }
    }
    assert forall|i: int, j: int| 0 <= i < mplan.len() && 0 <= j < mplan[i].required.len()
        implies names_declared(#[trigger] mplan[i].required[j].ty, m) by {
        assert(mnames.to_set().contains(mnames[i]));
        let meth = mm[mnames[i]];
        assert(method_refs_ok(meth, m));
        let k = lemma_decls_where_origin(meth.fields, true, m, j);
        assert(field_refs_covered(meth.fields[k], m));
        lemma_field_declared(meth.fields[k], m);
    }
    assert forall|i: int, j: int| 0 <= i < mplan.len() && 0 <= j < mplan[i].optional.len()
        implies names_declared(#[trigger] mplan[i].optional[j].ty, m) by {
        assert(mnames.to_set().contains(mnames[i]));
        let meth = mm[mnames[i]];
        assert(method_refs_ok(meth, m));
        let k = lemma_decls_where_origin(meth.fields, false, m, j);
        assert(field_refs_covered(meth.fields[k], m));
        lemma_field_declared(meth.fields[k], m);
    }
}

} // verus!
