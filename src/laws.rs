use vstd::prelude::*;
use crate::accessor::{effective_mode, GetterKind};
use crate::decl::{MarkerV, MethodDecl, StructDecls};
use crate::model::{
    boundary_ty, method_decl_ok, method_head_markers, method_markers, opt_marker, struct_decls_ok,
    Method, Struct,
};
use crate::naming::camel_from_snake;
use crate::options::{opts_entries, ImplAttributes};
use crate::syntax::{opt_ty_view, ArgumentV, ItemStruct, LitV, TyV};
use crate::types::{is_self_view, map_value_args, map_value_split, returns_result};

verus! {

/// A type declaration with one field and no options at all turns into one
/// extern type and, for the field, a getter and a setter whose external name
/// is the camel-case form of the field's name.
pub proof fn lemma_plain_single_field(item: ItemStruct, s: Struct, d: StructDecls)
    requires
        item.attrs@.len() == 0,
        item.fields@.len() == 1,
        item.fields@[0].attrs@.len() == 0,
        s.resolved_from(item),
        struct_decls_ok(d, s),
    ensures
        d.extern_type is Some,
        d.fields@.len() == 1,
        d.fields@[0].getter is Some,
        d.fields@[0].setter is Some,
        d.fields@[0].getter->0@.markers == seq![
            MarkerV::MethodGetter,
            MarkerV::JsName(LitV::Str(camel_from_snake(s.fields@[0].name@))),
        ],
        d.fields@[0].setter->0@.markers == seq![
            MarkerV::MethodSetter,
            MarkerV::JsName(LitV::Str(camel_from_snake(s.fields@[0].name@))),
        ],
{
    let e = opts_entries(item.attrs@);
    let fe = opts_entries(item.fields@[0].attrs@);
    assert(e.len() == 0);
    assert(fe.len() == 0);
    let f = s.fields@[0];
    assert(f.resolved_from(item.fields@[0]));
    assert(s.getters == GetterKind::Neither);
    assert(f.getters == GetterKind::Neither);
    assert(effective_mode(s.getters, f.getters) == GetterKind::Both);
    assert(d.fields@[0].getter->0@.markers =~= seq![
        MarkerV::MethodGetter,
        MarkerV::JsName(LitV::Str(camel_from_snake(f.name@))),
    ]);
    assert(d.fields@[0].setter->0@.markers =~= seq![
        MarkerV::MethodSetter,
        MarkerV::JsName(LitV::Str(camel_from_snake(f.name@))),
    ]);
}

/// With accessors redirected to another type, no extern type is declared
/// and every accessor takes that type as its `this`.
pub proof fn lemma_redirected_accessors(s: Struct, d: StructDecls)
    requires
        s.on is Some,
        struct_decls_ok(d, s),
    ensures
        d.extern_type is None,
        forall|i: int|
            0 <= i < d.fields@.len() ==> ((#[trigger] d.fields@[i]).getter matches Some(g)
                ==> g@.this == Some((true, s.on->0@))),
        forall|i: int|
            0 <= i < d.fields@.len() ==> ((#[trigger] d.fields@[i]).setter matches Some(x)
                ==> x@.this == Some((true, s.on->0@))),
{
}

/// A method returning `MapValue<T, U>` is visible with return type `U`,
/// and its boundary declaration returns `T` (the enclosing type if `T` is
/// the placeholder for it).
pub proof fn lemma_map_value_split(
    m: Method,
    ty: TyV,
    o: ImplAttributes,
    d: MethodDecl,
    t: TyV,
    u: TyV,
)
    requires
        m.sig.output is Some,
        map_value_args(m.sig.output->0@) == Some(seq![ArgumentV::Type(t), ArgumentV::Type(u)]),
        method_decl_ok(d, m, ty, o),
    ensures
        opt_ty_view(d.sig.output) == Some(u),
        d.binding@.output == Some(
            if is_self_view(t) {
                ty
            } else {
                t
            },
        ),
{
    let args = map_value_args(m.sig.output->0@)->0;
    assert(args.len() == 2);
    assert(args[0] == ArgumentV::Type(t));
    assert(args[1] == ArgumentV::Type(u));
    assert(map_value_split(opt_ty_view(m.sig.output)) == Ok::<Option<(TyV, TyV)>, crate::error::ModelError>(Some((t, u))));
}

proof fn lemma_contains_add(a: Seq<MarkerV>, b: Seq<MarkerV>, x: MarkerV)
    ensures
        (a + b).contains(x) <==> (a.contains(x) || b.contains(x)),
{
    let c = a + b;
    if c.contains(x) {
        let i = choose|i: int| 0 <= i < c.len() && c[i] == x;
        if i < a.len() {
            assert(a[i] == x);
        } else {
            assert(b[i - a.len()] == x);
        }
    }
    if a.contains(x) {
        let i = choose|i: int| 0 <= i < a.len() && a[i] == x;
        assert(c[i] == x);
    }
    if b.contains(x) {
        let i = choose|i: int| 0 <= i < b.len() && b[i] == x;
        assert(c[i + a.len()] == x);
    }
}

proof fn lemma_opt_marker_contains(cond: bool, m: MarkerV, x: MarkerV)
    ensures
        opt_marker(cond, m).contains(x) <==> (cond && m == x),
{
    if cond {
        assert(opt_marker(cond, m)[0] == m);
    }
}

/// The boundary declaration of a method carries the catch marker exactly
/// when its boundary return type (after value-mapping extraction) is a
/// result; so a method whose declared type is neither a result nor the
/// value-mapping wrapper never carries it.
pub proof fn lemma_catch_iff_result(m: Method, ty: TyV, o: ImplAttributes, d: MethodDecl)
    requires
        method_decl_ok(d, m, ty, o),
    ensures
        d.binding@.markers.contains(MarkerV::Catch) <==> returns_result(
            boundary_ty(
                map_value_split(opt_ty_view(m.sig.output))->Ok_0,
                opt_ty_view(m.sig.output),
            ),
        ),
        map_value_split(opt_ty_view(m.sig.output)) == Ok::<
            Option<(TyV, TyV)>,
            crate::error::ModelError,
        >(None) ==> (d.binding@.markers.contains(MarkerV::Catch) <==> returns_result(
            opt_ty_view(m.sig.output),
        )),
{
    let split = map_value_split(opt_ty_view(m.sig.output))->Ok_0;
    let head = method_head_markers(m, ty, o);
    let x = MarkerV::Catch;
    assert(!head.contains(x)) by {
        if head.contains(x) {
            let i = choose|i: int| 0 <= i < head.len() && head[i] == x;
            assert(head[i] == x);
        }
    }
    let cat = returns_result(boundary_ty(split, opt_ty_view(m.sig.output)));
    let s1 = head + opt_marker(cat, x);
    lemma_contains_add(head, opt_marker(cat, x), x);
    lemma_opt_marker_contains(cat, x, x);
    let s2 = s1 + opt_marker(m.constructor, MarkerV::Constructor);
    lemma_contains_add(s1, opt_marker(m.constructor, MarkerV::Constructor), x);
    lemma_opt_marker_contains(m.constructor, MarkerV::Constructor, x);
    let fin = crate::accessor::is_final(o.final_, m.final_, m.structural);
    let s3 = s2 + opt_marker(fin, MarkerV::Final);
    lemma_contains_add(s2, opt_marker(fin, MarkerV::Final), x);
    lemma_opt_marker_contains(fin, MarkerV::Final, x);
    let s4 = s3 + opt_marker(m.getter, MarkerV::Getter);
    lemma_contains_add(s3, opt_marker(m.getter, MarkerV::Getter), x);
    lemma_opt_marker_contains(m.getter, MarkerV::Getter, x);
    let s5 = s4 + opt_marker(m.setter, MarkerV::Setter);
    lemma_contains_add(s4, opt_marker(m.setter, MarkerV::Setter), x);
    lemma_opt_marker_contains(m.setter, MarkerV::Setter, x);
    let s6 = s5 + opt_marker(m.indexing_getter, MarkerV::IndexingGetter);
    lemma_contains_add(s5, opt_marker(m.indexing_getter, MarkerV::IndexingGetter), x);
    lemma_opt_marker_contains(m.indexing_getter, MarkerV::IndexingGetter, x);
    let s7 = s6 + opt_marker(m.indexing_setter, MarkerV::IndexingSetter);
    lemma_contains_add(s6, opt_marker(m.indexing_setter, MarkerV::IndexingSetter), x);
    lemma_opt_marker_contains(m.indexing_setter, MarkerV::IndexingSetter, x);
    let s8 = s7 + opt_marker(m.indexing_deleter, MarkerV::IndexingDeleter);
    lemma_contains_add(s7, opt_marker(m.indexing_deleter, MarkerV::IndexingDeleter), x);
    lemma_opt_marker_contains(m.indexing_deleter, MarkerV::IndexingDeleter, x);
    let s9 = s8 + opt_marker(m.variadic, MarkerV::Variadic);
    lemma_contains_add(s8, opt_marker(m.variadic, MarkerV::Variadic), x);
    lemma_opt_marker_contains(m.variadic, MarkerV::Variadic, x);
    assert(s9 == method_markers(m, ty, o, split));
}

/// A type declaration of its own type and without fields turns into its
/// extern type alone, carrying exactly the declaration's external name and
/// parent type, and no accessors.
pub proof fn lemma_fieldless_declaration(s: Struct, d: StructDecls)
    requires
        s.on is None,
        s.fields@.len() == 0,
        struct_decls_ok(d, s),
    ensures
        d.fields@.len() == 0,
        d.extern_type is Some,
        d.extern_type->0.js_name == s.js_name,
        opt_ty_view(d.extern_type->0.extends) == opt_ty_view(s.extends),
        d.extern_type->0.name == s.name,
{
}

} // verus!
