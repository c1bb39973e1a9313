use vstd::prelude::*;
use crate::accessor::{apply_getter_rules, effective_mode, is_final, resolve_finality, GetterKind};
use crate::decl::{
    markers_view, ExternFn, ExternFnV, ExternType, FieldDecls, ForwardCall, ImplDecls, Marker,
    MarkerV, MethodBody, MethodDecl, ModuleLoc, Output, StructDecls, ThisParam,
};
use crate::error::ModelError;
use crate::naming::{camel_from_snake, IdentExt};
use crate::options::{
    field_conflicts, field_schema, flag_of, impl_conflicts, impl_schema, lemma_other_attrs_plain,
    error_explains, lit_of, list_of, method_conflicts, method_schema, opts_entries, options_valid,
    other_attrs,
    slot_value, struct_conflicts, struct_schema, ty_of, Attr, FieldAttributes, ImplAttributes,
    MethodAttributes, StructAttributes,
};
use crate::syntax::{
    all_other, args_view, copy_args, copy_attrs, copy_lit, copy_lit_opt, copy_lits, copy_opt_ty,
    copy_string, copy_ty, lits_view, opt_ty_view, FnArg, FnArgV, ImplItem, Item, ItemField, ItemFn,
    ItemImpl, ItemStruct, Lit, LitV, Pat, PatV, Receiver, Signature, Ty, TyV,
};
use crate::types::{
    ident_ty, ident_ty_view, is_result_from_return_ty, is_self_ty, is_self_ty_from_return_ty,
    is_self_view, map_value_split, map_value_types, returns_result, returns_self,
};

verus! {

/// A field of a type declaration, with its options resolved.
#[derive(Debug, PartialEq, Eq)]
pub struct Field {
    pub attrs: Vec<Attr>,
    pub vis: String,
    pub name: String,
    pub final_: bool,
    pub structural: bool,
    pub js_name: Option<Lit>,
    pub getters: GetterKind,
    pub ty: Ty,
}

/// A type declaration, with its options resolved.
#[derive(Debug, PartialEq, Eq)]
pub struct Struct {
    pub dbg: bool,
    pub attrs: Vec<Attr>,
    pub vis: String,
    pub name: String,
    pub on: Option<Ty>,
    pub getters: GetterKind,
    pub final_: bool,
    pub js_name: Option<Lit>,
    pub js_namespace: Vec<Lit>,
    pub module: Option<Lit>,
    pub raw_module: Option<Lit>,
    pub extends: Option<Ty>,
    pub fields: Vec<Field>,
}

/// A field as written can be taken in: its options resolve, and it is named.
pub open spec fn field_item_ok(f: ItemField) -> bool {
    &&& options_valid(opts_entries(f.attrs@), field_schema(), field_conflicts())
    &&& f.ident is Some
}

/// The error a field as written is rejected with: the fault of its
/// options, or, with valid options, a positional field.
pub open spec fn field_error(e: ModelError, f: ItemField) -> bool {
    let entries = opts_entries(f.attrs@);
    if options_valid(entries, field_schema(), field_conflicts()) {
        f.ident is None && e == ModelError::TupleField
    } else {
        error_explains(e, entries, field_schema(), field_conflicts())
    }
}

/// The error a type declaration as written is rejected with: the fault of
/// its own options, else the error of its first field that is rejected.
pub open spec fn struct_error(e: ModelError, item: ItemStruct) -> bool {
    let entries = opts_entries(item.attrs@);
    if options_valid(entries, struct_schema(), struct_conflicts()) {
        exists|i: int|
            0 <= i < item.fields@.len() && (forall|j: int|
                0 <= j < i ==> field_item_ok(#[trigger] item.fields@[j])) && field_error(
                e,
                item.fields@[i],
            )
    } else {
        error_explains(e, entries, struct_schema(), struct_conflicts())
    }
}

/// A type declaration as written can be taken in.
pub open spec fn struct_item_ok(item: ItemStruct) -> bool {
    &&& options_valid(opts_entries(item.attrs@), struct_schema(), struct_conflicts())
    &&& forall|i: int| 0 <= i < item.fields@.len() ==> field_item_ok(#[trigger] item.fields@[i])
}

impl Field {
    /// The remaining markers are plain source text.
    pub open spec fn wf(self) -> bool {
        all_other(self.attrs@)
    }

    /// `self` is what `f` resolves to.
    pub open spec fn resolved_from(self, f: ItemField) -> bool {
        let e = opts_entries(f.attrs@);
        &&& self.attrs@ == other_attrs(f.attrs@)
        &&& self.vis == f.vis
        &&& f.ident == Some(self.name)
        &&& self.final_ == flag_of(slot_value(e, "final_"@))
        &&& self.structural == flag_of(slot_value(e, "structural"@))
        &&& self.js_name == lit_of(slot_value(e, "js_name"@))
        &&& self.getters == GetterKind::from_facts(
            flag_of(slot_value(e, "getter"@)),
            flag_of(slot_value(e, "setter"@)),
        )
        &&& self.ty == f.ty
    }

    pub fn try_from(f: ItemField) -> (r: Result<Field, ModelError>)
        ensures
            r is Ok <==> field_item_ok(f),
            r matches Ok(x) ==> x.resolved_from(f) && x.wf(),
            r matches Err(e) ==> field_error(e, f),
    {
        let ItemField { attrs, vis, ident, ty } = f;
        let mut attrs = attrs;
        let opts = match FieldAttributes::remove_attributes(&mut attrs) {
            Ok(opts) => opts,
            Err(e) => return Err(e),
        };
        let name = match ident {
            Some(name) => name,
            None => return Err(ModelError::TupleField),
        };
        proof {
            lemma_other_attrs_plain(f.attrs@);
        }
        Ok(
            Field {
                attrs,
                vis,
                name,
                final_: opts.final_,
                structural: opts.structural,
                js_name: opts.js_name,
                getters: GetterKind::new(opts.getter, opts.setter),
                ty,
            },
        )
    }
}

/// The type that accessors are addressed to: the redirection target if
/// there is one, else the declaration's own name.
pub open spec fn ty_name_view(g: Struct) -> TyV {
    match g.on {
        Some(t) => t@,
        None => ident_ty_view(g.name@),
    }
}

/// A field's type with the placeholder for the enclosing type replaced.
pub open spec fn field_ty_view(f: Field, g: Struct) -> TyV {
    if is_self_view(f.ty@) {
        ty_name_view(g)
    } else {
        f.ty@
    }
}

/// The external name: the override if given, else the camel-case form of
/// the member's own name.
pub open spec fn js_name_view(given: Option<Lit>, ident: Seq<char>) -> LitV {
    match given {
        Some(l) => l@,
        None => LitV::Str(camel_from_snake(ident)),
    }
}

/// The markers of one accessor, after its leading `method, getter` or
/// `method, setter` marker.
pub open spec fn accessor_markers(first: MarkerV, f: Field, g: Struct) -> Seq<MarkerV> {
    seq![first] + (if g.on is Some && g.js_name is Some {
        seq![MarkerV::JsClass(g.js_name->0@)]
    } else {
        seq![]
    }) + seq![MarkerV::JsName(js_name_view(f.js_name, f.name@))] + (if g.js_namespace@.len() > 0 {
        seq![MarkerV::JsNamespace(lits_view(g.js_namespace@))]
    } else {
        seq![]
    }) + (if is_final(g.final_, f.final_, f.structural) {
        seq![MarkerV::Final]
    } else {
        seq![]
    })
}

/// The getter of a field: `fn name(this: &Owner) -> FieldType`.
pub open spec fn getter_view(f: Field, g: Struct) -> ExternFnV {
    ExternFnV {
        markers: accessor_markers(MarkerV::MethodGetter, f, g),
        vis: f.vis@,
        is_async: false,
        name: f.name@,
        this: Some((true, ty_name_view(g))),
        inputs: seq![],
        output: Some(field_ty_view(f, g)),
    }
}

/// The setter of a field: `fn set_name(this: &Owner, value: FieldType)`.
pub open spec fn setter_view(f: Field, g: Struct) -> ExternFnV {
    ExternFnV {
        markers: accessor_markers(MarkerV::MethodSetter, f, g),
        vis: f.vis@,
        is_async: false,
        name: "set_"@ + f.name@,
        this: Some((true, ty_name_view(g))),
        inputs: seq![FnArgV { pat: PatV::Ident("value"@), ty: field_ty_view(f, g) }],
        output: None,
    }
}

/// The accessors of a field: a getter when its effective mode includes
/// reading, a setter when it includes writing.
pub open spec fn field_decls_ok(d: FieldDecls, f: Field, g: Struct) -> bool {
    let mode = effective_mode(g.getters, f.getters);
    &&& d.attrs@ == f.attrs@
    &&& (d.getter is Some <==> mode.has_get())
    &&& (d.getter matches Some(x) ==> x@ == getter_view(f, g))
    &&& (d.setter is Some <==> mode.has_set())
    &&& (d.setter matches Some(x) ==> x@ == setter_view(f, g))
}

/// Where the extern block is imported from: `module` if given, else
/// `raw_module`.
pub open spec fn module_of(module: Option<Lit>, raw_module: Option<Lit>) -> Option<ModuleLoc> {
    match module {
        Some(l) => Some(ModuleLoc::Module(l)),
        None => match raw_module {
            Some(l) => Some(ModuleLoc::RawModule(l)),
            None => None,
        },
    }
}

fn module_loc(module: &Option<Lit>, raw_module: &Option<Lit>) -> (r: Option<ModuleLoc>)
    ensures
        r == module_of(*module, *raw_module),
{
    match module {
        Some(l) => Some(ModuleLoc::Module(copy_lit(l))),
        None => match raw_module {
            Some(l) => Some(ModuleLoc::RawModule(copy_lit(l))),
            None => None,
        },
    }
}

/// The extern type declaration: none when accessors are redirected to
/// another type, else the declaration's own name with its external name,
/// parent type and remaining markers.
pub open spec fn extern_type_ok(t: Option<ExternType>, g: Struct) -> bool {
    match t {
        None => g.on is Some,
        Some(x) => {
            &&& g.on is None
            &&& x.js_name == g.js_name
            &&& opt_ty_view(x.extends) == opt_ty_view(g.extends)
            &&& x.attrs@ == g.attrs@
            &&& x.vis == g.vis
            &&& x.name == g.name
        },
    }
}

/// What a type declaration turns into.
pub open spec fn struct_decls_ok(d: StructDecls, s: Struct) -> bool {
    &&& d.module == module_of(s.module, s.raw_module)
    &&& extern_type_ok(d.extern_type, s)
    &&& d.fields@.len() == s.fields@.len()
    &&& forall|i: int|
        0 <= i < s.fields@.len() ==> field_decls_ok(#[trigger] d.fields@[i], s.fields@[i], s)
    &&& d.dbg == s.dbg
}

impl Struct {
    pub open spec fn wf(self) -> bool {
        &&& all_other(self.attrs@)
        &&& forall|i: int| 0 <= i < self.fields@.len() ==> (#[trigger] self.fields@[i]).wf()
    }

    /// `self` is what `item` resolves to.
    pub open spec fn resolved_from(self, item: ItemStruct) -> bool {
        let e = opts_entries(item.attrs@);
        &&& self.dbg == flag_of(slot_value(e, "dbg"@))
        &&& self.attrs@ == other_attrs(item.attrs@)
        &&& self.vis == item.vis
        &&& self.name == item.ident
        &&& self.on == ty_of(slot_value(e, "on"@))
        &&& self.extends == ty_of(slot_value(e, "extends"@))
        &&& self.getters == GetterKind::from_facts(
            flag_of(slot_value(e, "getter"@)),
            flag_of(slot_value(e, "setter"@)),
        )
        &&& self.final_ == flag_of(slot_value(e, "final_"@))
        &&& self.js_name == lit_of(slot_value(e, "js_name"@))
        &&& self.js_namespace@ == list_of(slot_value(e, "js_namespace"@))
        &&& self.module == lit_of(slot_value(e, "module"@))
        &&& self.raw_module == lit_of(slot_value(e, "raw_module"@))
        &&& self.fields@.len() == item.fields@.len()
        &&& forall|i: int|
            0 <= i < item.fields@.len() ==> (#[trigger] self.fields@[i]).resolved_from(
                item.fields@[i],
            )
    }

    pub fn try_from(item: ItemStruct) -> (r: Result<Struct, ModelError>)
        ensures
            r is Ok <==> struct_item_ok(item),
            r matches Ok(s) ==> s.resolved_from(item) && s.wf(),
            r matches Err(e) ==> struct_error(e, item),
    {
        let ItemStruct { attrs, vis, ident, fields } = item;
        let mut attrs = attrs;
        let opts = match StructAttributes::remove_attributes(&mut attrs) {
            Ok(opts) => opts,
            Err(e) => return Err(e),
        };
        proof {
            lemma_other_attrs_plain(item.attrs@);
        }
        let ghost all = fields@;
        let n = fields.len();
        let mut rest = fields;
        let mut out: Vec<Field> = Vec::new();
        let mut i: usize = 0;
        while i < n
            invariant
                options_valid(opts_entries(item.attrs@), struct_schema(), struct_conflicts()),
                all == item.fields@,
                n == all.len(),
                i <= n,
                rest@ == all.subrange(i as int, n as int),
                out@.len() == i,
                forall|k: int| 0 <= k < i ==> field_item_ok(#[trigger] all[k]),
                forall|k: int|
                    0 <= k < i ==> (#[trigger] out@[k]).resolved_from(all[k]) && out@[k].wf(),
            decreases n - i,
        {
            let f = rest.remove(0);
            assert(f == all[i as int]);
            match Field::try_from(f) {
                Ok(x) => out.push(x),
                Err(e) => {
                    assert(field_error(e, item.fields@[i as int]));
                    assert(forall|j: int| 0 <= j < i ==> field_item_ok(#[trigger] item.fields@[j]));
                    assert(options_valid(opts_entries(item.attrs@), struct_schema(), struct_conflicts()));
                    return Err(e);
                },
            }
            i = i + 1;
        }
        Ok(
            Struct {
                dbg: opts.dbg,
                attrs,
                vis,
                name: ident,
                on: opts.on,
                getters: GetterKind::new(opts.getter, opts.setter),
                final_: opts.final_,
                js_name: opts.js_name,
                js_namespace: opts.js_namespace,
                module: opts.module,
                raw_module: opts.raw_module,
                extends: opts.extends,
                fields: out,
            },
        )
    }

    /// Both accessors were asked for explicitly, which is what an
    /// unannotated declaration gets anyway: worth an advisory, not an error.
    pub fn has_redundant_accessors(&self) -> (r: bool)
        ensures
            r == (self.getters is Both),
    {
        matches!(self.getters, GetterKind::Both)
    }

    fn ty_name(&self) -> (r: Ty)
        ensures
            r@ == ty_name_view(*self),
    {
        match &self.on {
            Some(on) => copy_ty(on),
            None => ident_ty(&self.name),
        }
    }

    /// The extern type declaration, unless accessors are redirected.
    pub fn extern_type(&self) -> (r: Option<ExternType>)
        requires
            self.wf(),
        ensures
            extern_type_ok(r, *self),
    {
        if self.on.is_some() {
            return None;
        }
        Some(
            ExternType {
                js_name: copy_lit_opt(&self.js_name),
                extends: copy_opt_ty(&self.extends),
                attrs: copy_attrs(&self.attrs),
                vis: copy_string(&self.vis),
                name: copy_string(&self.name),
            },
        )
    }

    /// The declarations generated for this type declaration.
    pub fn to_tokens(&self) -> (r: StructDecls)
        requires
            self.wf(),
        ensures
            struct_decls_ok(r, *self),
    {
        let extern_type = self.extern_type();
        let mut fields: Vec<FieldDecls> = Vec::new();
        let mut i: usize = 0;
        while i < self.fields.len()
            invariant
                self.wf(),
                i <= self.fields@.len(),
                fields@.len() == i,
                forall|k: int|
                    0 <= k < i ==> field_decls_ok(#[trigger] fields@[k], self.fields@[k], *self),
            decreases self.fields.len() - i,
        {
            assert(self.fields@[i as int].wf());
            fields.push(self.fields[i].to_tokens_with_global(self));
            i = i + 1;
        }
        StructDecls {
            module: module_loc(&self.module, &self.raw_module),
            extern_type,
            fields,
            dbg: self.dbg,
        }
    }
}

impl Field {
    fn accessor_markers(&self, first: Marker, global: &Struct) -> (r: Vec<Marker>)
        ensures
            markers_view(r@) == accessor_markers(first@, *self, *global),
    {
        let ghost f = *self;
        let ghost g = *global;
        let ghost first_v = first@;
        let mut m: Vec<Marker> = Vec::new();
        m.push(first);
        let ghost p1: Seq<MarkerV> = seq![first_v];
        assert(markers_view(m@) =~= p1);
        if global.on.is_some() {
            if let Some(js_class) = &global.js_name {
                m.push(Marker::JsClass(copy_lit(js_class)));
            }
        }
        let ghost p2: Seq<MarkerV> = p1 + (if g.on is Some && g.js_name is Some {
            seq![MarkerV::JsClass(g.js_name->0@)]
        } else {
            seq![]
        });
        assert(markers_view(m@) =~= p2);
        let js_name = match &self.js_name {
            Some(l) => copy_lit(l),
            None => Lit::Str(self.name.to_camel_from_snake()),
        };
        m.push(Marker::JsName(js_name));
        let ghost p3: Seq<MarkerV> = p2 + seq![MarkerV::JsName(js_name_view(f.js_name, f.name@))];
        assert(markers_view(m@) =~= p3);
        if global.js_namespace.len() > 0 {
            let ns = copy_lits(&global.js_namespace);
            m.push(Marker::JsNamespace(ns));
        }
        let ghost p4: Seq<MarkerV> = p3 + (if g.js_namespace@.len() > 0 {
            seq![MarkerV::JsNamespace(lits_view(g.js_namespace@))]
        } else {
            seq![]
        });
        assert(markers_view(m@) =~= p4);
        if resolve_finality(global.final_, self.final_, self.structural) {
            m.push(Marker::Final);
        }
        assert(markers_view(m@) =~= accessor_markers(first_v, f, g));
        m
    }

    fn ty_with_global(&self, global: &Struct) -> (r: Ty)
        ensures
            r@ == field_ty_view(*self, *global),
    {
        if is_self_ty(&self.ty) {
            global.ty_name()
        } else {
            copy_ty(&self.ty)
        }
    }

    /// The accessors of this field of the type declaration `global`.
    pub fn to_tokens_with_global(&self, global: &Struct) -> (r: FieldDecls)
        requires
            self.wf(),
        ensures
            field_decls_ok(r, *self, *global),
    {
        let mode = apply_getter_rules(global.getters, self.getters);
        let getter = if mode.is_getter() {
            let x = ExternFn {
                markers: self.accessor_markers(Marker::MethodGetter, global),
                vis: copy_string(&self.vis),
                is_async: false,
                name: copy_string(&self.name),
                this: Some(ThisParam { by_ref: true, ty: global.ty_name() }),
                inputs: Vec::new(),
                output: Some(self.ty_with_global(global)),
            };
            assert(x@.inputs =~= seq![]);
            assert(x@ == getter_view(*self, *global));
            Some(x)
        } else {
            None
        };
        let setter = if mode.is_setter() {
            let mut name = String::from_str("set_");
            name.append(self.name.as_str());
            let mut inputs: Vec<FnArg> = Vec::new();
            inputs.push(
                FnArg { pat: Pat::Ident(String::from_str("value")), ty: self.ty_with_global(global) },
            );
            let x = ExternFn {
                markers: self.accessor_markers(Marker::MethodSetter, global),
                vis: copy_string(&self.vis),
                is_async: false,
                name,
                this: Some(ThisParam { by_ref: true, ty: global.ty_name() }),
                inputs,
                output: None,
            };
            assert(x@.inputs =~= seq![FnArgV { pat: PatV::Ident("value"@), ty: field_ty_view(*self, *global) }]);
            assert(x@ == setter_view(*self, *global));
            Some(x)
        } else {
            None
        };
        FieldDecls { attrs: copy_attrs(&self.attrs), getter, setter }
    }
}

/// A method of a method collection, with its options resolved.
#[derive(Debug, PartialEq, Eq)]
pub struct Method {
    pub attrs: Vec<Attr>,
    pub vis: String,
    pub sig: Signature,
    pub body: Option<String>,
    pub constructor: bool,
    pub final_: bool,
    pub structural: bool,
    pub js_name: Option<Lit>,
    pub getter: bool,
    pub setter: bool,
    pub indexing_getter: bool,
    pub indexing_setter: bool,
    pub indexing_deleter: bool,
    pub variadic: bool,
}

/// A method collection, with its options resolved.
#[derive(Debug, PartialEq, Eq)]
pub struct Impl {
    pub attrs: Vec<Attr>,
    pub ty: Ty,
    pub options: ImplAttributes,
    pub items: Vec<Method>,
}

/// A signature without generics, `const`, calling convention or `unsafe`.
pub open spec fn sig_supported(s: Signature) -> bool {
    !s.has_generics && !s.is_const && !s.has_abi && !s.is_unsafe
}

/// A method as written can be taken in.
pub open spec fn method_item_ok(f: ItemFn) -> bool {
    &&& options_valid(opts_entries(f.attrs@), method_schema(), method_conflicts())
    &&& sig_supported(f.sig)
}

/// The error a method as written is rejected with: the fault of its
/// options, or, with valid options, its unsupported signature.
pub open spec fn method_error(e: ModelError, f: ItemFn) -> bool {
    let entries = opts_entries(f.attrs@);
    if options_valid(entries, method_schema(), method_conflicts()) {
        !sig_supported(f.sig) && e == ModelError::UnsupportedSignature(f.sig.ident)
    } else {
        error_explains(e, entries, method_schema(), method_conflicts())
    }
}

/// The error the items of a method collection are rejected with: any item
/// that is not a method, else the error of the first method rejected.
pub open spec fn items_error(e: ModelError, items: Seq<ImplItem>) -> bool {
    if exists|i: int| 0 <= i < items.len() && (#[trigger] items[i]) is Other {
        e == ModelError::NotAMethod
    } else {
        exists|i: int|
            0 <= i < items.len() && (forall|j: int|
                0 <= j < i ==> ((#[trigger] items[j]) matches ImplItem::Fn(f) && method_item_ok(
                    f,
                ))) && method_error(e, items[i]->Fn_0)
    }
}

/// Every item of a method collection is a method that can be taken in.
pub open spec fn impl_items_ok(items: Seq<ImplItem>) -> bool {
    forall|i: int| 0 <= i < items.len() ==> ((#[trigger] items[i]) matches ImplItem::Fn(f) && method_item_ok(f))
}

/// The error a method collection as written is rejected with: the fault
/// of its own options, else the error of its items.
pub open spec fn impl_error(e: ModelError, item: ItemImpl) -> bool {
    let entries = opts_entries(item.attrs@);
    if options_valid(entries, impl_schema(), impl_conflicts()) {
        items_error(e, item.items@)
    } else {
        error_explains(e, entries, impl_schema(), impl_conflicts())
    }
}

/// A method collection as written can be taken in.
pub open spec fn impl_item_ok(item: ItemImpl) -> bool {
    &&& options_valid(opts_entries(item.attrs@), impl_schema(), impl_conflicts())
    &&& impl_items_ok(item.items@)
}

impl Method {
    pub open spec fn wf(self) -> bool {
        all_other(self.attrs@)
    }

    /// `self` is what `f` resolves to.
    pub open spec fn resolved_from(self, f: ItemFn) -> bool {
        let e = opts_entries(f.attrs@);
        &&& self.attrs@ == other_attrs(f.attrs@)
        &&& self.vis@ == (if flag_of(slot_value(e, "pub_"@)) {
            "pub"@
        } else {
            Seq::empty()
        })
        &&& self.sig == f.sig
        &&& self.body == f.body
        &&& self.constructor == flag_of(slot_value(e, "constructor"@))
        &&& self.final_ == flag_of(slot_value(e, "final_"@))
        &&& self.structural == flag_of(slot_value(e, "structural"@))
        &&& self.js_name == lit_of(slot_value(e, "js_name"@))
        &&& self.getter == flag_of(slot_value(e, "getter"@))
        &&& self.setter == flag_of(slot_value(e, "setter"@))
        &&& self.indexing_getter == flag_of(slot_value(e, "indexing_getter"@))
        &&& self.indexing_setter == flag_of(slot_value(e, "indexing_setter"@))
        &&& self.indexing_deleter == flag_of(slot_value(e, "indexing_deleter"@))
        &&& self.variadic == flag_of(slot_value(e, "variadic"@))
    }

    pub fn try_from(f: ItemFn) -> (r: Result<Method, ModelError>)
        ensures
            r is Ok <==> method_item_ok(f),
            r matches Ok(m) ==> m.resolved_from(f) && m.wf(),
            r matches Err(e) ==> method_error(e, f),
    {
        let ItemFn { attrs, sig, body } = f;
        let mut attrs = attrs;
        let opts = match MethodAttributes::remove_attributes(&mut attrs) {
            Ok(opts) => opts,
            Err(e) => return Err(e),
        };
        if sig.has_generics || sig.is_const || sig.has_abi || sig.is_unsafe {
            return Err(ModelError::UnsupportedSignature(copy_string(&sig.ident)));
        }
        proof {
            lemma_other_attrs_plain(f.attrs@);
        }
        let vis = if opts.pub_ {
            String::from_str("pub")
        } else {
            String::new()
        };
        Ok(
            Method {
                attrs,
                vis,
                sig,
                body,
                constructor: opts.constructor,
                final_: opts.final_,
                structural: opts.structural,
                js_name: opts.js_name,
                getter: opts.getter,
                setter: opts.setter,
                indexing_getter: opts.indexing_getter,
                indexing_setter: opts.indexing_setter,
                indexing_deleter: opts.indexing_deleter,
                variadic: opts.variadic,
            },
        )
    }

    /// Takes in the methods of a method collection, in order; any item
    /// that is not a method fails the whole collection first.
    pub fn try_from_impl(items: Vec<ImplItem>) -> (r: Result<Vec<Method>, ModelError>)
        ensures
            r is Ok <==> impl_items_ok(items@),
            r matches Err(e) ==> items_error(e, items@),
            r matches Ok(v) ==> v@.len() == items@.len() && forall|i: int|
                0 <= i < v@.len() ==> (#[trigger] v@[i]).wf() && (items@[i] matches ImplItem::Fn(f)
                    && v@[i].resolved_from(f)),
    {
        let ghost all = items@;
        let n = items.len();
        let mut k: usize = 0;
        while k < n
            invariant
                all == items@,
                n == all.len(),
                k <= n,
                forall|j: int| 0 <= j < k ==> (#[trigger] all[j]) is Fn,
            decreases n - k,
        {
            if let ImplItem::Other(_) = &items[k] {
                assert(all[k as int] is Other);
                return Err(ModelError::NotAMethod);
            }
            k = k + 1;
        }
        let mut rest = items;
        let mut out: Vec<Method> = Vec::new();
        let mut i: usize = 0;
        while i < n
            invariant
                all == items@,
                n == all.len(),
                i <= n,
                forall|j: int| 0 <= j < n ==> (#[trigger] all[j]) is Fn,
                rest@ == all.subrange(i as int, n as int),
                out@.len() == i,
                forall|j: int|
                    0 <= j < i ==> ((#[trigger] all[j]) matches ImplItem::Fn(f) && method_item_ok(f)),
                forall|j: int|
                    0 <= j < i ==> (#[trigger] out@[j]).wf() && (all[j] matches ImplItem::Fn(f)
                        && out@[j].resolved_from(f)),
            decreases n - i,
        {
            let item = rest.remove(0);
            assert(item == all[i as int]);
            match item {
                ImplItem::Fn(f) => match Method::try_from(f) {
                    Ok(m) => out.push(m),
                    Err(e) => {
                        assert(method_error(e, all[i as int]->Fn_0));
                        return Err(e);
                    },
                },
                ImplItem::Other(_) => return Err(ModelError::NotAMethod),
            }
            i = i + 1;
        }
        Ok(out)
    }

    pub fn is_static(&self) -> (r: bool)
        ensures
            r == (self.sig.receiver is None),
    {
        self.sig.receiver.is_none()
    }
}

/// The boundary-side return type: the first argument of the value-mapping
/// wrapper, else the declared return type.
pub open spec fn boundary_ty(split: Option<(TyV, TyV)>, declared: Option<TyV>) -> Option<TyV> {
    match split {
        Some((b, _)) => Some(b),
        None => declared,
    }
}

/// The native-side return type: the second argument of the value-mapping
/// wrapper, else the declared return type.
pub open spec fn native_ty(split: Option<(TyV, TyV)>, declared: Option<TyV>) -> Option<TyV> {
    match split {
        Some((_, n)) => Some(n),
        None => declared,
    }
}

pub open spec fn opt_marker(cond: bool, m: MarkerV) -> Seq<MarkerV> {
    if cond {
        seq![m]
    } else {
        seq![]
    }
}

/// The leading markers of a method's boundary declaration: static-or-method,
/// external class name, external name, namespace list.
pub open spec fn method_head_markers(m: Method, ty: TyV, o: ImplAttributes) -> Seq<MarkerV> {
    (if m.sig.receiver is None {
        seq![MarkerV::StaticMethodOf(ty)]
    } else {
        seq![MarkerV::Method]
    }) + (if o.js_name is Some {
        seq![MarkerV::JsClass(o.js_name->0@)]
    } else {
        seq![]
    }) + seq![MarkerV::JsName(js_name_view(m.js_name, m.sig.ident@))] + (if o.js_namespace@.len()
        > 0 {
        seq![MarkerV::JsNamespace(lits_view(o.js_namespace@))]
    } else {
        seq![]
    })
}

/// The markers of a method's boundary declaration, in emission order: the
/// leading ones, then catch, constructor, finality, getter, setter, indexing
/// getter, indexing setter, indexing deleter, variadic.
pub open spec fn method_markers(
    m: Method,
    ty: TyV,
    o: ImplAttributes,
    split: Option<(TyV, TyV)>,
) -> Seq<MarkerV> {
    method_head_markers(m, ty, o) + opt_marker(
        returns_result(boundary_ty(split, opt_ty_view(m.sig.output))),
        MarkerV::Catch,
    ) + opt_marker(m.constructor, MarkerV::Constructor) + opt_marker(
        is_final(o.final_, m.final_, m.structural),
        MarkerV::Final,
    ) + opt_marker(m.getter, MarkerV::Getter) + opt_marker(m.setter, MarkerV::Setter) + opt_marker(
        m.indexing_getter,
        MarkerV::IndexingGetter,
    ) + opt_marker(m.indexing_setter, MarkerV::IndexingSetter) + opt_marker(
        m.indexing_deleter,
        MarkerV::IndexingDeleter,
    ) + opt_marker(m.variadic, MarkerV::Variadic)
}

/// The boundary declaration of a method: named with a trailing `_js`, the
/// receiver replaced by `this` of the owning type, the boundary return type
/// with the placeholder for the enclosing type replaced.
pub open spec fn binding_view(
    m: Method,
    ty: TyV,
    o: ImplAttributes,
    split: Option<(TyV, TyV)>,
) -> ExternFnV {
    let boundary = boundary_ty(split, opt_ty_view(m.sig.output));
    ExternFnV {
        markers: method_markers(m, ty, o, split),
        vis: Seq::empty(),
        is_async: m.sig.is_async,
        name: m.sig.ident@ + "_js"@,
        this: match m.sig.receiver {
            Some(r) => Some((r.reference, ty)),
            None => None,
        },
        inputs: args_view(m.sig.inputs@),
        output: if returns_self(boundary) {
            Some(ty)
        } else {
            boundary
        },
    }
}

pub open spec fn split_view(split: Option<(Ty, Ty)>) -> Option<(TyV, TyV)> {
    match split {
        Some((b, n)) => Some((b@, n@)),
        None => None,
    }
}

/// Every parameter is bound by a plain name.
pub open spec fn all_ident(inputs: Seq<FnArg>) -> bool {
    forall|i: int| 0 <= i < inputs.len() ==> (#[trigger] inputs[i]).pat is Ident
}

/// `out` is `s` with its return type replaced by `output`.
pub open spec fn sig_with_output(out: Signature, s: Signature, output: Option<TyV>) -> bool {
    &&& out.is_async == s.is_async
    &&& out.is_const == s.is_const
    &&& out.is_unsafe == s.is_unsafe
    &&& out.has_abi == s.has_abi
    &&& out.has_generics == s.has_generics
    &&& out.ident == s.ident
    &&& out.receiver == s.receiver
    &&& args_view(out.inputs@) == args_view(s.inputs@)
    &&& opt_ty_view(out.output) == output
}

/// The body of a generated method: the written one, or a call of the
/// boundary declaration through the receiver (or through the type, for a
/// static method) forwarding every parameter by name, awaited when the
/// method is asynchronous.
pub open spec fn body_ok(b: MethodBody, m: Method) -> bool {
    match m.body {
        Some(text) => b == MethodBody::Verbatim(text),
        None => b matches MethodBody::Forward(c) && c.via_self == (m.sig.receiver is Some) && c.name@
            == m.sig.ident@ + "_js"@ && c.awaits == m.sig.is_async && c.args@.len()
            == m.sig.inputs@.len() && forall|i: int|
            0 <= i < c.args@.len() ==> m.sig.inputs@[i].pat == Pat::Ident(#[trigger] c.args@[i]),
    }
}

/// A method can be generated: the value-mapping wrapper, if used, is well
/// formed, and a body to synthesize can name every parameter.
pub open spec fn method_emits(m: Method) -> bool {
    &&& map_value_split(opt_ty_view(m.sig.output)) is Ok
    &&& (m.body is None ==> all_ident(m.sig.inputs@))
}

/// What a method turns into.
pub open spec fn method_decl_ok(d: MethodDecl, m: Method, ty: TyV, o: ImplAttributes) -> bool {
    let split = map_value_split(opt_ty_view(m.sig.output))->Ok_0;
    &&& d.attrs@ == m.attrs@
    &&& d.vis == m.vis
    &&& sig_with_output(d.sig, m.sig, native_ty(split, opt_ty_view(m.sig.output)))
    &&& d.module == module_of(o.module, o.raw_module)
    &&& d.binding@ == binding_view(m, ty, o, split)
    &&& body_ok(d.body, m)
}

fn opt_push(m: &mut Vec<Marker>, cond: bool, marker: Marker)
    ensures
        markers_view(final(m)@) == markers_view(old(m)@) + opt_marker(cond, marker@),
{
    let ghost before = m@;
    if cond {
        m.push(marker);
        assert(markers_view(m@) =~= markers_view(before) + seq![marker@]);
    } else {
        assert(markers_view(m@) =~= markers_view(before) + seq![]);
    }
}

impl Method {
    fn head_markers(&self, ty: &Ty, options: &ImplAttributes) -> (r: Vec<Marker>)
        ensures
            markers_view(r@) == method_head_markers(*self, ty@, *options),
    {
        let ghost me = *self;
        let ghost o = *options;
        let mut m: Vec<Marker> = Vec::new();
        if self.is_static() {
            m.push(Marker::StaticMethodOf(copy_ty(ty)));
        } else {
            m.push(Marker::Method);
        }
        let ghost p1: Seq<MarkerV> = if me.sig.receiver is None {
            seq![MarkerV::StaticMethodOf(ty@)]
        } else {
            seq![MarkerV::Method]
        };
        assert(markers_view(m@) =~= p1);
        if let Some(js_class) = &options.js_name {
            m.push(Marker::JsClass(copy_lit(js_class)));
        }
        let ghost p2: Seq<MarkerV> = p1 + (if o.js_name is Some {
            seq![MarkerV::JsClass(o.js_name->0@)]
        } else {
            seq![]
        });
        assert(markers_view(m@) =~= p2);
        let js_name = match &self.js_name {
            Some(l) => copy_lit(l),
            None => Lit::Str(self.sig.ident.to_camel_from_snake()),
        };
        m.push(Marker::JsName(js_name));
        let ghost p3: Seq<MarkerV> = p2 + seq![MarkerV::JsName(js_name_view(me.js_name, me.sig.ident@))];
        assert(markers_view(m@) =~= p3);
        if options.js_namespace.len() > 0 {
            m.push(Marker::JsNamespace(copy_lits(&options.js_namespace)));
        }
        assert(markers_view(m@) =~= method_head_markers(me, ty@, o));
        m
    }

    fn markers(
        &self,
        ty: &Ty,
        options: &ImplAttributes,
        catch: bool,
        split: Ghost<Option<(TyV, TyV)>>,
    ) -> (r: Vec<Marker>)
        requires
            catch == returns_result(boundary_ty(split@, opt_ty_view(self.sig.output))),
        ensures
            markers_view(r@) == method_markers(*self, ty@, *options, split@),
    {
        let mut m = self.head_markers(ty, options);
        opt_push(&mut m, catch, Marker::Catch);
        opt_push(&mut m, self.constructor, Marker::Constructor);
        opt_push(
            &mut m,
            resolve_finality(options.final_, self.final_, self.structural),
            Marker::Final,
        );
        opt_push(&mut m, self.getter, Marker::Getter);
        opt_push(&mut m, self.setter, Marker::Setter);
        opt_push(&mut m, self.indexing_getter, Marker::IndexingGetter);
        opt_push(&mut m, self.indexing_setter, Marker::IndexingSetter);
        opt_push(&mut m, self.indexing_deleter, Marker::IndexingDeleter);
        opt_push(&mut m, self.variadic, Marker::Variadic);
        m
    }

    /// The boundary-side return type.
    pub fn inner_return_ty(&self) -> (r: Result<Option<Ty>, ModelError>)
        ensures
            match (r, map_value_split(opt_ty_view(self.sig.output))) {
                (Ok(t), Ok(split)) => opt_ty_view(t) == boundary_ty(split, opt_ty_view(self.sig.output)),
                (Err(e), Err(f)) => e == f,
                _ => false,
            },
    {
        match map_value_types(&self.sig.output) {
            Ok(Some((inner, _))) => Ok(Some(inner)),
            Ok(None) => Ok(copy_opt_ty(&self.sig.output)),
            Err(e) => Err(e),
        }
    }

    /// The native-side return type, which the visible method declares.
    pub fn outer_return_ty(&self) -> (r: Result<Option<Ty>, ModelError>)
        ensures
            match (r, map_value_split(opt_ty_view(self.sig.output))) {
                (Ok(t), Ok(split)) => opt_ty_view(t) == native_ty(split, opt_ty_view(self.sig.output)),
                (Err(e), Err(f)) => e == f,
                _ => false,
            },
    {
        match map_value_types(&self.sig.output) {
            Ok(Some((_, outer))) => Ok(Some(outer)),
            Ok(None) => Ok(copy_opt_ty(&self.sig.output)),
            Err(e) => Err(e),
        }
    }

    /// The body of the generated method.
    pub fn body(&self) -> (r: Result<MethodBody, ModelError>)
        ensures
            r is Ok <==> (self.body is Some || all_ident(self.sig.inputs@)),
            r matches Ok(b) ==> body_ok(b, *self),
            r matches Err(e) ==> e == ModelError::NonIdentParam,
    {
        if let Some(text) = &self.body {
            return Ok(MethodBody::Verbatim(copy_string(text)));
        }
        let inputs = &self.sig.inputs;
        let mut args: Vec<String> = Vec::new();
        let mut i: usize = 0;
        while i < inputs.len()
            invariant
                inputs@ == self.sig.inputs@,
                self.body is None,
                i <= inputs@.len(),
                args@.len() == i,
                forall|k: int| 0 <= k < i ==> inputs@[k].pat == Pat::Ident(#[trigger] args@[k]),
            decreases inputs.len() - i,
        {
            match &inputs[i].pat {
                Pat::Ident(name) => args.push(copy_string(name)),
                Pat::Other(_) => {
                    assert(!(inputs@[i as int].pat is Ident));
                    assert(!all_ident(self.sig.inputs@));
                    return Err(ModelError::NonIdentParam);
                },
            }
            i = i + 1;
        }
        assert(all_ident(inputs@)) by {
            assert forall|k: int| 0 <= k < inputs@.len() implies (#[trigger] inputs@[k]).pat is Ident by {
                assert(inputs@[k].pat == Pat::Ident(args@[k]));
            }
        }
        let mut name = copy_string(&self.sig.ident);
        name.append("_js");
        Ok(
            MethodBody::Forward(
                ForwardCall { via_self: self.sig.receiver.is_some(), name, args, awaits: self.sig.is_async },
            ),
        )
    }

    /// The generated method for this method of a collection on `ty` with
    /// the collection's shared options.
    pub fn to_tokens_with_global(&self, ty: &Ty, options: &ImplAttributes) -> (r: Result<
        MethodDecl,
        ModelError,
    >)
        requires
            self.wf(),
        ensures
            r is Ok <==> method_emits(*self),
            match (r, map_value_split(opt_ty_view(self.sig.output))) {
                (Ok(d), _) => method_decl_ok(d, *self, ty@, *options),
                (Err(e), Err(f)) => e == f,
                (Err(e), Ok(_)) => e == ModelError::NonIdentParam,
            },
    {
        let ghost declared = opt_ty_view(self.sig.output);
        let boundary = match self.inner_return_ty() {
            Ok(t) => t,
            Err(e) => return Err(e),
        };
        let native = match self.outer_return_ty() {
            Ok(t) => t,
            Err(e) => return Err(e),
        };
        let ghost split_v = map_value_split(declared)->Ok_0;
        let catch = is_result_from_return_ty(&boundary);
        let output = if is_self_ty_from_return_ty(&boundary) {
            Some(copy_ty(ty))
        } else {
            boundary
        };
        let body = match self.body() {
            Ok(b) => b,
            Err(e) => return Err(e),
        };
        let mut name = copy_string(&self.sig.ident);
        name.append("_js");
        let this = match &self.sig.receiver {
            Some(r) => Some(ThisParam { by_ref: r.reference, ty: copy_ty(ty) }),
            None => None,
        };
        let binding = ExternFn {
            markers: self.markers(ty, options, catch, Ghost(split_v)),
            vis: String::new(),
            is_async: self.sig.is_async,
            name,
            this,
            inputs: copy_args(&self.sig.inputs),
            output,
        };
        assert(binding@ == binding_view(*self, ty@, *options, split_v));
        let sig = Signature {
            is_async: self.sig.is_async,
            is_const: self.sig.is_const,
            is_unsafe: self.sig.is_unsafe,
            has_abi: self.sig.has_abi,
            has_generics: self.sig.has_generics,
            ident: copy_string(&self.sig.ident),
            receiver: match &self.sig.receiver {
                Some(r) => Some(Receiver { reference: r.reference, text: copy_string(&r.text) }),
                None => None,
            },
            inputs: copy_args(&self.sig.inputs),
            output: native,
        };
        Ok(
            MethodDecl {
                attrs: copy_attrs(&self.attrs),
                vis: copy_string(&self.vis),
                sig,
                module: module_loc(&options.module, &options.raw_module),
                binding,
                body,
            },
        )
    }
}

/// The error a method cannot be generated with: a malformed value-mapping
/// wrapper, else a parameter without a plain name where a body has to be
/// synthesized.
pub open spec fn method_emit_error(e: ModelError, m: Method) -> bool {
    match map_value_split(opt_ty_view(m.sig.output)) {
        Err(f) => e == f,
        Ok(_) => m.body is None && !all_ident(m.sig.inputs@) && e == ModelError::NonIdentParam,
    }
}

/// The error a method collection cannot be generated with: that of its
/// first method that cannot be.
pub open spec fn impl_emit_error(e: ModelError, x: Impl) -> bool {
    exists|k: int|
        0 <= k < x.items@.len() && (forall|j: int|
            0 <= j < k ==> method_emits(#[trigger] x.items@[j])) && method_emit_error(e, x.items@[k])
}

/// Every method of a collection can be generated.
pub open spec fn impl_emits(i: Impl) -> bool {
    forall|k: int| 0 <= k < i.items@.len() ==> method_emits(#[trigger] i.items@[k])
}

/// What a method collection turns into.
pub open spec fn impl_decls_ok(d: ImplDecls, x: Impl) -> bool {
    &&& d.attrs@ == x.attrs@
    &&& d.ty@ == x.ty@
    &&& d.dbg == x.options.dbg
    &&& d.methods@.len() == x.items@.len()
    &&& forall|k: int|
        0 <= k < x.items@.len() ==> method_decl_ok(
            #[trigger] d.methods@[k],
            x.items@[k],
            x.ty@,
            x.options,
        )
}

impl Impl {
    pub open spec fn wf(self) -> bool {
        &&& all_other(self.attrs@)
        &&& forall|k: int| 0 <= k < self.items@.len() ==> (#[trigger] self.items@[k]).wf()
    }

    /// `self` is what `item` resolves to.
    pub open spec fn resolved_from(self, item: ItemImpl) -> bool {
        &&& self.attrs@ == other_attrs(item.attrs@)
        &&& self.ty == item.self_ty
        &&& self.options.resolved_from(opts_entries(item.attrs@))
        &&& self.items@.len() == item.items@.len()
        &&& forall|k: int|
            0 <= k < item.items@.len() ==> (item.items@[k] matches ImplItem::Fn(f)
                && (#[trigger] self.items@[k]).resolved_from(f))
    }

    pub fn try_from(item: ItemImpl) -> (r: Result<Impl, ModelError>)
        ensures
            r is Ok <==> impl_item_ok(item),
            r matches Ok(x) ==> x.wf() && x.resolved_from(item),
            r matches Err(e) ==> impl_error(e, item),
    {
        let ItemImpl { attrs, self_ty, items } = item;
        let mut attrs = attrs;
        let options = match ImplAttributes::remove_attributes(&mut attrs) {
            Ok(o) => o,
            Err(e) => return Err(e),
        };
        proof {
            lemma_other_attrs_plain(item.attrs@);
        }
        let methods = match Method::try_from_impl(items) {
            Ok(v) => v,
            Err(e) => return Err(e),
        };
        Ok(Impl { attrs, ty: self_ty, options, items: methods })
    }

    /// The methods generated for this method collection, in order.
    pub fn to_tokens(&self) -> (r: Result<ImplDecls, ModelError>)
        requires
            self.wf(),
        ensures
            r is Ok <==> impl_emits(*self),
            r matches Ok(d) ==> impl_decls_ok(d, *self),
            r matches Err(e) ==> impl_emit_error(e, *self),
    {
        let mut methods: Vec<MethodDecl> = Vec::new();
        let mut k: usize = 0;
        while k < self.items.len()
            invariant
                self.wf(),
                k <= self.items@.len(),
                methods@.len() == k,
                forall|j: int| 0 <= j < k ==> method_emits(#[trigger] self.items@[j]),
                forall|j: int|
                    0 <= j < k ==> method_decl_ok(
                        #[trigger] methods@[j],
                        self.items@[j],
                        self.ty@,
                        self.options,
                    ),
            decreases self.items.len() - k,
        {
            assert(self.items@[k as int].wf());
            match self.items[k].to_tokens_with_global(&self.ty, &self.options) {
                Ok(d) => methods.push(d),
                Err(e) => {
                    assert(method_emit_error(e, self.items@[k as int]));
                    return Err(e);
                },
            }
            k = k + 1;
        }
        Ok(
            ImplDecls {
                attrs: copy_attrs(&self.attrs),
                ty: copy_ty(&self.ty),
                methods,
                dbg: self.options.dbg,
            },
        )
    }
}

/// An input declaration, classified.
#[derive(Debug, PartialEq, Eq)]
pub enum Model {
    Struct(Struct),
    Impl(Impl),
}

/// What a model turns into: a type declaration always succeeds; a method
/// collection succeeds exactly when every method can be generated.
pub open spec fn model_output_ok(r: Result<Output, ModelError>, m: Model) -> bool {
    match m {
        Model::Struct(s) => (r matches Ok(Output::Struct(d)) && struct_decls_ok(d, s)),
        Model::Impl(x) => {
            &&& (r is Ok <==> impl_emits(x))
            &&& (r is Ok ==> (r matches Ok(Output::Impl(d)) && impl_decls_ok(d, x)))
            &&& (r matches Err(e) ==> impl_emit_error(e, x))
        },
    }
}

impl Model {
    pub open spec fn wf(self) -> bool {
        match self {
            Model::Struct(s) => s.wf(),
            Model::Impl(i) => i.wf(),
        }
    }

    /// `self` is what `input` resolves to.
    pub open spec fn resolved_from(self, input: Item) -> bool {
        match (self, input) {
            (Model::Struct(s), Item::Struct(item)) => s.resolved_from(item),
            (Model::Impl(x), Item::Impl(item)) => x.resolved_from(item),
            _ => false,
        }
    }

    /// Classifies the input declaration and takes it in.
    pub fn parse(input: Item) -> (r: Result<Model, ModelError>)
        ensures
            r is Ok <==> input_ok(input),
            r matches Ok(m) ==> m.wf() && m.resolved_from(input),
            r matches Err(e) ==> input_error(e, input),
    {
        match input {
            Item::Struct(item) => match Struct::try_from(item) {
                Ok(s) => Ok(Model::Struct(s)),
                Err(e) => Err(e),
            },
            Item::Impl(item) => match Impl::try_from(item) {
                Ok(x) => Ok(Model::Impl(x)),
                Err(e) => Err(e),
            },
            Item::Other(_) => Err(ModelError::UnsupportedItem),
        }
    }

    /// The declaration tree of the model.
    pub fn to_tokens(&self) -> (r: Result<Output, ModelError>)
        requires
            self.wf(),
        ensures
            model_output_ok(r, *self),
    {
        match self {
            Model::Struct(s) => Ok(Output::Struct(s.to_tokens())),
            Model::Impl(i) => match i.to_tokens() {
                Ok(d) => Ok(Output::Impl(d)),
                Err(e) => Err(e),
            },
        }
    }
}

/// An input declaration can be taken in.
pub open spec fn input_ok(input: Item) -> bool {
    match input {
        Item::Struct(s) => struct_item_ok(s),
        Item::Impl(i) => impl_item_ok(i),
        Item::Other(_) => false,
    }
}

/// The error an input declaration is rejected with.
pub open spec fn input_error(e: ModelError, input: Item) -> bool {
    match input {
        Item::Struct(s) => struct_error(e, s),
        Item::Impl(i) => impl_error(e, i),
        Item::Other(_) => e == ModelError::UnsupportedItem,
    }
}

/// Transforms one input declaration into its declaration tree.
pub fn wasm_bindgen_struct(input: Item) -> (r: Result<Output, ModelError>)
    ensures
        !input_ok(input) ==> (r matches Err(e) && input_error(e, input)),
        input_ok(input) ==> exists|m: Model|
            m.wf() && #[trigger] m.resolved_from(input) && model_output_ok(r, m),
{
    let model = match Model::parse(input) {
        Ok(m) => m,
        Err(e) => return Err(e),
    };
    model.to_tokens()
}

} // verus!
