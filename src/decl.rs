use vstd::prelude::*;
use crate::options::Attr;
use crate::syntax::{lits_view, FnArg, Lit, LitV, Signature, Ty, TyV, FnArgV, args_view};

verus! {

/// A marker on a generated extern declaration.
#[derive(Debug, PartialEq, Eq)]
pub enum Marker {
    /// `method, getter` in one marker.
    MethodGetter,
    /// `method, setter` in one marker.
    MethodSetter,
    Method,
    StaticMethodOf(Ty),
    JsClass(Lit),
    JsName(Lit),
    JsNamespace(Vec<Lit>),
    Catch,
    Constructor,
    Final,
    Getter,
    Setter,
    IndexingGetter,
    IndexingSetter,
    IndexingDeleter,
    Variadic,
}

pub enum MarkerV {
    MethodGetter,
    MethodSetter,
    Method,
    StaticMethodOf(TyV),
    JsClass(LitV),
    JsName(LitV),
    JsNamespace(Seq<LitV>),
    Catch,
    Constructor,
    Final,
    Getter,
    Setter,
    IndexingGetter,
    IndexingSetter,
    IndexingDeleter,
    Variadic,
}

impl View for Marker {
    type V = MarkerV;

    open spec fn view(&self) -> MarkerV {
        match self {
            Marker::MethodGetter => MarkerV::MethodGetter,
            Marker::MethodSetter => MarkerV::MethodSetter,
            Marker::Method => MarkerV::Method,
            Marker::StaticMethodOf(t) => MarkerV::StaticMethodOf(t@),
            Marker::JsClass(l) => MarkerV::JsClass(l@),
            Marker::JsName(l) => MarkerV::JsName(l@),
            Marker::JsNamespace(v) => MarkerV::JsNamespace(lits_view(v@)),
            Marker::Catch => MarkerV::Catch,
            Marker::Constructor => MarkerV::Constructor,
            Marker::Final => MarkerV::Final,
            Marker::Getter => MarkerV::Getter,
            Marker::Setter => MarkerV::Setter,
            Marker::IndexingGetter => MarkerV::IndexingGetter,
            Marker::IndexingSetter => MarkerV::IndexingSetter,
            Marker::IndexingDeleter => MarkerV::IndexingDeleter,
            Marker::Variadic => MarkerV::Variadic,
        }
    }
}

pub open spec fn markers_view(v: Seq<Marker>) -> Seq<MarkerV> {
    v.map_values(|m: Marker| m@)
}

/// The explicit first parameter that stands for the receiver on the
/// boundary side: `this: &Owner` or `this: Owner`.
#[derive(Debug, PartialEq, Eq)]
pub struct ThisParam {
    pub by_ref: bool,
    pub ty: Ty,
}

/// A function declared in a generated extern block, with its markers in
/// emission order.
#[derive(Debug, PartialEq, Eq)]
pub struct ExternFn {
    pub markers: Vec<Marker>,
    pub vis: String,
    pub is_async: bool,
    pub name: String,
    pub this: Option<ThisParam>,
    pub inputs: Vec<FnArg>,
    pub output: Option<Ty>,
}

pub struct ExternFnV {
    pub markers: Seq<MarkerV>,
    pub vis: Seq<char>,
    pub is_async: bool,
    pub name: Seq<char>,
    pub this: Option<(bool, TyV)>,
    pub inputs: Seq<FnArgV>,
    pub output: Option<TyV>,
}

impl View for ExternFn {
    type V = ExternFnV;

    open spec fn view(&self) -> ExternFnV {
        ExternFnV {
            markers: markers_view(self.markers@),
            vis: self.vis@,
            is_async: self.is_async,
            name: self.name@,
            this: match self.this {
                Some(t) => Some((t.by_ref, t.ty@)),
                None => None,
            },
            inputs: args_view(self.inputs@),
            output: match self.output {
                Some(t) => Some(t@),
                None => None,
            },
        }
    }
}

/// Where the generated extern block is imported from.
#[derive(Debug, PartialEq, Eq)]
pub enum ModuleLoc {
    Module(Lit),
    RawModule(Lit),
}

/// The extern type declaration of a type declaration.
#[derive(Debug, PartialEq, Eq)]
pub struct ExternType {
    pub js_name: Option<Lit>,
    pub extends: Option<Ty>,
    pub attrs: Vec<Attr>,
    pub vis: String,
    pub name: String,
}

/// The accessors generated for one field, each preceded by the field's
/// remaining markers.
#[derive(Debug, PartialEq, Eq)]
pub struct FieldDecls {
    pub attrs: Vec<Attr>,
    pub getter: Option<ExternFn>,
    pub setter: Option<ExternFn>,
}

/// What a type declaration turns into: one extern block holding the extern
/// type (unless accessors are redirected to another type) and the fields'
/// accessors in field order.
#[derive(Debug, PartialEq, Eq)]
pub struct StructDecls {
    pub module: Option<ModuleLoc>,
    pub extern_type: Option<ExternType>,
    pub fields: Vec<FieldDecls>,
    pub dbg: bool,
}

/// A call that forwards to the boundary declaration: `self.name(args)` or
/// `Self::name(args)`, followed by `.await` when `awaits` is set.
#[derive(Debug, PartialEq, Eq)]
pub struct ForwardCall {
    pub via_self: bool,
    pub name: String,
    pub args: Vec<String>,
    pub awaits: bool,
}

/// The body of a generated method: the one written in the input, or a
/// synthesized forwarding call.
#[derive(Debug, PartialEq, Eq)]
pub enum MethodBody {
    Verbatim(String),
    Forward(ForwardCall),
}

/// A generated method: the externally visible signature, the extern block
/// nested in its body, and the statements that follow that block.
#[derive(Debug, PartialEq, Eq)]
pub struct MethodDecl {
    pub attrs: Vec<Attr>,
    pub vis: String,
    pub sig: Signature,
    pub module: Option<ModuleLoc>,
    pub binding: ExternFn,
    pub body: MethodBody,
}

/// What a method collection turns into.
#[derive(Debug, PartialEq, Eq)]
pub struct ImplDecls {
    pub attrs: Vec<Attr>,
    pub ty: Ty,
    pub methods: Vec<MethodDecl>,
    pub dbg: bool,
}

/// The declaration tree generated for one input declaration.
#[derive(Debug, PartialEq, Eq)]
pub enum Output {
    Struct(StructDecls),
    Impl(ImplDecls),
}

} // verus!
