use vstd::prelude::*;
use crate::options::Attr;

verus! {

broadcast use vstd::std_specs::vec::group_vec_axioms;

/// A literal: a string literal, or any other literal as its source text.
#[derive(Debug, PartialEq, Eq)]
pub enum Lit {
    Str(String),
    Verbatim(String),
}

/// A type expression. Paths are kept as structure because the rewrite
/// rules look into them; every other shape is carried as source text.
///
/// The path types below take the type of nested type arguments as a
/// parameter, which is always `Ty`; written that way, the recursion from a
/// type to the types nested in it is visible to termination checking.
#[derive(Debug, PartialEq, Eq)]
pub enum Ty {
    Path(TyPath<Ty>),
    Verbatim(String),
}

/// A path type such as `a::B<C>`; `leading_colon` is set for `::a::B`.
#[derive(Debug, PartialEq, Eq)]
pub struct TyPath<T> {
    pub leading_colon: bool,
    pub segments: Vec<PathSegment<T>>,
}

#[derive(Debug, PartialEq, Eq)]
pub struct PathSegment<T> {
    pub ident: String,
    pub arguments: PathArguments<T>,
}

/// The arguments of a path segment: none, `<...>`, or `(...) -> ...` kept as
/// source text.
#[derive(Debug, PartialEq, Eq)]
pub enum PathArguments<T> {
    Plain,
    Angle(Vec<GenericArgument<T>>),
    Paren(String),
}

/// An argument between angle brackets: a type, or anything else (a
/// lifetime, a constant, a binding) as source text.
#[derive(Debug, PartialEq, Eq)]
pub enum GenericArgument<T> {
    Type(T),
    Verbatim(String),
}

/// The mathematical value of a type expression.
pub enum TyV {
    Path(bool, Seq<SegmentV>),
    Verbatim(Seq<char>),
}

pub struct SegmentV {
    pub ident: Seq<char>,
    pub arguments: ArgumentsV,
}

pub enum ArgumentsV {
    Plain,
    Angle(Seq<ArgumentV>),
    Paren(Seq<char>),
}

pub enum ArgumentV {
    Type(TyV),
    Verbatim(Seq<char>),
}

pub open spec fn ty_view(t: Ty) -> TyV
    decreases t,
{
    match t {
        Ty::Path(p) => TyV::Path(
            p.leading_colon,
            Seq::new(
                p.segments@.len(),
                |i: int|
                    if 0 <= i < p.segments@.len() {
                        segment_view(p.segments@[i])
                    } else {
                        arbitrary()
                    },
            ),
        ),
        Ty::Verbatim(s) => TyV::Verbatim(s@),
    }
}

pub open spec fn segment_view(s: PathSegment<Ty>) -> SegmentV
    decreases s,
{
    SegmentV {
        ident: s.ident@,
        arguments: match s.arguments {
            PathArguments::Plain => ArgumentsV::Plain,
            PathArguments::Paren(text) => ArgumentsV::Paren(text@),
            PathArguments::Angle(args) => ArgumentsV::Angle(
                Seq::new(
                    args@.len(),
                    |i: int|
                        if 0 <= i < args@.len() {
                            argument_view(args@[i])
                        } else {
                            arbitrary()
                        },
                ),
            ),
        },
    }
}

pub open spec fn argument_view(a: GenericArgument<Ty>) -> ArgumentV
    decreases a,
{
    match a {
        GenericArgument::Type(t) => ArgumentV::Type(ty_view(t)),
        GenericArgument::Verbatim(text) => ArgumentV::Verbatim(text@),
    }
}

impl View for Ty {
    type V = TyV;

    open spec fn view(&self) -> TyV {
        ty_view(*self)
    }
}

impl View for PathSegment<Ty> {
    type V = SegmentV;

    open spec fn view(&self) -> SegmentV {
        segment_view(*self)
    }
}

impl View for GenericArgument<Ty> {
    type V = ArgumentV;

    open spec fn view(&self) -> ArgumentV {
        argument_view(*self)
    }
}

pub fn copy_string(s: &String) -> (r: String)
    ensures
        r == *s,
{
    s.clone()
}

pub fn copy_lit(l: &Lit) -> (r: Lit)
    ensures
        r == *l,
{
    match l {
        Lit::Str(s) => Lit::Str(copy_string(s)),
        Lit::Verbatim(s) => Lit::Verbatim(copy_string(s)),
    }
}

pub fn copy_lits(v: &Vec<Lit>) -> (r: Vec<Lit>)
    ensures
        r@ == v@,
{
    let mut out: Vec<Lit> = Vec::new();
    let mut i: usize = 0;
    while i < v.len()
        invariant
            i <= v.len(),
            out@ == v@.subrange(0, i as int),
        decreases v.len() - i,
    {
        out.push(copy_lit(&v[i]));
        i = i + 1;
        assert(out@ =~= v@.subrange(0, i as int));
    }
    assert(out@ =~= v@);
    out
}

pub fn copy_ty(t: &Ty) -> (r: Ty)
    ensures
        r@ == t@,
    decreases t,
{
    match t {
        Ty::Path(p) => {
            let mut segments: Vec<PathSegment<Ty>> = Vec::new();
            let mut i: usize = 0;
            while i < p.segments.len()
                invariant
                    *t == Ty::Path(*p),
                    i <= p.segments.len(),
                    segments@.len() == i,
                    forall|k: int| 0 <= k < i ==> segments@[k]@ == p.segments@[k]@,
                decreases p.segments.len() - i,
            {
                assert(decreases_to!(*t => (*t)->Path_0));
                assert(decreases_to!(*p => p.segments));
                assert(decreases_to!(p.segments => p.segments[i as int]));
                segments.push(copy_segment(&p.segments[i]));
                i = i + 1;
            }
            let r = Ty::Path(TyPath { leading_colon: p.leading_colon, segments });
            assert(r@ == t@) by {
                if let TyV::Path(_, a) = r@ {
                    if let TyV::Path(_, b) = t@ {
                        assert(a =~= b);
                    }
                }
            }
            r
        },
        Ty::Verbatim(s) => Ty::Verbatim(copy_string(s)),
    }
}

pub fn copy_segment(s: &PathSegment<Ty>) -> (r: PathSegment<Ty>)
    ensures
        r@ == s@,
    decreases s,
{
    let arguments = match &s.arguments {
        PathArguments::Plain => PathArguments::Plain,
        PathArguments::Paren(text) => PathArguments::Paren(copy_string(text)),
        PathArguments::Angle(args) => {
            let mut out: Vec<GenericArgument<Ty>> = Vec::new();
            let mut i: usize = 0;
            while i < args.len()
                invariant
                    s.arguments == PathArguments::Angle(*args),
                    i <= args.len(),
                    out@.len() == i,
                    forall|k: int| 0 <= k < i ==> out@[k]@ == args@[k]@,
                decreases args.len() - i,
            {
                assert(decreases_to!(*s => s.arguments));
                assert(decreases_to!(s.arguments => s.arguments->Angle_0));
                assert(decreases_to!(*args => args[i as int]));
                let a = match &args[i] {
                    GenericArgument::Type(t) => {
                        assert(decreases_to!(args[i as int] => args[i as int]->Type_0));
                        GenericArgument::Type(copy_ty(t))
                    },
                    GenericArgument::Verbatim(text) => GenericArgument::Verbatim(copy_string(text)),
                };
                out.push(a);
                i = i + 1;
            }
            let r = PathArguments::Angle(out);
            r
        },
    };
    let r = PathSegment { ident: copy_string(&s.ident), arguments };
    assert(r@ == s@) by {
        if let PathArguments::Angle(a) = r.arguments {
            if let PathArguments::Angle(b) = s.arguments {
                if let ArgumentsV::Angle(x) = r@.arguments {
                    if let ArgumentsV::Angle(y) = s@.arguments {
                        assert(x =~= y);
                    }
                }
            }
        }
    }
    r
}

pub open spec fn opt_ty_view(t: Option<Ty>) -> Option<TyV> {
    match t {
        Some(t) => Some(t@),
        None => None,
    }
}

pub fn copy_opt_ty(t: &Option<Ty>) -> (r: Option<Ty>)
    ensures
        opt_ty_view(r) == opt_ty_view(*t),
{
    match t {
        Some(t) => Some(copy_ty(t)),
        None => None,
    }
}

/// The mathematical value of a literal.
pub enum LitV {
    Str(Seq<char>),
    Verbatim(Seq<char>),
}

impl View for Lit {
    type V = LitV;

    open spec fn view(&self) -> LitV {
        match self {
            Lit::Str(s) => LitV::Str(s@),
            Lit::Verbatim(s) => LitV::Verbatim(s@),
        }
    }
}

pub open spec fn lits_view(v: Seq<Lit>) -> Seq<LitV> {
    v.map_values(|l: Lit| l@)
}

/// How a parameter is bound: a plain name, or any other pattern as source
/// text.
#[derive(Debug, PartialEq, Eq)]
pub enum Pat {
    Ident(String),
    Other(String),
}

/// A typed parameter of a signature (not the receiver).
#[derive(Debug, PartialEq, Eq)]
pub struct FnArg {
    pub pat: Pat,
    pub ty: Ty,
}

pub enum PatV {
    Ident(Seq<char>),
    Other(Seq<char>),
}

impl View for Pat {
    type V = PatV;

    open spec fn view(&self) -> PatV {
        match self {
            Pat::Ident(s) => PatV::Ident(s@),
            Pat::Other(s) => PatV::Other(s@),
        }
    }
}

pub struct FnArgV {
    pub pat: PatV,
    pub ty: TyV,
}

impl View for FnArg {
    type V = FnArgV;

    open spec fn view(&self) -> FnArgV {
        FnArgV { pat: self.pat@, ty: self.ty@ }
    }
}

pub open spec fn args_view(v: Seq<FnArg>) -> Seq<FnArgV> {
    v.map_values(|a: FnArg| a@)
}

/// The `self` parameter of a method, as written (`&self`, `&mut self`,
/// `self`, `self: Box<Self>`); `reference` is set for the `&` forms.
#[derive(Debug, PartialEq, Eq)]
pub struct Receiver {
    pub reference: bool,
    pub text: String,
}

/// A method signature. The flags for generics, `const`, an explicit
/// calling convention and `unsafe` are there to be rejected.
#[derive(Debug, PartialEq, Eq)]
pub struct Signature {
    pub is_async: bool,
    pub is_const: bool,
    pub is_unsafe: bool,
    pub has_abi: bool,
    pub has_generics: bool,
    pub ident: String,
    pub receiver: Option<Receiver>,
    pub inputs: Vec<FnArg>,
    pub output: Option<Ty>,
}

/// A field of a type declaration as written; `ident` is `None` for a
/// positional field.
#[derive(Debug, PartialEq, Eq)]
pub struct ItemField {
    pub attrs: Vec<Attr>,
    pub vis: String,
    pub ident: Option<String>,
    pub ty: Ty,
}

/// A type declaration as written.
#[derive(Debug, PartialEq, Eq)]
pub struct ItemStruct {
    pub attrs: Vec<Attr>,
    pub vis: String,
    pub ident: String,
    pub fields: Vec<ItemField>,
}

/// A method of a method collection as written, with its body as source
/// text when it has one.
#[derive(Debug, PartialEq, Eq)]
pub struct ItemFn {
    pub attrs: Vec<Attr>,
    pub sig: Signature,
    pub body: Option<String>,
}

/// An item of a method collection: a method, or anything else as source
/// text.
#[derive(Debug, PartialEq, Eq)]
pub enum ImplItem {
    Fn(ItemFn),
    Other(String),
}

/// A method collection as written.
#[derive(Debug, PartialEq, Eq)]
pub struct ItemImpl {
    pub attrs: Vec<Attr>,
    pub self_ty: Ty,
    pub items: Vec<ImplItem>,
}

/// An input declaration.
#[derive(Debug, PartialEq, Eq)]
pub enum Item {
    Struct(ItemStruct),
    Impl(ItemImpl),
    /// Anything else, as source text.
    Other(String),
}

pub fn copy_lit_opt(l: &Option<Lit>) -> (r: Option<Lit>)
    ensures
        r == *l,
{
    match l {
        Some(l) => Some(copy_lit(l)),
        None => None,
    }
}

pub fn copy_pat(p: &Pat) -> (r: Pat)
    ensures
        r == *p,
{
    match p {
        Pat::Ident(s) => Pat::Ident(copy_string(s)),
        Pat::Other(s) => Pat::Other(copy_string(s)),
    }
}

pub fn copy_args(v: &Vec<FnArg>) -> (r: Vec<FnArg>)
    ensures
        args_view(r@) == args_view(v@),
{
    let mut out: Vec<FnArg> = Vec::new();
    let mut i: usize = 0;
    while i < v.len()
        invariant
            i <= v.len(),
            out@.len() == i,
            forall|k: int| 0 <= k < i ==> out@[k]@ == v@[k]@,
        decreases v.len() - i,
    {
        out.push(FnArg { pat: copy_pat(&v[i].pat), ty: copy_ty(&v[i].ty) });
        i = i + 1;
    }
    assert(args_view(out@) =~= args_view(v@));
    out
}

/// Markers other than `opts(...)` are plain source text.
pub open spec fn all_other(attrs: Seq<Attr>) -> bool {
    forall|i: int| 0 <= i < attrs.len() ==> attrs[i] is Other
}

pub fn copy_attrs(v: &Vec<Attr>) -> (r: Vec<Attr>)
    requires
        all_other(v@),
    ensures
        r@ == v@,
{
    let mut out: Vec<Attr> = Vec::new();
    let mut i: usize = 0;
    while i < v.len()
        invariant
            all_other(v@),
            i <= v.len(),
            out@ == v@.subrange(0, i as int),
        decreases v.len() - i,
    {
        match &v[i] {
            Attr::Other(text) => out.push(Attr::Other(copy_string(text))),
            Attr::Opts(_) => {},
        }
        i = i + 1;
        assert(out@ =~= v@.subrange(0, i as int));
    }
    assert(out@ =~= v@);
    out
}

} // verus!
