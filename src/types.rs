use vstd::prelude::*;
use crate::error::ModelError;
use crate::naming::str_eq;
use crate::syntax::{
    copy_string, copy_ty, opt_ty_view, ArgumentV, ArgumentsV, SegmentV, GenericArgument, PathArguments,
    PathSegment, Ty, TyPath, TyV,
};

verus! {

/// A path of one segment named `name`, without arguments or leading `::`.
pub open spec fn is_plain_path_of(t: TyV, name: Seq<char>) -> bool {
    &&& t is Path
    &&& !t->Path_0
    &&& t->Path_1.len() == 1
    &&& t->Path_1[0].ident == name
    &&& t->Path_1[0].arguments is Plain
}

/// The type named by a single identifier.
pub open spec fn ident_ty_view(name: Seq<char>) -> TyV {
    TyV::Path(false, seq![SegmentV { ident: name, arguments: ArgumentsV::Plain }])
}

/// The placeholder for the enclosing type.
pub open spec fn is_self_view(t: TyV) -> bool {
    is_plain_path_of(t, "Self"@)
}

/// A fallible type: a path whose first segment is `Result`.
pub open spec fn is_result_view(t: TyV) -> bool {
    &&& t is Path
    &&& t->Path_1.len() > 0
    &&& t->Path_1[0].ident == "Result"@
}

/// A return type that is fallible; no return type is not.
pub open spec fn returns_result(t: Option<TyV>) -> bool {
    t is Some && is_result_view(t->0)
}

/// A return type that is the placeholder for the enclosing type.
pub open spec fn returns_self(t: Option<TyV>) -> bool {
    t is Some && is_self_view(t->0)
}

/// The arguments of the value-mapping wrapper, when the type has its shape:
/// a single segment `MapValue<...>`.
pub open spec fn map_value_args(t: TyV) -> Option<Seq<ArgumentV>> {
    if t is Path && t->Path_1.len() == 1 && t->Path_1[0].ident == "MapValue"@
        && t->Path_1[0].arguments is Angle {
        Some(t->Path_1[0].arguments->Angle_0)
    } else {
        None
    }
}

/// The boundary and native types of a return type, as the value-mapping
/// convention splits it: `Ok(Some((boundary, native)))` for
/// `MapValue<boundary, native>`, `Ok(None)` for any other shape, and an
/// error for the wrapper with other arguments than two types.
pub open spec fn map_value_split(t: Option<TyV>) -> Result<Option<(TyV, TyV)>, ModelError> {
    if t is Some && map_value_args(t->0) is Some {
        let args = map_value_args(t->0)->0;
        if args.len() != 2 {
            Err(ModelError::MapValueArity(args.len() as usize))
        } else if args[0] is Type && args[1] is Type {
            Ok(Some((args[0]->Type_0, args[1]->Type_0)))
        } else {
            Err(ModelError::MapValueNonType)
        }
    } else {
        Ok(None)
    }
}

pub fn is_self_ty(ty: &Ty) -> (r: bool)
    ensures
        r == is_self_view(ty@),
{
    match ty {
        Ty::Path(p) => {
            if p.leading_colon || p.segments.len() != 1 {
                return false;
            }
            let seg = &p.segments[0];
            assert(ty@->Path_1[0] == seg@);
            match &seg.arguments {
                PathArguments::Plain => str_eq(seg.ident.as_str(), "Self"),
                _ => false,
            }
        },
        Ty::Verbatim(_) => false,
    }
}

pub fn is_result(ty: &Ty) -> (r: bool)
    ensures
        r == is_result_view(ty@),
{
    match ty {
        Ty::Path(p) => {
            if p.segments.len() == 0 {
                return false;
            }
            assert(ty@->Path_1[0] == p.segments@[0]@);
            str_eq(p.segments[0].ident.as_str(), "Result")
        },
        Ty::Verbatim(_) => false,
    }
}

pub fn is_result_from_return_ty(ty: &Option<Ty>) -> (r: bool)
    ensures
        r == returns_result(opt_ty_view(*ty)),
{
    match ty {
        Some(t) => is_result(t),
        None => false,
    }
}

pub fn is_self_ty_from_return_ty(ty: &Option<Ty>) -> (r: bool)
    ensures
        r == returns_self(opt_ty_view(*ty)),
{
    match ty {
        Some(t) => is_self_ty(t),
        None => false,
    }
}

/// The type named by a single identifier.
pub fn ident_ty(name: &String) -> (r: Ty)
    ensures
        r@ == ident_ty_view(name@),
{
    let mut segments: Vec<PathSegment<Ty>> = Vec::new();
    segments.push(PathSegment { ident: copy_string(name), arguments: PathArguments::Plain });
    let r = Ty::Path(TyPath { leading_colon: false, segments });
    assert(r@->Path_1[0] == segments@[0]@);
    assert(r@->Path_1 =~= seq![SegmentV { ident: name@, arguments: ArgumentsV::Plain }]);
    r
}

/// Splits a return type by the value-mapping convention into copies of
/// its boundary and native types.
pub fn map_value_types(ty: &Option<Ty>) -> (r: Result<Option<(Ty, Ty)>, ModelError>)
    ensures
        match (r, map_value_split(opt_ty_view(*ty))) {
            (Ok(Some((a, b))), Ok(Some((x, y)))) => a@ == x && b@ == y,
            (Ok(None), Ok(None)) => true,
            (Err(e), Err(f)) => e == f,
            _ => false,
        },
{
    let t = match ty {
        Some(t) => t,
        None => return Ok(None),
    };
    let p = match t {
        Ty::Path(p) => p,
        Ty::Verbatim(_) => return Ok(None),
    };
    if p.segments.len() != 1 {
        return Ok(None);
    }
    let seg = &p.segments[0];
    assert(t@->Path_1[0] == seg@);
    if !str_eq(seg.ident.as_str(), "MapValue") {
        return Ok(None);
    }
    let args = match &seg.arguments {
        PathArguments::Angle(args) => args,
        _ => return Ok(None),
    };
    assert(seg@.arguments is Angle && seg@.arguments->Angle_0.len() == args@.len());
    if args.len() != 2 {
        return Err(ModelError::MapValueArity(args.len()));
    }
    match (&args[0], &args[1]) {
        (GenericArgument::Type(a), GenericArgument::Type(b)) => {
            assert(map_value_args(t@)->0[0] == args@[0]@);
            assert(map_value_args(t@)->0[1] == args@[1]@);
            Ok(Some((copy_ty(a), copy_ty(b))))
        },
        _ => {
            assert(map_value_args(t@)->0[0] == args@[0]@);
            assert(map_value_args(t@)->0[1] == args@[1]@);
            Err(ModelError::MapValueNonType)
        },
    }
}

} // verus!
