use wasm_bindgen_struct::{
    apply_getter_rules, camel_case, is_result, is_self_ty, resolve_finality, GenericArgument,
    GetterKind, IdentExt, PathArguments, PathSegment, Ty, TyPath,
};

fn ident_ty(name: &str) -> Ty {
    Ty::Path(TyPath {
        leading_colon: false,
        segments: vec![PathSegment { ident: name.to_string(), arguments: PathArguments::Plain }],
    })
}

#[test]
fn simple() {
    assert_eq!("a_little_test".to_string().to_camel_from_snake(), "aLittleTest");
}

#[test]
fn multiple_underscores() {
    assert_eq!("a__little_test".to_string().to_camel_from_snake(), "aLittleTest");
}

#[test]
fn with_numbers() {
    assert_eq!("a_2_little_test".to_string().to_camel_from_snake(), "a2LittleTest");
}

#[test]
fn with_numbers_as_start() {
    assert_eq!("a_2little_test".to_string().to_camel_from_snake(), "a2littleTest");
}

#[test]
fn camel_case_leaves_plain_names() {
    assert_eq!(camel_case("aLittleTest"), "aLittleTest");
    assert_eq!(camel_case(&camel_case("aLittleTest")), "aLittleTest");
    assert_eq!(camel_case(""), "");
}

#[test]
fn camel_case_edges() {
    assert_eq!(camel_case("_leading"), "Leading");
    assert_eq!(camel_case("trailing_"), "trailing");
    assert_eq!(camel_case("___"), "");
}

#[test]
fn camel_case_uppercases_beyond_ascii() {
    assert_eq!(camel_case("a_\u{e9}t\u{e9}"), "a\u{c9}t\u{e9}");
    assert_eq!(camel_case("x_\u{df}"), "xSS");
}

#[test]
fn accessor_rules_table() {
    assert_eq!(apply_getter_rules(GetterKind::Neither, GetterKind::Neither), GetterKind::Both);
    assert_eq!(apply_getter_rules(GetterKind::Neither, GetterKind::Getter), GetterKind::Getter);
    assert_eq!(apply_getter_rules(GetterKind::Setter, GetterKind::Getter), GetterKind::Both);
    assert_eq!(apply_getter_rules(GetterKind::Getter, GetterKind::Neither), GetterKind::Getter);
}

#[test]
fn accessor_local_cannot_remove() {
    assert_eq!(apply_getter_rules(GetterKind::Both, GetterKind::Getter), GetterKind::Both);
    assert_eq!(apply_getter_rules(GetterKind::Setter, GetterKind::Neither), GetterKind::Setter);
}

#[test]
fn getter_kind_new_and_merge() {
    assert_eq!(GetterKind::new(false, false), GetterKind::Neither);
    assert_eq!(GetterKind::new(true, false), GetterKind::Getter);
    assert_eq!(GetterKind::new(false, true), GetterKind::Setter);
    assert_eq!(GetterKind::new(true, true), GetterKind::Both);
    assert_eq!(GetterKind::Getter.merge(GetterKind::Setter), GetterKind::Both);
    assert!(GetterKind::Both.is_getter() && GetterKind::Both.is_setter());
    assert!(GetterKind::Neither.is_none());
}

#[test]
fn finality_rules() {
    assert!(!resolve_finality(true, true, true));
    assert!(resolve_finality(true, false, false));
    assert!(resolve_finality(false, true, false));
    assert!(!resolve_finality(false, false, false));
}

#[test]
fn type_classification() {
    assert!(is_self_ty(&ident_ty("Self")));
    assert!(!is_self_ty(&ident_ty("JsType")));
    let result = Ty::Path(TyPath {
        leading_colon: false,
        segments: vec![PathSegment {
            ident: "Result".to_string(),
            arguments: PathArguments::Angle(vec![GenericArgument::Type(ident_ty("u8"))]),
        }],
    });
    assert!(is_result(&result));
    assert!(!is_result(&ident_ty("Option")));
    assert!(!is_result(&Ty::Verbatim("&Result<u8, u8>".to_string())));
}
