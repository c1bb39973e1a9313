use wasm_bindgen_struct::{
    wasm_bindgen_struct, Attr, ExternFn, ExternType, FieldDecls, FnArg, ItemField, ItemStruct,
    Item, Lit, Marker, ModelError, OptEntry, OptValue, Output, Pat, PathArguments, PathSegment,
    StructDecls, ThisParam, Ty, TyPath,
};

fn ident_ty(name: &str) -> Ty {
    Ty::Path(TyPath {
        leading_colon: false,
        segments: vec![PathSegment { ident: name.to_string(), arguments: PathArguments::Plain }],
    })
}

fn str_lit(s: &str) -> Lit {
    Lit::Str(s.to_string())
}

fn flag(key: &str) -> OptEntry {
    OptEntry { key: key.to_string(), value: OptValue::Bare }
}

fn entry(key: &str, value: OptValue) -> OptEntry {
    OptEntry { key: key.to_string(), value }
}

fn opts(entries: Vec<OptEntry>) -> Attr {
    Attr::Opts(entries)
}

fn field(attrs: Vec<Attr>, name: &str, ty: Ty) -> ItemField {
    ItemField { attrs, vis: String::new(), ident: Some(name.to_string()), ty }
}

fn item(attrs: Vec<Attr>, name: &str, fields: Vec<ItemField>) -> Item {
    Item::Struct(ItemStruct { attrs, vis: String::new(), ident: name.to_string(), fields })
}

fn extern_type(js_name: Option<Lit>, extends: Option<Ty>, name: &str) -> ExternType {
    ExternType { js_name, extends, attrs: vec![], vis: String::new(), name: name.to_string() }
}

fn getter(markers: Vec<Marker>, name: &str, owner: &str, ty: Ty) -> ExternFn {
    ExternFn {
        markers,
        vis: String::new(),
        is_async: false,
        name: name.to_string(),
        this: Some(ThisParam { by_ref: true, ty: ident_ty(owner) }),
        inputs: vec![],
        output: Some(ty),
    }
}

fn setter(markers: Vec<Marker>, name: &str, owner: &str, ty: Ty) -> ExternFn {
    ExternFn {
        markers,
        vis: String::new(),
        is_async: false,
        name: name.to_string(),
        this: Some(ThisParam { by_ref: true, ty: ident_ty(owner) }),
        inputs: vec![FnArg { pat: Pat::Ident("value".to_string()), ty }],
        output: None,
    }
}

fn accessors(getter: Option<ExternFn>, setter: Option<ExternFn>) -> FieldDecls {
    FieldDecls { attrs: vec![], getter, setter }
}

fn decls(extern_type: Option<ExternType>, fields: Vec<FieldDecls>) -> Output {
    Output::Struct(StructDecls { module: None, extern_type, fields, dbg: false })
}

fn js_name(s: &str) -> Marker {
    Marker::JsName(str_lit(s))
}

#[test]
fn simple_struct() {
    let input = item(vec![], "JsType", vec![field(vec![], "my_prop_1", ident_ty("String"))]);
    let expected = decls(
        Some(extern_type(None, None, "JsType")),
        vec![accessors(
            Some(getter(
                vec![Marker::MethodGetter, js_name("myProp1")],
                "my_prop_1",
                "JsType",
                ident_ty("String"),
            )),
            Some(setter(
                vec![Marker::MethodSetter, js_name("myProp1")],
                "set_my_prop_1",
                "JsType",
                ident_ty("String"),
            )),
        )],
    );
    assert_eq!(wasm_bindgen_struct(input), Ok(expected));
}

#[test]
fn struct_with_field_rename() {
    let input = item(
        vec![],
        "JsType",
        vec![field(
            vec![opts(vec![entry("js_name", OptValue::Lit(str_lit("prop")))])],
            "my_prop_1",
            ident_ty("String"),
        )],
    );
    let expected = decls(
        Some(extern_type(None, None, "JsType")),
        vec![accessors(
            Some(getter(
                vec![Marker::MethodGetter, js_name("prop")],
                "my_prop_1",
                "JsType",
                ident_ty("String"),
            )),
            Some(setter(
                vec![Marker::MethodSetter, js_name("prop")],
                "set_my_prop_1",
                "JsType",
                ident_ty("String"),
            )),
        )],
    );
    assert_eq!(wasm_bindgen_struct(input), Ok(expected));
}

#[test]
fn struct_on_other_type() {
    let input = item(
        vec![opts(vec![entry("on", OptValue::Ty(ident_ty("SomeType")))])],
        "JsType",
        vec![field(vec![], "my_prop_1", ident_ty("String"))],
    );
    let expected = decls(
        None,
        vec![accessors(
            Some(getter(
                vec![Marker::MethodGetter, js_name("myProp1")],
                "my_prop_1",
                "SomeType",
                ident_ty("String"),
            )),
            Some(setter(
                vec![Marker::MethodSetter, js_name("myProp1")],
                "set_my_prop_1",
                "SomeType",
                ident_ty("String"),
            )),
        )],
    );
    assert_eq!(wasm_bindgen_struct(input), Ok(expected));
}

#[test]
fn struct_final_and_structural() {
    let input = item(
        vec![opts(vec![flag("final_")])],
        "JsType",
        vec![
            field(vec![], "my_prop_1", ident_ty("String")),
            field(vec![opts(vec![flag("structural")])], "prop", ident_ty("String")),
        ],
    );
    let expected = decls(
        Some(extern_type(None, None, "JsType")),
        vec![
            accessors(
                Some(getter(
                    vec![Marker::MethodGetter, js_name("myProp1"), Marker::Final],
                    "my_prop_1",
                    "JsType",
                    ident_ty("String"),
                )),
                Some(setter(
                    vec![Marker::MethodSetter, js_name("myProp1"), Marker::Final],
                    "set_my_prop_1",
                    "JsType",
                    ident_ty("String"),
                )),
            ),
            accessors(
                Some(getter(
                    vec![Marker::MethodGetter, js_name("prop")],
                    "prop",
                    "JsType",
                    ident_ty("String"),
                )),
                Some(setter(
                    vec![Marker::MethodSetter, js_name("prop")],
                    "set_prop",
                    "JsType",
                    ident_ty("String"),
                )),
            ),
        ],
    );
    assert_eq!(wasm_bindgen_struct(input), Ok(expected));
}

#[test]
fn struct_only_get_set() {
    let input = item(
        vec![],
        "JsType",
        vec![
            field(vec![opts(vec![flag("getter")])], "my_prop_1", ident_ty("String")),
            field(vec![opts(vec![flag("setter")])], "prop", ident_ty("String")),
        ],
    );
    let expected = decls(
        Some(extern_type(None, None, "JsType")),
        vec![
            accessors(
                Some(getter(
                    vec![Marker::MethodGetter, js_name("myProp1")],
                    "my_prop_1",
                    "JsType",
                    ident_ty("String"),
                )),
                None,
            ),
            accessors(
                None,
                Some(setter(
                    vec![Marker::MethodSetter, js_name("prop")],
                    "set_prop",
                    "JsType",
                    ident_ty("String"),
                )),
            ),
        ],
    );
    assert_eq!(wasm_bindgen_struct(input), Ok(expected));
}

#[test]
fn struct_global_setter_with_local_getter() {
    let input = item(
        vec![opts(vec![flag("setter")])],
        "JsType",
        vec![
            field(vec![opts(vec![flag("getter")])], "my_prop_1", ident_ty("String")),
            field(vec![], "prop", ident_ty("String")),
        ],
    );
    let expected = decls(
        Some(extern_type(None, None, "JsType")),
        vec![
            accessors(
                Some(getter(
                    vec![Marker::MethodGetter, js_name("myProp1")],
                    "my_prop_1",
                    "JsType",
                    ident_ty("String"),
                )),
                Some(setter(
                    vec![Marker::MethodSetter, js_name("myProp1")],
                    "set_my_prop_1",
                    "JsType",
                    ident_ty("String"),
                )),
            ),
            accessors(
                None,
                Some(setter(
                    vec![Marker::MethodSetter, js_name("prop")],
                    "set_prop",
                    "JsType",
                    ident_ty("String"),
                )),
            ),
        ],
    );
    assert_eq!(wasm_bindgen_struct(input), Ok(expected));
}

// The class marker on accessors is emitted only for a declaration that
// redirects its accessors with `on`; a declaration of its own type names the
// class on the extern type alone.
#[test]
fn struct_js_class() {
    let input = item(
        vec![opts(vec![entry("js_name", OptValue::Lit(str_lit("String")))])],
        "JsString",
        vec![field(vec![], "prop", ident_ty("String"))],
    );
    let expected = decls(
        Some(extern_type(Some(str_lit("String")), None, "JsString")),
        vec![accessors(
            Some(getter(
                vec![Marker::MethodGetter, js_name("prop")],
                "prop",
                "JsString",
                ident_ty("String"),
            )),
            Some(setter(
                vec![Marker::MethodSetter, js_name("prop")],
                "set_prop",
                "JsString",
                ident_ty("String"),
            )),
        )],
    );
    assert_eq!(wasm_bindgen_struct(input), Ok(expected));
}

#[test]
fn struct_js_class_on_other_type() {
    let input = item(
        vec![opts(vec![
            entry("js_name", OptValue::Lit(str_lit("String"))),
            entry("on", OptValue::Ty(ident_ty("JsString"))),
        ])],
        "Ext",
        vec![field(vec![], "prop", ident_ty("String"))],
    );
    let expected = decls(
        None,
        vec![accessors(
            Some(getter(
                vec![Marker::MethodGetter, Marker::JsClass(str_lit("String")), js_name("prop")],
                "prop",
                "JsString",
                ident_ty("String"),
            )),
            Some(setter(
                vec![Marker::MethodSetter, Marker::JsClass(str_lit("String")), js_name("prop")],
                "set_prop",
                "JsString",
                ident_ty("String"),
            )),
        )],
    );
    assert_eq!(wasm_bindgen_struct(input), Ok(expected));
}

#[test]
fn struct_extends() {
    let input = item(
        vec![
            opts(vec![entry("js_name", OptValue::Lit(str_lit("String")))]),
            opts(vec![entry("extends", OptValue::Ty(ident_ty("Object")))]),
        ],
        "JsString",
        vec![],
    );
    let expected = decls(
        Some(extern_type(Some(str_lit("String")), Some(ident_ty("Object")), "JsString")),
        vec![],
    );
    assert_eq!(wasm_bindgen_struct(input), Ok(expected));
}

#[test]
fn struct_can_use_self_ty() {
    let input = item(vec![], "JsType", vec![field(vec![], "a", ident_ty("Self"))]);
    let expected = decls(
        Some(extern_type(None, None, "JsType")),
        vec![accessors(
            Some(getter(vec![Marker::MethodGetter, js_name("a")], "a", "JsType", ident_ty("JsType"))),
            Some(setter(
                vec![Marker::MethodSetter, js_name("a")],
                "set_a",
                "JsType",
                ident_ty("JsType"),
            )),
        )],
    );
    assert_eq!(wasm_bindgen_struct(input), Ok(expected));
}

#[test]
fn struct_namespace_and_module() {
    let input = item(
        vec![opts(vec![
            entry("js_namespace", OptValue::List(vec![str_lit("a"), str_lit("b")])),
            entry("raw_module", OptValue::Lit(str_lit("./m.js"))),
        ])],
        "JsType",
        vec![field(vec![opts(vec![flag("getter")])], "x", ident_ty("u32"))],
    );
    let expected = Output::Struct(StructDecls {
        module: Some(wasm_bindgen_struct::ModuleLoc::RawModule(str_lit("./m.js"))),
        extern_type: Some(extern_type(None, None, "JsType")),
        fields: vec![accessors(
            Some(getter(
                vec![
                    Marker::MethodGetter,
                    js_name("x"),
                    Marker::JsNamespace(vec![str_lit("a"), str_lit("b")]),
                ],
                "x",
                "JsType",
                ident_ty("u32"),
            )),
            None,
        )],
        dbg: false,
    });
    assert_eq!(wasm_bindgen_struct(input), Ok(expected));
}

#[test]
fn struct_rejects_tuple_field() {
    let input = Item::Struct(ItemStruct {
        attrs: vec![],
        vis: String::new(),
        ident: "JsType".to_string(),
        fields: vec![ItemField { attrs: vec![], vis: String::new(), ident: None, ty: ident_ty("u8") }],
    });
    assert_eq!(wasm_bindgen_struct(input), Err(ModelError::TupleField));
}

#[test]
fn struct_rejects_on_with_extends() {
    let input = item(
        vec![opts(vec![
            entry("on", OptValue::Ty(ident_ty("A"))),
            entry("extends", OptValue::Ty(ident_ty("B"))),
        ])],
        "JsType",
        vec![],
    );
    assert_eq!(
        wasm_bindgen_struct(input),
        Err(ModelError::ConflictingOptions("on".to_string(), "extends".to_string()))
    );
}

#[test]
fn struct_rejects_module_with_raw_module() {
    let input = item(
        vec![
            opts(vec![entry("module", OptValue::Lit(str_lit("a")))]),
            opts(vec![entry("raw_module", OptValue::Lit(str_lit("b")))]),
        ],
        "JsType",
        vec![],
    );
    assert_eq!(
        wasm_bindgen_struct(input),
        Err(ModelError::ConflictingOptions("module".to_string(), "raw_module".to_string()))
    );
}

#[test]
fn struct_rejects_unknown_option() {
    let input = item(vec![opts(vec![flag("variadic")])], "JsType", vec![]);
    assert_eq!(wasm_bindgen_struct(input), Err(ModelError::UnknownOption("variadic".to_string())));
}

#[test]
fn struct_rejects_duplicate_option() {
    let input = item(
        vec![opts(vec![flag("final_")]), opts(vec![flag("final_")])],
        "JsType",
        vec![],
    );
    assert_eq!(wasm_bindgen_struct(input), Err(ModelError::DuplicateOption("final_".to_string())));
}

#[test]
fn struct_rejects_value_on_flag() {
    let input = item(vec![opts(vec![entry("getter", OptValue::Lit(str_lit("x")))])], "JsType", vec![]);
    assert_eq!(wasm_bindgen_struct(input), Err(ModelError::ValueNotAllowed("getter".to_string())));
}

#[test]
fn struct_rejects_missing_value() {
    let input = item(vec![opts(vec![flag("js_name")])], "JsType", vec![]);
    assert_eq!(wasm_bindgen_struct(input), Err(ModelError::ValueExpected("js_name".to_string())));
}

#[test]
fn struct_keeps_other_attributes() {
    let input = item(
        vec![Attr::Other("#[doc = \"x\"]".to_string())],
        "JsType",
        vec![ItemField {
            attrs: vec![Attr::Other("#[allow(dead_code)]".to_string()), opts(vec![flag("getter")])],
            vis: "pub".to_string(),
            ident: Some("x".to_string()),
            ty: ident_ty("u8"),
        }],
    );
    let mut getter_fn = getter(vec![Marker::MethodGetter, js_name("x")], "x", "JsType", ident_ty("u8"));
    getter_fn.vis = "pub".to_string();
    let expected = decls(
        Some(ExternType {
            js_name: None,
            extends: None,
            attrs: vec![Attr::Other("#[doc = \"x\"]".to_string())],
            vis: String::new(),
            name: "JsType".to_string(),
        }),
        vec![FieldDecls {
            attrs: vec![Attr::Other("#[allow(dead_code)]".to_string())],
            getter: Some(getter_fn),
            setter: None,
        }],
    );
    assert_eq!(wasm_bindgen_struct(input), Ok(expected));
}

#[test]
fn unsupported_item_is_rejected() {
    assert_eq!(
        wasm_bindgen_struct(Item::Other("enum E {}".to_string())),
        Err(ModelError::UnsupportedItem)
    );
}
