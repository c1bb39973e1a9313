use wasm_bindgen_struct::{
    wasm_bindgen_struct, Attr, ExternFn, FnArg, ForwardCall, GenericArgument, ImplDecls, ImplItem,
    Item, ItemFn, ItemImpl, Lit, Marker, MethodBody, MethodDecl, ModelError, ModuleLoc, OptEntry,
    OptValue, Output, Pat, PathArguments, PathSegment, Receiver, Signature, ThisParam, Ty, TyPath,
};

fn ident_ty(name: &str) -> Ty {
    Ty::Path(TyPath {
        leading_colon: false,
        segments: vec![PathSegment { ident: name.to_string(), arguments: PathArguments::Plain }],
    })
}

fn generic_ty(name: &str, args: Vec<Ty>) -> Ty {
    Ty::Path(TyPath {
        leading_colon: false,
        segments: vec![PathSegment {
            ident: name.to_string(),
            arguments: PathArguments::Angle(args.into_iter().map(GenericArgument::Type).collect()),
        }],
    })
}

fn str_lit(s: &str) -> Lit {
    Lit::Str(s.to_string())
}

fn ref_self() -> Option<Receiver> {
    Some(Receiver { reference: true, text: "&self".to_string() })
}

fn arg(name: &str, ty: Ty) -> FnArg {
    FnArg { pat: Pat::Ident(name.to_string()), ty }
}

fn sig(
    is_async: bool,
    ident: &str,
    receiver: Option<Receiver>,
    inputs: Vec<FnArg>,
    output: Option<Ty>,
) -> Signature {
    Signature {
        is_async,
        is_const: false,
        is_unsafe: false,
        has_abi: false,
        has_generics: false,
        ident: ident.to_string(),
        receiver,
        inputs,
        output,
    }
}

fn method(attrs: Vec<Attr>, sig: Signature, body: Option<&str>) -> ImplItem {
    ImplItem::Fn(ItemFn { attrs, sig, body: body.map(|b| b.to_string()) })
}

fn item(attrs: Vec<Attr>, items: Vec<ImplItem>) -> Item {
    Item::Impl(ItemImpl { attrs, self_ty: ident_ty("JsType"), items })
}

fn binding(
    markers: Vec<Marker>,
    is_async: bool,
    name: &str,
    this: bool,
    inputs: Vec<FnArg>,
    output: Option<Ty>,
) -> ExternFn {
    ExternFn {
        markers,
        vis: String::new(),
        is_async,
        name: name.to_string(),
        this: if this { Some(ThisParam { by_ref: true, ty: ident_ty("JsType") }) } else { None },
        inputs,
        output,
    }
}

fn forward(via_self: bool, name: &str, args: Vec<&str>, awaits: bool) -> MethodBody {
    MethodBody::Forward(ForwardCall {
        via_self,
        name: name.to_string(),
        args: args.into_iter().map(|a| a.to_string()).collect(),
        awaits,
    })
}

fn decl(sig: Signature, module: Option<ModuleLoc>, binding: ExternFn, body: MethodBody) -> MethodDecl {
    MethodDecl { attrs: vec![], vis: String::new(), sig, module, binding, body }
}

fn decls(methods: Vec<MethodDecl>) -> Output {
    Output::Impl(ImplDecls { attrs: vec![], ty: ident_ty("JsType"), methods, dbg: false })
}

fn js_name(s: &str) -> Marker {
    Marker::JsName(str_lit(s))
}

#[test]
fn simpl_impl() {
    let input = item(vec![], vec![method(vec![], sig(false, "example", ref_self(), vec![], None), None)]);
    let expected = decls(vec![decl(
        sig(false, "example", ref_self(), vec![], None),
        None,
        binding(vec![Marker::Method, js_name("example")], false, "example_js", true, vec![], None),
        forward(true, "example_js", vec![], false),
    )]);
    assert_eq!(wasm_bindgen_struct(input), Ok(expected));
}

#[test]
fn impl_static() {
    let input = item(vec![], vec![method(vec![], sig(false, "example", None, vec![], None), None)]);
    let expected = decls(vec![decl(
        sig(false, "example", None, vec![], None),
        None,
        binding(
            vec![Marker::StaticMethodOf(ident_ty("JsType")), js_name("example")],
            false,
            "example_js",
            false,
            vec![],
            None,
        ),
        forward(false, "example_js", vec![], false),
    )]);
    assert_eq!(wasm_bindgen_struct(input), Ok(expected));
}

#[test]
fn impl_can_map_value() {
    let input = item(
        vec![],
        vec![method(
            vec![],
            sig(
                false,
                "example",
                ref_self(),
                vec![],
                Some(generic_ty("MapValue", vec![ident_ty("T"), ident_ty("U")])),
            ),
            None,
        )],
    );
    let expected = decls(vec![decl(
        sig(false, "example", ref_self(), vec![], Some(ident_ty("U"))),
        None,
        binding(
            vec![Marker::Method, js_name("example")],
            false,
            "example_js",
            true,
            vec![],
            Some(ident_ty("T")),
        ),
        forward(true, "example_js", vec![], false),
    )]);
    assert_eq!(wasm_bindgen_struct(input), Ok(expected));
}

#[test]
fn impl_can_async_with_args_can_map_value() {
    let input = item(
        vec![],
        vec![method(
            vec![],
            sig(
                true,
                "example",
                ref_self(),
                vec![arg("a", ident_ty("String"))],
                Some(generic_ty("MapValue", vec![ident_ty("T"), ident_ty("U")])),
            ),
            None,
        )],
    );
    let expected = decls(vec![decl(
        sig(true, "example", ref_self(), vec![arg("a", ident_ty("String"))], Some(ident_ty("U"))),
        None,
        binding(
            vec![Marker::Method, js_name("example")],
            true,
            "example_js",
            true,
            vec![arg("a", ident_ty("String"))],
            Some(ident_ty("T")),
        ),
        forward(true, "example_js", vec!["a"], true),
    )]);
    assert_eq!(wasm_bindgen_struct(input), Ok(expected));
}

#[test]
fn impl_can_async_with_args_can_map_value_with_block() {
    let input = item(
        vec![],
        vec![method(
            vec![],
            sig(
                true,
                "example",
                ref_self(),
                vec![arg("a", ident_ty("String"))],
                Some(generic_ty("MapValue", vec![ident_ty("T"), ident_ty("U")])),
            ),
            Some("self.example_js(a).await.into()"),
        )],
    );
    let expected = decls(vec![decl(
        sig(true, "example", ref_self(), vec![arg("a", ident_ty("String"))], Some(ident_ty("U"))),
        None,
        binding(
            vec![Marker::Method, js_name("example")],
            true,
            "example_js",
            true,
            vec![arg("a", ident_ty("String"))],
            Some(ident_ty("T")),
        ),
        MethodBody::Verbatim("self.example_js(a).await.into()".to_string()),
    )]);
    assert_eq!(wasm_bindgen_struct(input), Ok(expected));
}

#[test]
fn impl_with_result_catches() {
    let result = || generic_ty("Result", vec![ident_ty("String"), ident_ty("JsValue")]);
    let input = item(
        vec![],
        vec![method(vec![], sig(false, "example", ref_self(), vec![], Some(result())), None)],
    );
    let expected = decls(vec![decl(
        sig(false, "example", ref_self(), vec![], Some(result())),
        None,
        binding(
            vec![Marker::Method, js_name("example"), Marker::Catch],
            false,
            "example_js",
            true,
            vec![],
            Some(result()),
        ),
        forward(true, "example_js", vec![], false),
    )]);
    assert_eq!(wasm_bindgen_struct(input), Ok(expected));
}

#[test]
fn impl_with_map_value_result_catches() {
    let boundary = || generic_ty("Result", vec![ident_ty("JsValue"), ident_ty("JsValue")]);
    let native = || generic_ty("Result", vec![ident_ty("String"), ident_ty("JsValue")]);
    let input = item(
        vec![],
        vec![method(
            vec![],
            sig(true, "example", ref_self(), vec![], Some(generic_ty("MapValue", vec![boundary(), native()]))),
            None,
        )],
    );
    let expected = decls(vec![decl(
        sig(true, "example", ref_self(), vec![], Some(native())),
        None,
        binding(
            vec![Marker::Method, js_name("example"), Marker::Catch],
            true,
            "example_js",
            true,
            vec![],
            Some(boundary()),
        ),
        forward(true, "example_js", vec![], true),
    )]);
    assert_eq!(wasm_bindgen_struct(input), Ok(expected));
}

#[test]
fn impl_with_module_gets_applied() {
    let input = item(
        vec![Attr::Opts(vec![OptEntry {
            key: "module".to_string(),
            value: OptValue::Lit(str_lit("my-module")),
        }])],
        vec![method(vec![], sig(false, "example", None, vec![], None), None)],
    );
    let expected = decls(vec![decl(
        sig(false, "example", None, vec![], None),
        Some(ModuleLoc::Module(str_lit("my-module"))),
        binding(
            vec![Marker::StaticMethodOf(ident_ty("JsType")), js_name("example")],
            false,
            "example_js",
            false,
            vec![],
            None,
        ),
        forward(false, "example_js", vec![], false),
    )]);
    assert_eq!(wasm_bindgen_struct(input), Ok(expected));
}

#[test]
fn impl_markers_in_order() {
    let flags = ["constructor", "final_", "getter", "setter", "indexing_getter", "indexing_setter", "indexing_deleter", "variadic"];
    let mut entries: Vec<OptEntry> = flags
        .iter()
        .map(|k| OptEntry { key: k.to_string(), value: OptValue::Bare })
        .collect();
    entries.push(OptEntry { key: "pub_".to_string(), value: OptValue::Bare });
    entries.push(OptEntry { key: "js_name".to_string(), value: OptValue::Lit(str_lit("run")) });
    let shared = Attr::Opts(vec![
        OptEntry { key: "js_name".to_string(), value: OptValue::Lit(str_lit("Klass")) },
        OptEntry {
            key: "js_namespace".to_string(),
            value: OptValue::List(vec![str_lit("ns")]),
        },
    ]);
    let input = item(
        vec![shared],
        vec![method(
            vec![Attr::Opts(entries)],
            sig(false, "do_it", None, vec![arg("x", ident_ty("u32"))], Some(ident_ty("Self"))),
            None,
        )],
    );
    let expected = Output::Impl(ImplDecls {
        attrs: vec![],
        ty: ident_ty("JsType"),
        methods: vec![MethodDecl {
            attrs: vec![],
            vis: "pub".to_string(),
            sig: sig(false, "do_it", None, vec![arg("x", ident_ty("u32"))], Some(ident_ty("Self"))),
            module: None,
            binding: binding(
                vec![
                    Marker::StaticMethodOf(ident_ty("JsType")),
                    Marker::JsClass(str_lit("Klass")),
                    js_name("run"),
                    Marker::JsNamespace(vec![str_lit("ns")]),
                    Marker::Constructor,
                    Marker::Final,
                    Marker::Getter,
                    Marker::Setter,
                    Marker::IndexingGetter,
                    Marker::IndexingSetter,
                    Marker::IndexingDeleter,
                    Marker::Variadic,
                ],
                false,
                "do_it_js",
                false,
                vec![arg("x", ident_ty("u32"))],
                Some(ident_ty("JsType")),
            ),
            body: forward(false, "do_it_js", vec!["x"], false),
        }],
        dbg: false,
    });
    assert_eq!(wasm_bindgen_struct(input), Ok(expected));
}

#[test]
fn impl_structural_method_is_not_final() {
    let input = item(
        vec![Attr::Opts(vec![OptEntry { key: "final_".to_string(), value: OptValue::Bare }])],
        vec![
            method(vec![], sig(false, "plain", ref_self(), vec![], None), None),
            method(
                vec![Attr::Opts(vec![OptEntry { key: "structural".to_string(), value: OptValue::Bare }])],
                sig(false, "loose", ref_self(), vec![], None),
                None,
            ),
        ],
    );
    let out = match wasm_bindgen_struct(input) {
        Ok(Output::Impl(d)) => d,
        other => panic!("unexpected {:?}", other),
    };
    assert_eq!(out.methods[0].binding.markers, vec![Marker::Method, js_name("plain"), Marker::Final]);
    assert_eq!(out.methods[1].binding.markers, vec![Marker::Method, js_name("loose")]);
}

#[test]
fn impl_rejects_map_value_arity() {
    let input = item(
        vec![],
        vec![method(
            vec![],
            sig(false, "example", ref_self(), vec![], Some(generic_ty("MapValue", vec![ident_ty("T")]))),
            None,
        )],
    );
    assert_eq!(wasm_bindgen_struct(input), Err(ModelError::MapValueArity(1)));
}

#[test]
fn impl_rejects_map_value_non_type() {
    let mv = Ty::Path(TyPath {
        leading_colon: false,
        segments: vec![PathSegment {
            ident: "MapValue".to_string(),
            arguments: PathArguments::Angle(vec![
                GenericArgument::Verbatim("'a".to_string()),
                GenericArgument::Type(ident_ty("U")),
            ]),
        }],
    });
    let input = item(vec![], vec![method(vec![], sig(false, "example", ref_self(), vec![], Some(mv)), None)]);
    assert_eq!(wasm_bindgen_struct(input), Err(ModelError::MapValueNonType));
}

#[test]
fn impl_rejects_pattern_parameter() {
    let input = item(
        vec![],
        vec![method(
            vec![],
            sig(
                false,
                "example",
                ref_self(),
                vec![FnArg { pat: Pat::Other("(a, b)".to_string()), ty: ident_ty("P") }],
                None,
            ),
            None,
        )],
    );
    assert_eq!(wasm_bindgen_struct(input), Err(ModelError::NonIdentParam));
}

#[test]
fn impl_rejects_non_method() {
    let input = item(vec![], vec![ImplItem::Other("const X: u8 = 1;".to_string())]);
    assert_eq!(wasm_bindgen_struct(input), Err(ModelError::NotAMethod));
}

#[test]
fn impl_rejects_generic_method() {
    let mut s = sig(false, "example", ref_self(), vec![], None);
    s.has_generics = true;
    let input = item(vec![], vec![method(vec![], s, None)]);
    assert_eq!(wasm_bindgen_struct(input), Err(ModelError::UnsupportedSignature("example".to_string())));
}

#[test]
fn impl_map_value_of_self_names_type() {
    let input = item(
        vec![],
        vec![method(
            vec![],
            sig(
                false,
                "make",
                None,
                vec![],
                Some(generic_ty("MapValue", vec![ident_ty("Self"), ident_ty("Wrapper")])),
            ),
            None,
        )],
    );
    let out = match wasm_bindgen_struct(input) {
        Ok(Output::Impl(d)) => d,
        other => panic!("unexpected {:?}", other),
    };
    assert_eq!(out.methods[0].binding.output, Some(ident_ty("JsType")));
    assert_eq!(out.methods[0].sig.output, Some(ident_ty("Wrapper")));
}
