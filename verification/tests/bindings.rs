use cs_bindgen::binding::{
    quote_binding_args, quote_raw_binding, quote_raw_fn_binding, wrap_bindings, ForeignFn,
    RawBinding,
};
use cs_bindgen::decl::TypedIdent;
use cs_bindgen::error::{GenError, Place, ResolveError, UnsupportedKind};
use cs_bindgen::export::{BindingStyle, Export, FnArg, Func, Method, NamedType, ReceiverStyle};
use cs_bindgen::func::{
    fold_fixed_blocks, invoke_args, name_arguments, pin_scopes, quote_args, quote_invoke_args,
    quote_wrapper_body, quote_wrapper_fn, wrapper_body, wrapper_fn, wrapper_params, Argument,
    InvokeArg, Invocation, PinKind, PinScope, WrapperBody,
};
use cs_bindgen::naming::{
    bindings_class_ident, from_raw_fn_ident, into_raw_fn_ident, raw_ident,
};
use cs_bindgen::raw_string::RawString;
use cs_bindgen::registry::Registry;
use cs_bindgen::schema::{Field, Schema, Sequence, Struct, StructKind, TypeName};
use cs_bindgen::types::CsType;

fn name(name: &str) -> TypeName {
    TypeName::new(name.to_string(), "game".to_string())
}

fn point() -> Schema {
    Schema::Struct(Struct {
        name: name("Point"),
        kind: StructKind::Named,
        fields: vec![
            Field { name: Some("x".to_string()), schema: Schema::I32 },
            Field { name: Some("y".to_string()), schema: Schema::I32 },
        ],
    })
}

fn board() -> Schema {
    Schema::Struct(Struct { name: name("Board"), kind: StructKind::Unit, fields: vec![] })
}

fn named(identity: TypeName, binding_style: BindingStyle, schema: Schema) -> NamedType {
    NamedType {
        name: identity,
        binding_style,
        schema,
        index_fn: "__cs_bindgen_index__Point".to_string(),
        convert_list_fn: "__cs_bindgen_convert__Point".to_string(),
        drop_vec_fn: "__cs_bindgen_drop_vec__Point".to_string(),
    }
}

fn registry() -> Registry {
    let mut types = Registry::new();
    assert!(types.insert(named(name("Point"), BindingStyle::Value(point()), point())).is_ok());
    assert!(types.insert(named(name("Board"), BindingStyle::Handle, board())).is_ok());
    types
}

fn arg(name: &str, schema: Schema) -> FnArg {
    FnArg { name: name.to_string(), schema }
}

fn typed(ty: CsType, ident: &str) -> TypedIdent {
    TypedIdent { ty, ident: ident.to_string() }
}

fn greet() -> Func {
    Func {
        name: "f".to_string(),
        binding: "__cs_bindgen_generated__f".to_string(),
        inputs: vec![arg("name", Schema::Str)],
        output: Some(Schema::String),
    }
}

#[test]
fn a_function_binds_its_entry_point_with_raw_types() {
    let types = registry();
    let func = Func {
        name: "place_tile".to_string(),
        binding: "__cs_bindgen_generated__place_tile".to_string(),
        inputs: vec![arg("at", point()), arg("board", board()), arg("label", Schema::Str)],
        output: Some(Schema::Bool),
    };
    assert_eq!(
        quote_raw_binding(&Export::Fn(func), "mahjong", &types),
        Ok(RawBinding::Function(ForeignFn {
            dll: "mahjong".to_string(),
            entry_point: "__cs_bindgen_generated__place_tile".to_string(),
            return_ty: CsType::Byte,
            params: vec![
                typed(CsType::Global("__Point__Raw".to_string()), "at"),
                typed(CsType::HandlePtr, "board"),
                typed(CsType::RawSlice, "label"),
            ],
        }))
    );
}

#[test]
fn a_function_without_output_returns_nothing() {
    let types = registry();
    let func = Func {
        name: "reset".to_string(),
        binding: "reset_binding".to_string(),
        inputs: vec![],
        output: None,
    };
    assert_eq!(
        quote_raw_binding(&Export::Fn(func), "mahjong", &types),
        Ok(RawBinding::Function(ForeignFn {
            dll: "mahjong".to_string(),
            entry_point: "reset_binding".to_string(),
            return_ty: CsType::Void,
            params: vec![],
        }))
    );
}

#[test]
fn a_method_with_a_receiver_takes_the_handle_first() {
    let types = registry();
    let method = |receiver| Method {
        name: "score".to_string(),
        binding: "score_binding".to_string(),
        self_type: board(),
        receiver,
        inputs: vec![arg("round", Schema::U32)],
        output: Some(Schema::I64),
    };
    assert_eq!(
        quote_raw_binding(&Export::Method(method(Some(ReceiverStyle::Ref))), "mahjong", &types),
        Ok(RawBinding::Function(ForeignFn {
            dll: "mahjong".to_string(),
            entry_point: "score_binding".to_string(),
            return_ty: CsType::Long,
            params: vec![typed(CsType::HandlePtr, "self"), typed(CsType::UInt, "round")],
        }))
    );
    assert_eq!(
        quote_raw_binding(&Export::Method(method(None)), "mahjong", &types),
        Ok(RawBinding::Function(ForeignFn {
            dll: "mahjong".to_string(),
            entry_point: "score_binding".to_string(),
            return_ty: CsType::Long,
            params: vec![typed(CsType::UInt, "round")],
        }))
    );
}

#[test]
fn a_handle_type_binds_its_destructor() {
    let types = registry();
    let export = Export::Named(named(name("Board"), BindingStyle::Handle, board()));
    assert_eq!(
        quote_raw_binding(&export, "mahjong", &types),
        Ok(RawBinding::Destructor(ForeignFn {
            dll: "mahjong".to_string(),
            entry_point: "__cs_bindgen_drop__Board".to_string(),
            return_ty: CsType::Void,
            params: vec![typed(CsType::HandlePtr, "self")],
        }))
    );
}

#[test]
fn a_value_type_binds_its_sequence_helpers() {
    let types = registry();
    let export = Export::Named(named(name("Point"), BindingStyle::Value(point()), point()));
    let binding = match quote_raw_binding(&export, "mahjong", &types) {
        Ok(RawBinding::Sequences(sequences)) => sequences,
        other => panic!("unexpected binding: {:?}", other),
    };
    assert_eq!(
        binding.index_fn,
        ForeignFn {
            dll: "mahjong".to_string(),
            entry_point: "__cs_bindgen_index__Point".to_string(),
            return_ty: CsType::Global("__Point__Raw".to_string()),
            params: vec![typed(CsType::RawSlice, "slice"), typed(CsType::UIntPtr, "index")],
        }
    );
    assert_eq!(
        binding.convert_list_fn,
        ForeignFn {
            dll: "mahjong".to_string(),
            entry_point: "__cs_bindgen_convert__Point".to_string(),
            return_ty: CsType::RawVec,
            params: vec![typed(CsType::RawSlice, "raw")],
        }
    );
    assert_eq!(
        binding.drop_vec_fn,
        ForeignFn {
            dll: "mahjong".to_string(),
            entry_point: "__cs_bindgen_drop_vec__Point".to_string(),
            return_ty: CsType::Void,
            params: vec![typed(CsType::RawVec, "vec")],
        }
    );
    assert_eq!(binding.element, CsType::Named("Point".to_string()));
    assert_eq!(binding.raw_element, CsType::Global("__Point__Raw".to_string()));
}

#[test]
fn an_export_that_mentions_an_unregistered_type_has_no_binding() {
    let types = Registry::new();
    let func = |inputs, output| Export::Fn(Func {
        name: "f".to_string(),
        binding: "f_binding".to_string(),
        inputs,
        output,
    });
    assert_eq!(
        quote_raw_binding(&func(vec![arg("a", Schema::U8), arg("p", point())], None), "d", &types),
        Err(GenError::Resolve {
            place: Place::Input(1),
            cause: ResolveError::UnresolvedType(name("Point")),
        })
    );
    assert_eq!(
        quote_raw_binding(&func(vec![arg("a", Schema::U8)], Some(point())), "d", &types),
        Err(GenError::Resolve {
            place: Place::Output,
            cause: ResolveError::UnresolvedType(name("Point")),
        })
    );
    let export = Export::Named(named(name("Point"), BindingStyle::Value(point()), point()));
    assert_eq!(
        quote_raw_binding(&export, "d", &types),
        Err(GenError::Resolve {
            place: Place::Representation,
            cause: ResolveError::UnresolvedType(name("Point")),
        })
    );
    let first = quote_raw_binding(&func(vec![arg("p", point())], Some(point())), "d", &types);
    let second = quote_raw_binding(&func(vec![arg("p", point())], Some(point())), "d", &types);
    assert!(first.is_err());
    assert_eq!(first, second);
}

#[test]
fn binding_arguments_keep_their_names_and_order() {
    let types = registry();
    let inputs = vec![arg("first_one", Schema::I8), arg("second", Schema::String)];
    assert_eq!(
        quote_binding_args(&inputs, &types),
        Ok(vec![typed(CsType::SByte, "first_one"), typed(CsType::RawVec, "second")])
    );
    let bad = vec![arg("a", Schema::I8), arg("b", Schema::Tuple(vec![])), arg("c", Schema::I128)];
    assert_eq!(
        quote_binding_args(&bad, &types),
        Err(GenError::Resolve {
            place: Place::Input(1),
            cause: ResolveError::Unsupported(UnsupportedKind::Tuple),
        })
    );
    assert_eq!(
        quote_raw_fn_binding("entry", CsType::Int, vec![typed(CsType::Int, "a")], "lib"),
        ForeignFn {
            dll: "lib".to_string(),
            entry_point: "entry".to_string(),
            return_ty: CsType::Int,
            params: vec![typed(CsType::Int, "a")],
        }
    );
}

#[test]
fn bindings_are_gathered_in_one_class() {
    let types = registry();
    let export = Export::Named(named(name("Board"), BindingStyle::Handle, board()));
    let destructor = quote_raw_binding(&export, "mahjong", &types).unwrap();
    let class = wrap_bindings(vec![destructor]);
    assert_eq!(class.name, "__bindings");
    assert_eq!(class.members.len(), 1);
    assert!(matches!(class.members[0], RawBinding::Destructor(_)));
    assert_eq!(bindings_class_ident(), "__bindings");
    assert_eq!(from_raw_fn_ident(), "__FromRaw");
    assert_eq!(into_raw_fn_ident(), "__IntoRaw");
    assert_eq!(raw_ident(&name("Point")), "__Point__Raw");
}

#[test]
fn a_wrapper_pins_borrowed_text_for_the_call() {
    let types = registry();
    let func = greet();
    let wrapper = quote_wrapper_fn(
        &func.name,
        &func.binding,
        None,
        func.inputs(),
        func.output.as_ref(),
        &types,
    )
    .unwrap();
    assert_eq!(wrapper.name, "F");
    assert!(wrapper.is_static);
    assert_eq!(wrapper.return_ty, CsType::Text);
    assert_eq!(wrapper.params, vec![typed(CsType::Text, "name")]);
    assert_eq!(
        wrapper.body,
        WrapperBody {
            scopes: vec![PinScope {
                pointer: "__fixed_name".to_string(),
                source: "name".to_string(),
                kind: PinKind::Text,
            }],
            invocation: Invocation {
                binding: "__cs_bindgen_generated__f".to_string(),
                args: vec![InvokeArg::IntoRaw("name".to_string())],
                result: Some("__ret".to_string()),
            },
        }
    );
}

#[test]
fn wrapper_names_follow_the_casing_of_the_target() {
    let types = registry();
    let inputs = vec![arg("tile_count", Schema::U32), arg("playerName", Schema::String)];
    let wrapper =
        quote_wrapper_fn("generate_tile_set", "binding", None, &inputs, None, &types).unwrap();
    assert_eq!(wrapper.name, "GenerateTileSet");
    assert_eq!(wrapper.return_ty, CsType::Void);
    assert_eq!(
        wrapper.params,
        vec![typed(CsType::UInt, "tileCount"), typed(CsType::Text, "playerName")]
    );
    assert_eq!(wrapper.body.invocation.result, None);
    assert!(wrapper.body.scopes.is_empty());
    assert_eq!(
        quote_invoke_args(&inputs),
        vec![InvokeArg::IntoRaw("tileCount".to_string()), InvokeArg::IntoRaw("playerName".to_string())]
    );
    assert_eq!(
        quote_args(&inputs, &types),
        Ok(vec![typed(CsType::UInt, "tileCount"), typed(CsType::Text, "playerName")])
    );
    let named_args = name_arguments(&inputs);
    let idents: Vec<&str> = named_args.iter().map(|a| a.ident.as_str()).collect();
    assert_eq!(idents, vec!["tileCount", "playerName"]);
}

#[test]
fn pinning_scopes_nest_in_argument_order() {
    let inputs = vec![
        arg("first_text", Schema::Str),
        arg("count", Schema::U8),
        arg("owned", Schema::String),
        arg("items", Schema::Slice(Box::new(Schema::I32))),
        arg("last_text", Schema::Str),
    ];
    let base = Invocation { binding: "b".to_string(), args: vec![], result: None };
    let body = fold_fixed_blocks(base, &inputs);
    let scope = |ident: &str, kind| PinScope {
        pointer: format!("__fixed_{}", ident),
        source: ident.to_string(),
        kind,
    };
    assert_eq!(
        body.scopes,
        vec![
            scope("firstText", PinKind::Text),
            scope("items", PinKind::Elements),
            scope("lastText", PinKind::Text),
        ]
    );
    assert_eq!(body.invocation, Invocation { binding: "b".to_string(), args: vec![], result: None });
}

#[test]
fn a_method_wrapper_passes_the_receiver_first() {
    let types = registry();
    let inputs = vec![arg("round", Schema::U32)];
    let wrapper = quote_wrapper_fn(
        "score",
        "score_binding",
        Some("this._handle"),
        &inputs,
        Some(&Schema::I64),
        &types,
    )
    .unwrap();
    assert!(!wrapper.is_static);
    assert_eq!(wrapper.name, "Score");
    assert_eq!(
        wrapper.body.invocation.args,
        vec![InvokeArg::Receiver("this._handle".to_string()), InvokeArg::IntoRaw("round".to_string())]
    );
    let body = quote_wrapper_body("score_binding", Some("this._handle"), &inputs, Some(&Schema::I64));
    assert_eq!(body, wrapper.body);
    let plain = quote_wrapper_body("score_binding", None, &inputs, None);
    assert_eq!(plain.invocation.args, vec![InvokeArg::IntoRaw("round".to_string())]);
    assert_eq!(plain.invocation.result, None);
}

#[test]
fn a_wrapper_is_assembled_from_named_arguments() {
    let types = registry();
    let text = Schema::Str;
    let number = Schema::U16;
    let args = vec![
        Argument { ident: "label".to_string(), schema: &text },
        Argument { ident: "n".to_string(), schema: &number },
    ];
    assert_eq!(
        invoke_args(&args),
        vec![InvokeArg::IntoRaw("label".to_string()), InvokeArg::IntoRaw("n".to_string())]
    );
    assert_eq!(
        pin_scopes(&args),
        vec![PinScope {
            pointer: "__fixed_label".to_string(),
            source: "label".to_string(),
            kind: PinKind::Text,
        }]
    );
    assert_eq!(
        wrapper_params(&args, &types),
        Ok(vec![typed(CsType::Text, "label"), typed(CsType::UShort, "n")])
    );
    let body = wrapper_body("raw", None, &args, true);
    assert_eq!(body.invocation.result, Some("__ret".to_string()));
    let wrapper = wrapper_fn("Named".to_string(), "raw", None, &args, Some(&number), &types).unwrap();
    assert_eq!(wrapper.name, "Named");
    assert_eq!(wrapper.return_ty, CsType::UShort);
    assert_eq!(wrapper.body, body);
}

#[test]
fn a_wrapper_for_an_unregistered_type_is_an_error() {
    let types = Registry::new();
    let points = Schema::Sequence(Box::new(Sequence {
        name: TypeName::new("Vec".to_string(), "alloc::vec".to_string()),
        element: point(),
    }));
    let inputs = vec![arg("points", points)];
    assert_eq!(
        quote_wrapper_fn("total", "total_binding", None, &inputs, None, &types),
        Err(GenError::Resolve {
            place: Place::Input(0),
            cause: ResolveError::UnresolvedType(name("Point")),
        })
    );
    assert_eq!(
        quote_wrapper_fn("origin", "origin_binding", None, &vec![], Some(&point()), &types),
        Err(GenError::Resolve {
            place: Place::Output,
            cause: ResolveError::UnresolvedType(name("Point")),
        })
    );
}

#[test]
fn a_text_survives_being_taken_apart() {
    for text in ["", "mahjong", "h\u{e9}llo w\u{f6}rld", "\u{6771}\u{5357}\u{897f}\u{5317}"] {
        let mut owned = String::with_capacity(64);
        owned.push_str(text);
        let raw = RawString::from_string(owned);
        assert_eq!(raw.len(), text.len() as u64);
        assert!(raw.capacity() >= 64);
        assert!(raw.len() <= raw.capacity());
        assert_eq!(raw.into_string(), text);
    }
    let raw: RawString = String::from("east").into();
    assert_eq!(raw.len(), 4);
    assert_eq!(raw.into_string(), "east");
}
