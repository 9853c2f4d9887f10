use cs_bindgen::binding::RawBinding;
use cs_bindgen::enumeration::EnumBinding;
use cs_bindgen::error::{GenError, Place, ResolveError, UnsupportedKind};
use cs_bindgen::export::{BindingStyle, Export, FnArg, Func, Method, NamedType, ReceiverStyle};
use cs_bindgen::func::InvokeArg;
use cs_bindgen::generate::{generate, quote_type_decl, TypeDecl};
use cs_bindgen::registry::Registry;
use cs_bindgen::schema::{Enum, Field, Schema, Struct, StructKind, TypeName, Variant};
use cs_bindgen::types::CsType;

fn name(name: &str) -> TypeName {
    TypeName::new(name.to_string(), "game".to_string())
}

fn point() -> Schema {
    Schema::Struct(Struct {
        name: name("Point"),
        kind: StructKind::Named,
        fields: vec![
            Field { name: Some("x".to_string()), schema: Schema::I32 },
            Field { name: Some("y".to_string()), schema: Schema::I32 },
        ],
    })
}

fn board() -> Schema {
    Schema::Struct(Struct { name: name("Board"), kind: StructKind::Unit, fields: vec![] })
}

fn suit() -> Schema {
    let unit = |name: &str| Variant::Unit { name: name.to_string(), discriminant: None };
    Schema::Enum(Enum {
        name: name("Suit"),
        variants: vec![unit("Coins"), unit("Bamboo"), unit("Characters")],
        repr: None,
    })
}

fn named(identity: TypeName, binding_style: BindingStyle, schema: Schema) -> NamedType {
    NamedType {
        name: identity,
        binding_style,
        schema,
        index_fn: "index".to_string(),
        convert_list_fn: "convert".to_string(),
        drop_vec_fn: "drop".to_string(),
    }
}

fn entries() -> Vec<NamedType> {
    vec![
        named(name("Point"), BindingStyle::Value(point()), point()),
        named(name("Board"), BindingStyle::Handle, board()),
        named(name("Suit"), BindingStyle::Value(suit()), suit()),
    ]
}

fn registry() -> Registry {
    Registry::from_entries(entries()).unwrap()
}

fn method(self_type: Schema, receiver: Option<ReceiverStyle>) -> Export {
    Export::Method(Method {
        name: "move_to".to_string(),
        binding: "move_to_binding".to_string(),
        self_type,
        receiver,
        inputs: vec![FnArg { name: "target".to_string(), schema: point() }],
        output: None,
    })
}

#[test]
fn a_registry_is_built_from_distinct_entries() {
    let types = registry();
    assert_eq!(types.len(), 3);
    assert!(types.contains(&name("Suit")));
    let mut twice = entries();
    twice.push(named(name("Line"), BindingStyle::Handle, Schema::Unit));
    twice.push(named(name("Board"), BindingStyle::Value(board()), board()));
    twice.push(named(name("Point"), BindingStyle::Handle, point()));
    assert_eq!(Registry::from_entries(twice).err(), Some(4));
    assert_eq!(Registry::from_entries(vec![]).map(|types| types.len()), Ok(0));
}

#[test]
fn a_function_has_a_binding_and_a_wrapper() {
    let types = registry();
    let export = Export::Fn(Func {
        name: "f".to_string(),
        binding: "f_binding".to_string(),
        inputs: vec![FnArg { name: "name".to_string(), schema: Schema::Str }],
        output: Some(Schema::String),
    });
    let fragments = generate(&export, "mahjong", &types).unwrap();
    assert_eq!(fragments.declaration, None);
    assert!(matches!(fragments.binding, RawBinding::Function(_)));
    let wrapper = fragments.wrapper.as_ref().unwrap();
    assert_eq!(wrapper.name, "F");
    assert_eq!(wrapper.body.scopes.len(), 1);
    let text = fragments.text();
    assert!(text.starts_with("internal unsafe static partial class __bindings\n{\n[DllImport(\"mahjong\""));
    assert!(text.ends_with("    return __ret;\n}\n"));
}

#[test]
fn a_method_passes_the_handle_or_the_raw_value() {
    let types = registry();
    let on_handle = generate(&method(board(), Some(ReceiverStyle::RefMut)), "d", &types).unwrap();
    assert_eq!(
        on_handle.wrapper.unwrap().body.invocation.args,
        vec![InvokeArg::Receiver("_handle".to_string()), InvokeArg::IntoRaw("target".to_string())]
    );
    let on_value = generate(&method(point(), Some(ReceiverStyle::Ref)), "d", &types).unwrap();
    let wrapper = on_value.wrapper.unwrap();
    assert!(!wrapper.is_static);
    assert_eq!(
        wrapper.body.invocation.args,
        vec![
            InvokeArg::Receiver("__bindings.__IntoRaw(this)".to_string()),
            InvokeArg::IntoRaw("target".to_string()),
        ]
    );
    let associated = generate(&method(board(), None), "d", &types).unwrap();
    let wrapper = associated.wrapper.unwrap();
    assert!(wrapper.is_static);
    assert_eq!(wrapper.body.invocation.args, vec![InvokeArg::IntoRaw("target".to_string())]);
    let line =
        Schema::Struct(Struct { name: name("Line"), kind: StructKind::Unit, fields: vec![] });
    assert_eq!(
        generate(&method(line, Some(ReceiverStyle::Move)), "d", &types),
        Err(GenError::Resolve {
            place: Place::Receiver,
            cause: ResolveError::UnresolvedType(name("Line")),
        })
    );
}

#[test]
fn a_named_type_has_its_declarations_and_its_binding() {
    let types = registry();
    let by_value = Export::Named(named(name("Point"), BindingStyle::Value(point()), point()));
    let fragments = generate(&by_value, "mahjong", &types).unwrap();
    assert!(matches!(fragments.declaration, Some(TypeDecl::Struct(_))));
    assert!(matches!(fragments.binding, RawBinding::Sequences(_)));
    assert_eq!(fragments.wrapper, None);
    assert!(fragments.text().starts_with("public struct Point\n{\n"));

    let handle = Export::Named(named(name("Board"), BindingStyle::Handle, board()));
    let fragments = generate(&handle, "mahjong", &types).unwrap();
    assert_eq!(fragments.declaration, None);
    assert!(matches!(fragments.binding, RawBinding::Destructor(_)));

    let plain = named(name("Suit"), BindingStyle::Value(suit()), suit());
    match quote_type_decl(&plain, &types) {
        Ok(Some(TypeDecl::Enum(EnumBinding::Simple(simple)))) => {
            assert_eq!(simple.name, "Suit");
            assert_eq!(simple.discriminant, CsType::IntPtr);
            assert_eq!(simple.values(), Some(vec![0, 1, 2]));
        }
        other => panic!("unexpected declarations: {:?}", other),
    }
    let alias = named(name("Score"), BindingStyle::Value(Schema::U32), Schema::U32);
    assert_eq!(quote_type_decl(&alias, &types), Ok(None));
}

#[test]
fn nothing_is_generated_for_an_item_that_fails() {
    let types = Registry::new();
    let export = Export::Fn(Func {
        name: "f".to_string(),
        binding: "f_binding".to_string(),
        inputs: vec![FnArg { name: "at".to_string(), schema: point() }],
        output: None,
    });
    assert_eq!(
        generate(&export, "mahjong", &types),
        Err(GenError::Resolve {
            place: Place::Input(0),
            cause: ResolveError::UnresolvedType(name("Point")),
        })
    );
    let broken = Schema::Struct(Struct {
        name: name("Broken"),
        kind: StructKind::Tuple,
        fields: vec![Field { name: None, schema: Schema::Option(Box::new(Schema::U8)) }],
    });
    let by_value = Export::Named(named(name("Broken"), BindingStyle::Value(Schema::U8), broken));
    assert_eq!(
        generate(&by_value, "mahjong", &types),
        Err(GenError::Resolve {
            place: Place::Field(0),
            cause: ResolveError::Unsupported(UnsupportedKind::Optional),
        })
    );
    let unsupported = Export::Fn(Func {
        name: "f".to_string(),
        binding: "f_binding".to_string(),
        inputs: vec![FnArg {
            name: "items".to_string(),
            schema: Schema::Slice(Box::new(Schema::Tuple(vec![]))),
        }],
        output: None,
    });
    assert_eq!(
        generate(&unsupported, "mahjong", &types),
        Err(GenError::Resolve {
            place: Place::Input(0),
            cause: ResolveError::Unsupported(UnsupportedKind::Tuple),
        })
    );
}

#[test]
fn errors_say_what_went_wrong_and_where() {
    let unresolved = GenError::Resolve {
        place: Place::Input(2),
        cause: ResolveError::UnresolvedType(name("Point")),
    };
    assert_eq!(
        unresolved.message(),
        "argument 2: no export found for the named type game::Point"
    );
    let unsupported = |place, kind| {
        GenError::Resolve { place, cause: ResolveError::Unsupported(kind) }.message()
    };
    assert_eq!(
        unsupported(Place::Output, UnsupportedKind::Array),
        "the return value: unsupported schema: a fixed-size array"
    );
    assert_eq!(
        unsupported(Place::Receiver, UnsupportedKind::Optional),
        "the receiver: unsupported schema: an optional value"
    );
    assert_eq!(
        unsupported(Place::Representation, UnsupportedKind::Tuple),
        "the representation: unsupported schema: a tuple"
    );
    assert_eq!(
        unsupported(Place::Field(10), UnsupportedKind::Mapping),
        "field 10: unsupported schema: a map"
    );
    assert_eq!(
        unsupported(Place::VariantField { variant: 3, field: 1 }, UnsupportedKind::WideInteger),
        "field 1 of variant 3: unsupported schema: a 128-bit integer"
    );
    assert_eq!(
        ResolveError::Unsupported(UnsupportedKind::Sequence).message(),
        "unsupported schema: a sequence other than the standard vector"
    );
    assert_eq!(UnsupportedKind::Fallible.describe(), "a result");
    assert_eq!(
        GenError::HandleWithData(name("Tile")).message(),
        "the enum game::Tile carries data and can only be exported by value"
    );
    assert_eq!(
        GenError::NonUnitVariant(1).message(),
        "variant 1 carries data, in an enum that has none"
    );
    assert_eq!(
        GenError::MalformedDiscriminant { variant: 0, text: "one".to_string() }.message(),
        "the discriminant of variant 0 is not an integer literal: one"
    );
}

#[test]
fn a_run_generates_every_item_or_fails_at_the_first() {
    let types = registry();
    let func = |name: &str, schema: Schema| {
        Export::Fn(Func {
            name: name.to_string(),
            binding: format!("{}_binding", name),
            inputs: vec![FnArg { name: "value".to_string(), schema }],
            output: None,
        })
    };
    let exports = vec![
        func("first", Schema::U8),
        Export::Named(named(name("Board"), BindingStyle::Handle, board())),
        func("second", point()),
    ];
    let generated = cs_bindgen::generate::generate_all(&exports, "mahjong", &types).unwrap();
    assert_eq!(generated.len(), 3);
    for (export, fragments) in exports.iter().zip(generated.iter()) {
        assert_eq!(generate(export, "mahjong", &types).as_ref(), Ok(fragments));
    }
    let text = cs_bindgen::generate::write_all(&generated);
    let parts: Vec<String> = generated.iter().map(|fragments| fragments.text()).collect();
    assert_eq!(text, parts.concat());
    assert_eq!(cs_bindgen::generate::write_all(&vec![]), "");

    let failing = vec![
        func("first", Schema::U8),
        func("second", Schema::I128),
        func("third", Schema::Tuple(vec![])),
    ];
    assert_eq!(
        cs_bindgen::generate::generate_all(&failing, "mahjong", &types),
        Err(cs_bindgen::generate::ExportError {
            index: 1,
            error: GenError::Resolve {
                place: Place::Input(0),
                cause: ResolveError::Unsupported(UnsupportedKind::WideInteger),
            },
        })
    );
    assert_eq!(cs_bindgen::generate::generate_all(&vec![], "mahjong", &types), Ok(vec![]));
}

#[test]
fn descriptions_can_be_copied() {
    let export = Export::Named(named(name("Point"), BindingStyle::Value(point()), point()));
    assert_eq!(export.clone(), export);
    let deep = Schema::Mapping {
        key: Box::new(Schema::Option(Box::new(suit()))),
        value: Box::new(Schema::Tuple(vec![point(), Schema::Slice(Box::new(Schema::U8))])),
    };
    assert_eq!(deep.clone(), deep);
    let method = method(board(), Some(ReceiverStyle::Ref));
    assert_eq!(method.clone(), method);
    let error = GenError::MalformedDiscriminant { variant: 1, text: "x".to_string() };
    assert_eq!(error.clone(), error);
}
