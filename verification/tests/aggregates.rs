use cs_bindgen::decl::{OverlayMember, OverlayUnion, RawRecord, TypedIdent, ValueType};
use cs_bindgen::enumeration::{
    member_with_literal, quote_complex_enum_binding, quote_discriminant_type, quote_enum_binding,
    quote_primitive_type, quote_raw_type_reference, quote_simple_enum_binding,
    quote_type_reference, simple_enum_member, EnumBinding, EnumMember, SimpleEnum,
};
use cs_bindgen::error::{FieldError, GenError, Place, ResolveError, UnsupportedKind};
use cs_bindgen::export::{BindingStyle, NamedType};
use cs_bindgen::idiomatic::quote_cs_type;
use cs_bindgen::literal::{check_literal_text, discriminant_literal};
use cs_bindgen::naming::{decimal_text, positional_ident};
use cs_bindgen::numbering::parse_literal;
use cs_bindgen::registry::Registry;
use cs_bindgen::schema::{
    Enum, Field, Primitive, Schema, Sequence, Struct, StructKind, TypeName, Variant,
};
use cs_bindgen::strukt::{field_ident, quote_struct_binding, raw_struct_fields, struct_fields};
use cs_bindgen::types::CsType;

fn name(name: &str) -> TypeName {
    TypeName::new(name.to_string(), "game".to_string())
}

fn field(name: Option<&str>, schema: Schema) -> Field {
    Field { name: name.map(|n| n.to_string()), schema }
}

fn point_struct() -> Struct {
    Struct {
        name: name("Point"),
        kind: StructKind::Named,
        fields: vec![field(Some("x"), Schema::I32), field(Some("y"), Schema::I32)],
    }
}

fn unit(name: &str, discriminant: Option<&str>) -> Variant {
    Variant::Unit { name: name.to_string(), discriminant: discriminant.map(|d| d.to_string()) }
}

fn suit() -> Enum {
    Enum {
        name: name("Suit"),
        variants: vec![unit("Coins", None), unit("Bamboo", None), unit("Characters", None)],
        repr: None,
    }
}

fn tile() -> Enum {
    Enum {
        name: name("Tile"),
        variants: vec![
            Variant::Struct {
                name: "Simple".to_string(),
                fields: vec![
                    field(Some("number"), Schema::U8),
                    field(Some("suit"), Schema::Enum(suit())),
                ],
            },
            Variant::Tuple { name: "Bonus".to_string(), fields: vec![field(None, Schema::String)] },
            unit("Blank", None),
        ],
        repr: None,
    }
}

fn named(identity: TypeName, binding_style: BindingStyle, schema: Schema) -> NamedType {
    NamedType {
        name: identity,
        binding_style,
        schema,
        index_fn: "index".to_string(),
        convert_list_fn: "convert".to_string(),
        drop_vec_fn: "drop".to_string(),
    }
}

fn typed(ty: CsType, ident: &str) -> TypedIdent {
    TypedIdent { ty, ident: ident.to_string() }
}

fn registry() -> Registry {
    let mut types = Registry::new();
    let entries = vec![
        named(
            name("Point"),
            BindingStyle::Value(Schema::Struct(point_struct())),
            Schema::Struct(point_struct()),
        ),
        named(name("Suit"), BindingStyle::Value(Schema::Enum(suit())), Schema::Enum(suit())),
        named(name("Tile"), BindingStyle::Value(Schema::Enum(tile())), Schema::Enum(tile())),
    ];
    for entry in entries {
        assert!(types.insert(entry).is_ok());
    }
    types
}

#[test]
fn point_has_a_raw_record_of_two_ints_and_a_type_with_fields_x_and_y() {
    let types = registry();
    let export = types.get(&name("Point")).unwrap();
    let binding = quote_struct_binding(export, &point_struct(), &types).unwrap();
    assert_eq!(
        binding.raw,
        RawRecord {
            name: "__Point__Raw".to_string(),
            fields: vec![typed(CsType::Int, "x"), typed(CsType::Int, "y")],
        }
    );
    assert_eq!(binding.raw.fields[0].ty.width(), Some(4));
    assert_eq!(binding.raw.fields[1].ty.width(), Some(4));
    assert!(binding.raw.fields.iter().all(|f| f.ty.is_raw()));
    assert_eq!(
        binding.idiomatic,
        ValueType {
            name: "Point".to_string(),
            marker: None,
            fields: vec![typed(CsType::Int, "x"), typed(CsType::Int, "y")],
        }
    );
}

#[test]
fn fields_without_a_name_are_named_by_position() {
    let types = registry();
    let fields = vec![field(None, Schema::U8), field(Some("kept"), Schema::Bool), field(None, Schema::Str)];
    assert_eq!(
        raw_struct_fields(&fields, &types),
        Ok(vec![
            typed(CsType::Byte, "Element0"),
            typed(CsType::Byte, "kept"),
            typed(CsType::RawSlice, "Element2"),
        ])
    );
    assert_eq!(
        struct_fields(&fields, &types),
        Ok(vec![
            typed(CsType::Byte, "Element0"),
            typed(CsType::Bool, "kept"),
            typed(CsType::Text, "Element2"),
        ])
    );
    assert_eq!(field_ident(&None, 12), "Element12");
    assert_eq!(field_ident(&Some("name".to_string()), 12), "name");
    assert_eq!(positional_ident(0), "Element0");
    assert_eq!(decimal_text(0), "0");
    assert_eq!(decimal_text(9), "9");
    assert_eq!(decimal_text(10), "10");
    assert_eq!(decimal_text(4096), "4096");
}

#[test]
fn the_first_field_that_fails_decides_the_error() {
    let types = registry();
    let fields = vec![
        field(Some("a"), Schema::U8),
        field(Some("b"), Schema::Option(Box::new(Schema::U8))),
        field(Some("c"), Schema::I128),
    ];
    assert_eq!(
        raw_struct_fields(&fields, &types),
        Err(FieldError { index: 1, cause: ResolveError::Unsupported(UnsupportedKind::Optional) })
    );
    let export = named(name("Broken"), BindingStyle::Handle, Schema::Unit);
    let broken = Struct { name: name("Broken"), kind: StructKind::Named, fields };
    assert_eq!(
        quote_struct_binding(&export, &broken, &types),
        Err(GenError::Resolve {
            place: Place::Field(1),
            cause: ResolveError::Unsupported(UnsupportedKind::Optional),
        })
    );
}

#[test]
fn suit_has_members_without_values_and_a_pointer_sized_discriminant() {
    let types = registry();
    let export = types.get(&name("Suit")).unwrap();
    let binding = quote_simple_enum_binding(export, &suit()).unwrap();
    assert_eq!(
        binding,
        SimpleEnum {
            name: "Suit".to_string(),
            members: vec![
                EnumMember { name: "Coins".to_string(), literal: None },
                EnumMember { name: "Bamboo".to_string(), literal: None },
                EnumMember { name: "Characters".to_string(), literal: None },
            ],
            discriminant: CsType::IntPtr,
        }
    );
    assert_eq!(binding.discriminant.width(), None);
    assert_eq!(binding.values(), Some(vec![0, 1, 2]));
    assert_eq!(quote_discriminant_type(&suit()), CsType::IntPtr);
    assert_eq!(quote_raw_type_reference(export, &suit()), CsType::IntPtr);
    assert_eq!(quote_type_reference(export, &suit()), CsType::Named("Suit".to_string()));
}

#[test]
fn a_declared_representation_is_the_discriminant_type() {
    let mut schema = suit();
    schema.repr = Some(Primitive::U16);
    assert_eq!(quote_discriminant_type(&schema), CsType::UShort);
    let table = vec![
        (Primitive::I8, CsType::SByte),
        (Primitive::I16, CsType::Short),
        (Primitive::I32, CsType::Int),
        (Primitive::I64, CsType::Long),
        (Primitive::ISize, CsType::IntPtr),
        (Primitive::U8, CsType::Byte),
        (Primitive::U16, CsType::UShort),
        (Primitive::U32, CsType::UInt),
        (Primitive::U64, CsType::ULong),
        (Primitive::USize, CsType::UIntPtr),
    ];
    for (primitive, expected) in table {
        assert_eq!(quote_primitive_type(primitive), expected);
    }
}

#[test]
fn discriminants_continue_from_the_nearest_declared_value() {
    let schema = Enum {
        name: name("Letter"),
        variants: vec![unit("A", None), unit("B", Some("5")), unit("C", None)],
        repr: None,
    };
    let export = named(name("Letter"), BindingStyle::Value(Schema::Unit), Schema::Unit);
    let binding = quote_simple_enum_binding(&export, &schema).unwrap();
    assert_eq!(
        binding.members,
        vec![
            EnumMember { name: "A".to_string(), literal: None },
            EnumMember { name: "B".to_string(), literal: Some("5".to_string()) },
            EnumMember { name: "C".to_string(), literal: None },
        ]
    );
    assert_eq!(binding.values(), Some(vec![0, 5, 6]));
}

#[test]
fn negative_and_repeated_discriminants_are_numbered() {
    let schema = Enum {
        name: name("Level"),
        variants: vec![
            unit("Low", Some("-2")),
            unit("Mid", None),
            unit("High", Some("10")),
            unit("Top", None),
            unit("Again", Some("10")),
        ],
        repr: Some(Primitive::I8),
    };
    let export = named(name("Level"), BindingStyle::Value(Schema::Unit), Schema::Unit);
    let binding = quote_simple_enum_binding(&export, &schema).unwrap();
    assert_eq!(binding.members[0].literal, Some("-2".to_string()));
    assert_eq!(binding.discriminant, CsType::SByte);
    assert_eq!(binding.values(), Some(vec![-2, -1, 10, 11, 10]));
}

#[test]
fn literals_are_read_in_decimal_only() {
    assert_eq!(parse_literal("0"), Some(0));
    assert_eq!(parse_literal("007"), Some(7));
    assert_eq!(parse_literal("-5"), Some(-5));
    assert_eq!(parse_literal("-  5"), Some(-5));
    assert_eq!(
        parse_literal("170141183460469231731687303715884105727"),
        Some(i128::MAX)
    );
    assert_eq!(parse_literal("170141183460469231731687303715884105728"), None);
    assert_eq!(parse_literal(""), None);
    assert_eq!(parse_literal("-"), None);
    assert_eq!(parse_literal("0x10"), None);
    assert_eq!(parse_literal("5u8"), None);
    assert_eq!(parse_literal("1_000"), None);
    assert_eq!(parse_literal(" 5"), None);
    let hex = SimpleEnum {
        name: "Mask".to_string(),
        members: vec![EnumMember { name: "All".to_string(), literal: Some("0xFF".to_string()) }],
        discriminant: CsType::Byte,
    };
    assert_eq!(hex.values(), None);
    let full = SimpleEnum {
        name: "Full".to_string(),
        members: vec![
            EnumMember {
                name: "Last".to_string(),
                literal: Some("170141183460469231731687303715884105727".to_string()),
            },
            EnumMember { name: "Beyond".to_string(), literal: None },
        ],
        discriminant: CsType::IntPtr,
    };
    assert_eq!(full.values(), None);
}

#[test]
fn a_discriminant_is_carried_over_as_a_literal() {
    assert_eq!(discriminant_literal("5"), Some("5".to_string()));
    assert_eq!(discriminant_literal(" 5 "), Some("5".to_string()));
    assert_eq!(discriminant_literal("-5"), Some("-5".to_string()));
    assert_eq!(discriminant_literal("- 5"), Some("-5".to_string()));
    assert_eq!(discriminant_literal("0x1F"), Some("0x1F".to_string()));
    assert_eq!(discriminant_literal("1_000u32"), Some("1_000u32".to_string()));
}

#[test]
fn text_that_is_no_integer_literal_is_no_discriminant() {
    assert_eq!(discriminant_literal(""), None);
    assert_eq!(discriminant_literal("five"), None);
    assert_eq!(discriminant_literal("5 6"), None);
    assert_eq!(discriminant_literal("1e5"), None);
    assert_eq!(discriminant_literal("1.5"), None);
    assert_eq!(discriminant_literal("\"5\""), None);
    assert_eq!(discriminant_literal("c\"5\""), None);
    assert_eq!(discriminant_literal("(5)"), None);
    assert_eq!(discriminant_literal("(/*ERROR*/)"), None);
    assert_eq!(discriminant_literal("5\u{663}"), None);
    assert!(check_literal_text("-12 aZ_09"));
    assert!(check_literal_text(""));
    assert!(!check_literal_text("1+2"));
    assert!(!check_literal_text("1\n"));
    assert!(!check_literal_text("\u{e9}"));
}

#[test]
fn a_malformed_discriminant_is_reported_with_its_text() {
    let schema = Enum {
        name: name("Letter"),
        variants: vec![unit("A", Some("1")), unit("B", Some("one + 1")), unit("C", Some("?"))],
        repr: None,
    };
    let export = named(name("Letter"), BindingStyle::Value(Schema::Unit), Schema::Unit);
    assert_eq!(
        quote_simple_enum_binding(&export, &schema),
        Err(GenError::MalformedDiscriminant { variant: 1, text: "one + 1".to_string() })
    );
    assert_eq!(
        simple_enum_member(&unit("C", Some("?")), 2),
        Err(GenError::MalformedDiscriminant { variant: 2, text: "?".to_string() })
    );
    assert_eq!(
        member_with_literal(&"C".to_string(), &"?".to_string(), 2, None),
        Err(GenError::MalformedDiscriminant { variant: 2, text: "?".to_string() })
    );
    assert_eq!(
        member_with_literal(&"C".to_string(), &"0b11".to_string(), 2, Some("0b11".to_string())),
        Ok(EnumMember { name: "C".to_string(), literal: Some("0b11".to_string()) })
    );
}

#[test]
fn a_plain_enum_cannot_hold_a_variant_with_fields() {
    let export = named(name("Tile"), BindingStyle::Value(Schema::Unit), Schema::Unit);
    assert_eq!(quote_simple_enum_binding(&export, &tile()), Err(GenError::NonUnitVariant(0)));
}

#[test]
fn an_enum_with_data_has_a_marker_and_two_unions_over_all_variants() {
    let types = registry();
    let export = types.get(&name("Tile")).unwrap();
    let binding = quote_complex_enum_binding(export, &tile(), &types).unwrap();
    assert_eq!(binding.marker, "ITile");
    assert_eq!(binding.variants.len(), 3);
    let names: Vec<&str> = binding.variants.iter().map(|v| v.idiomatic.name.as_str()).collect();
    assert_eq!(names, vec!["Simple", "Bonus", "Blank"]);
    for variant in &binding.variants {
        assert_eq!(variant.idiomatic.marker, Some("ITile".to_string()));
        assert_eq!(variant.return_record.fields, variant.arg_record.fields);
    }
    assert_eq!(
        binding.variants[0].idiomatic.fields,
        vec![typed(CsType::Byte, "number"), typed(CsType::Named("Suit".to_string()), "suit")]
    );
    assert_eq!(
        binding.variants[0].arg_record,
        RawRecord {
            name: "Simple__RawArg".to_string(),
            fields: vec![typed(CsType::Byte, "number"), typed(CsType::IntPtr, "suit")],
        }
    );
    assert_eq!(binding.variants[0].return_record.name, "Simple__RawReturn");
    assert_eq!(binding.variants[1].idiomatic.fields, vec![typed(CsType::Text, "Element0")]);
    assert_eq!(binding.variants[1].arg_record.fields, vec![typed(CsType::RawVec, "Element0")]);
    assert!(binding.variants[2].idiomatic.fields.is_empty());
    assert!(binding.variants[2].arg_record.fields.is_empty());
    let member = |record: &str, ident: &str| OverlayMember {
        offset: 0,
        record: record.to_string(),
        ident: ident.to_string(),
    };
    assert_eq!(
        binding.arg_union,
        OverlayUnion {
            name: "Tile__RawArg".to_string(),
            members: vec![
                member("Simple__RawArg", "Simple"),
                member("Bonus__RawArg", "Bonus"),
                member("Blank__RawArg", "Blank"),
            ],
        }
    );
    assert_eq!(
        binding.return_union,
        OverlayUnion {
            name: "Tile__RawReturn".to_string(),
            members: vec![
                member("Simple__RawReturn", "Simple"),
                member("Bonus__RawReturn", "Bonus"),
                member("Blank__RawReturn", "Blank"),
            ],
        }
    );
    assert_eq!(quote_type_reference(export, &tile()), CsType::Named("ITile".to_string()));
    assert_eq!(quote_raw_type_reference(export, &tile()), CsType::RawEnum("Tile__Raw".to_string()));
}

#[test]
fn an_enum_with_data_cannot_be_a_handle() {
    let types = registry();
    let export = named(name("Tile"), BindingStyle::Handle, Schema::Enum(tile()));
    assert_eq!(
        quote_complex_enum_binding(&export, &tile(), &types),
        Err(GenError::HandleWithData(name("Tile")))
    );
    assert_eq!(
        quote_enum_binding(&export, &tile(), &types),
        Err(GenError::HandleWithData(name("Tile")))
    );
    assert_eq!(quote_type_reference(&export, &tile()), CsType::Named("Tile".to_string()));
    assert_eq!(quote_raw_type_reference(&export, &tile()), CsType::HandlePtr);
}

#[test]
fn a_variant_field_of_an_unregistered_type_fails_the_enum() {
    let types = Registry::new();
    let export = named(name("Tile"), BindingStyle::Value(Schema::Unit), Schema::Unit);
    assert_eq!(
        quote_complex_enum_binding(&export, &tile(), &types),
        Err(GenError::Resolve {
            place: Place::VariantField { variant: 0, field: 1 },
            cause: ResolveError::UnresolvedType(name("Suit")),
        })
    );
}

#[test]
fn the_kind_of_enum_selects_its_declarations() {
    let types = registry();
    let suit_export = types.get(&name("Suit")).unwrap();
    assert!(matches!(quote_enum_binding(suit_export, &suit(), &types), Ok(EnumBinding::Simple(_))));
    let tile_export = types.get(&name("Tile")).unwrap();
    assert!(matches!(quote_enum_binding(tile_export, &tile(), &types), Ok(EnumBinding::Complex(_))));
    assert!(!suit().has_data());
    assert!(tile().has_data());
}

#[test]
fn idiomatic_types_follow_the_schema() {
    let types = registry();
    assert_eq!(quote_cs_type(&Schema::Unit, &types), Ok(CsType::Void));
    assert_eq!(quote_cs_type(&Schema::Bool, &types), Ok(CsType::Bool));
    assert_eq!(quote_cs_type(&Schema::Char, &types), Ok(CsType::UInt));
    assert_eq!(quote_cs_type(&Schema::String, &types), Ok(CsType::Text));
    assert_eq!(quote_cs_type(&Schema::Str, &types), Ok(CsType::Text));
    assert_eq!(quote_cs_type(&Schema::F32, &types), Ok(CsType::Float));
    assert_eq!(
        quote_cs_type(&Schema::Struct(point_struct()), &types),
        Ok(CsType::Named("Point".to_string()))
    );
    assert_eq!(quote_cs_type(&Schema::Enum(tile()), &types), Ok(CsType::Named("ITile".to_string())));
    let points = Schema::Sequence(Box::new(Sequence {
        name: TypeName::new("Vec".to_string(), "alloc::vec".to_string()),
        element: Schema::Slice(Box::new(Schema::Struct(point_struct()))),
    }));
    assert_eq!(
        quote_cs_type(&points, &types),
        Ok(CsType::List(Box::new(CsType::List(Box::new(CsType::Named("Point".to_string()))))))
    );
    assert_eq!(
        quote_cs_type(&points, &Registry::new()),
        Err(ResolveError::UnresolvedType(name("Point")))
    );
    assert_eq!(
        quote_cs_type(&Schema::Slice(Box::new(Schema::Tuple(vec![]))), &types),
        Err(ResolveError::Unsupported(UnsupportedKind::Tuple))
    );
}

#[test]
fn types_are_written_as_in_source() {
    assert_eq!(CsType::Void.text(), "void");
    assert_eq!(CsType::UIntPtr.text(), "UIntPtr");
    assert_eq!(CsType::HandlePtr.text(), "void*");
    assert_eq!(CsType::Text.text(), "string");
    assert_eq!(CsType::Global("__Point__Raw".to_string()).text(), "global::__Point__Raw");
    assert_eq!(CsType::RawEnum("Tile__Raw".to_string()).text(), "RawEnum<Tile__Raw>");
    let nested = CsType::List(Box::new(CsType::List(Box::new(CsType::Int))));
    assert_eq!(nested.text(), "List<List<int>>");
    assert_eq!(nested.clone(), nested);
    assert_eq!(CsType::Long.width(), Some(8));
    assert_eq!(CsType::UShort.width(), Some(2));
    assert_eq!(CsType::IntPtr.width(), None);
    assert!(CsType::RawVec.is_raw());
    assert!(!CsType::Text.is_raw());
}
