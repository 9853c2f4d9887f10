use cs_bindgen::error::{ResolveError, UnsupportedKind};
use cs_bindgen::export::{BindingStyle, NamedType};
use cs_bindgen::registry::Registry;
use cs_bindgen::resolve::{raw_type_from_repr, raw_type_from_schema, Repr};
use cs_bindgen::schema::{
    Array, Enum, Field, Primitive, Schema, Sequence, Struct, StructKind, TypeName, Variant,
};
use cs_bindgen::types::CsType;

fn name(name: &str) -> TypeName {
    TypeName::new(name.to_string(), "game".to_string())
}

fn point() -> Schema {
    Schema::Struct(Struct {
        name: name("Point"),
        kind: StructKind::Named,
        fields: vec![
            Field { name: Some("x".to_string()), schema: Schema::I32 },
            Field { name: Some("y".to_string()), schema: Schema::I32 },
        ],
    })
}

fn suit(repr: Option<Primitive>) -> Enum {
    Enum {
        name: name("Suit"),
        variants: vec![
            Variant::Unit { name: "Coins".to_string(), discriminant: None },
            Variant::Unit { name: "Bamboo".to_string(), discriminant: None },
            Variant::Unit { name: "Characters".to_string(), discriminant: None },
        ],
        repr,
    }
}

fn shape() -> Enum {
    Enum {
        name: name("Shape"),
        variants: vec![
            Variant::Unit { name: "Empty".to_string(), discriminant: None },
            Variant::Tuple {
                name: "Circle".to_string(),
                fields: vec![Field { name: None, schema: Schema::F64 }],
            },
        ],
        repr: None,
    }
}

fn named(identity: TypeName, binding_style: BindingStyle, schema: Schema) -> NamedType {
    NamedType {
        name: identity,
        binding_style,
        schema,
        index_fn: "index".to_string(),
        convert_list_fn: "convert".to_string(),
        drop_vec_fn: "drop".to_string(),
    }
}

fn vec_of(element: Schema) -> Schema {
    Schema::Sequence(Box::new(Sequence {
        name: TypeName::new("Vec".to_string(), "alloc::vec".to_string()),
        element,
    }))
}

#[test]
fn primitives_map_to_the_type_of_their_width() {
    let types = Registry::new();
    let table = vec![
        (Schema::Unit, CsType::Byte),
        (Schema::Bool, CsType::Byte),
        (Schema::Char, CsType::UInt),
        (Schema::I8, CsType::SByte),
        (Schema::I16, CsType::Short),
        (Schema::I32, CsType::Int),
        (Schema::I64, CsType::Long),
        (Schema::ISize, CsType::IntPtr),
        (Schema::U8, CsType::Byte),
        (Schema::U16, CsType::UShort),
        (Schema::U32, CsType::UInt),
        (Schema::U64, CsType::ULong),
        (Schema::USize, CsType::UIntPtr),
        (Schema::F32, CsType::Float),
        (Schema::F64, CsType::Double),
    ];
    for (schema, expected) in table {
        assert_eq!(raw_type_from_schema(&schema, &types), Ok(expected));
    }
}

#[test]
fn resolving_twice_gives_the_same_type() {
    let mut types = Registry::new();
    assert!(types.insert(named(name("Point"), BindingStyle::Value(point()), point())).is_ok());
    for schema in [Schema::I32, Schema::String, Schema::Str, point(), vec_of(Schema::U8)] {
        let first = raw_type_from_schema(&schema, &types);
        let second = raw_type_from_schema(&schema, &types);
        assert!(first.is_ok());
        assert_eq!(first, second);
    }
}

#[test]
fn text_and_sequences_map_to_the_buffer_records() {
    let types = Registry::new();
    assert_eq!(raw_type_from_schema(&Schema::String, &types), Ok(CsType::RawVec));
    assert_eq!(raw_type_from_schema(&Schema::Str, &types), Ok(CsType::RawSlice));
    assert_eq!(
        raw_type_from_schema(&Schema::Slice(Box::new(Schema::I32)), &types),
        Ok(CsType::RawSlice)
    );
    assert_eq!(raw_type_from_schema(&vec_of(Schema::I32), &types), Ok(CsType::RawVec));
}

#[test]
fn a_sequence_other_than_the_standard_vector_is_unsupported() {
    let types = Registry::new();
    let deque = Schema::Sequence(Box::new(Sequence {
        name: TypeName::new("VecDeque".to_string(), "alloc::collections".to_string()),
        element: Schema::I32,
    }));
    assert_eq!(
        raw_type_from_schema(&deque, &types),
        Err(ResolveError::Unsupported(UnsupportedKind::Sequence))
    );
    let impostor = Schema::Sequence(Box::new(Sequence {
        name: TypeName::new("Vec".to_string(), "mine".to_string()),
        element: Schema::I32,
    }));
    assert_eq!(
        raw_type_from_schema(&impostor, &types),
        Err(ResolveError::Unsupported(UnsupportedKind::Sequence))
    );
}

#[test]
fn unsupported_kinds_are_named() {
    let types = Registry::new();
    let array = Schema::Array(Box::new(Array { element: Schema::U8, len: 4 }));
    assert_eq!(
        raw_type_from_schema(&array, &types),
        Err(ResolveError::Unsupported(UnsupportedKind::Array))
    );
    assert_eq!(
        raw_type_from_schema(&Schema::Option(Box::new(Schema::U8)), &types),
        Err(ResolveError::Unsupported(UnsupportedKind::Optional))
    );
    assert_eq!(
        raw_type_from_schema(&Schema::Tuple(vec![Schema::U8, Schema::U8]), &types),
        Err(ResolveError::Unsupported(UnsupportedKind::Tuple))
    );
    let map = Schema::Mapping { key: Box::new(Schema::U8), value: Box::new(Schema::U8) };
    assert_eq!(
        raw_type_from_schema(&map, &types),
        Err(ResolveError::Unsupported(UnsupportedKind::Mapping))
    );
    assert_eq!(
        raw_type_from_schema(&Schema::I128, &types),
        Err(ResolveError::Unsupported(UnsupportedKind::WideInteger))
    );
    assert_eq!(
        raw_type_from_schema(&Schema::U128, &types),
        Err(ResolveError::Unsupported(UnsupportedKind::WideInteger))
    );
}

#[test]
fn an_unregistered_type_is_named_in_the_error() {
    let types = Registry::new();
    assert_eq!(
        raw_type_from_schema(&point(), &types),
        Err(ResolveError::UnresolvedType(name("Point")))
    );
    assert_eq!(
        raw_type_from_schema(&Schema::Enum(suit(None)), &types),
        Err(ResolveError::UnresolvedType(name("Suit")))
    );
    assert_eq!(
        raw_type_from_repr(&Repr::Named(name("Point")), &types),
        Err(ResolveError::UnresolvedType(name("Point")))
    );
}

#[test]
fn a_struct_by_value_is_its_raw_record() {
    let mut types = Registry::new();
    assert!(types.insert(named(name("Point"), BindingStyle::Value(point()), point())).is_ok());
    assert_eq!(
        raw_type_from_schema(&point(), &types),
        Ok(CsType::Global("__Point__Raw".to_string()))
    );
}

#[test]
fn a_handle_is_the_handle_pointer() {
    let mut types = Registry::new();
    assert!(types.insert(named(name("Point"), BindingStyle::Handle, point())).is_ok());
    assert!(types
        .insert(named(name("Shape"), BindingStyle::Handle, Schema::Enum(shape())))
        .is_ok());
    assert_eq!(raw_type_from_schema(&point(), &types), Ok(CsType::HandlePtr));
    assert_eq!(raw_type_from_schema(&Schema::Enum(shape()), &types), Ok(CsType::HandlePtr));
    assert_eq!(raw_type_from_repr(&Repr::Named(name("Point")), &types), Ok(CsType::HandlePtr));
}

#[test]
fn an_enum_by_value_is_its_discriminant_or_its_raw_record() {
    let mut types = Registry::new();
    let plain = || Schema::Enum(suit(Some(Primitive::U8)));
    assert!(types.insert(named(name("Suit"), BindingStyle::Value(plain()), plain())).is_ok());
    let data = || Schema::Enum(shape());
    assert!(types.insert(named(name("Shape"), BindingStyle::Value(data()), data())).is_ok());
    assert_eq!(raw_type_from_schema(&plain(), &types), Ok(CsType::Byte));
    assert_eq!(raw_type_from_schema(&Schema::Enum(suit(None)), &types), Ok(CsType::IntPtr));
    assert_eq!(
        raw_type_from_schema(&data(), &types),
        Ok(CsType::Global("__Shape__Raw".to_string()))
    );
}

#[test]
fn a_signature_type_resolves_through_the_registry() {
    let mut types = Registry::new();
    assert!(types.insert(named(name("Point"), BindingStyle::Value(point()), point())).is_ok());
    assert!(types
        .insert(named(name("Score"), BindingStyle::Value(Schema::U32), Schema::U32))
        .is_ok());
    assert_eq!(
        raw_type_from_repr(&Repr::Named(name("Point")), &types),
        Ok(CsType::Global("__Point__Raw".to_string()))
    );
    assert_eq!(raw_type_from_repr(&Repr::Named(name("Score")), &types), Ok(CsType::UInt));
    assert_eq!(raw_type_from_repr(&Repr::I16, &types), Ok(CsType::Short));
    assert_eq!(raw_type_from_repr(&Repr::Boxed(Box::new(Repr::I16)), &types), Ok(CsType::IntPtr));
    assert_eq!(raw_type_from_repr(&Repr::Ref(Box::new(Repr::Str)), &types), Ok(CsType::IntPtr));
    assert_eq!(raw_type_from_repr(&Repr::Vector(Box::new(Repr::U8)), &types), Ok(CsType::RawVec));
    assert_eq!(raw_type_from_repr(&Repr::Slice(Box::new(Repr::U8)), &types), Ok(CsType::RawSlice));
    assert_eq!(raw_type_from_repr(&Repr::String, &types), Ok(CsType::RawVec));
    assert_eq!(raw_type_from_repr(&Repr::Str, &types), Ok(CsType::RawSlice));
    assert_eq!(
        raw_type_from_repr(&Repr::Optional(Box::new(Repr::U8)), &types),
        Err(ResolveError::Unsupported(UnsupportedKind::Optional))
    );
    assert_eq!(
        raw_type_from_repr(&Repr::Array { element: Box::new(Repr::U8), len: 2 }, &types),
        Err(ResolveError::Unsupported(UnsupportedKind::Array))
    );
    assert_eq!(
        raw_type_from_repr(
            &Repr::Fallible { ok: Box::new(Repr::U8), err: Box::new(Repr::String) },
            &types
        ),
        Err(ResolveError::Unsupported(UnsupportedKind::Fallible))
    );
}

#[test]
fn the_registry_keeps_one_entry_for_each_type() {
    let mut types = Registry::new();
    assert_eq!(types.len(), 0);
    assert!(types.insert(named(name("Point"), BindingStyle::Handle, point())).is_ok());
    let second = types.insert(named(name("Point"), BindingStyle::Value(point()), point()));
    assert_eq!(second, Err(named(name("Point"), BindingStyle::Value(point()), point())));
    assert_eq!(types.len(), 1);
    assert!(types.contains(&name("Point")));
    assert!(!types.contains(&name("Line")));
    assert!(!types.contains(&TypeName::new("Point".to_string(), "other".to_string())));
    assert_eq!(types.get(&name("Point")).map(|entry| &entry.binding_style), Some(&BindingStyle::Handle));
    assert_eq!(types.get(&name("Line")), None);
}
