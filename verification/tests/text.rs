use cs_bindgen::basic::{
    basic_class, basic_wrapper, quote_binding_return_type, quote_class, quote_return_type,
    quote_wrapper_fn as quote_basic_wrapper_fn, ResultConversion,
};
use cs_bindgen::bindgen_fn::{BasicType, BindgenFn, Signature};
use cs_bindgen::binding::{quote_raw_binding, wrap_bindings};
use cs_bindgen::decl::{OverlayMember, OverlayUnion, RawRecord, TypedIdent, ValueType};
use cs_bindgen::enumeration::{quote_enum_binding, EnumMember, SimpleEnum};
use cs_bindgen::export::{BindingStyle, Export, FnArg, Func, NamedType};
use cs_bindgen::func::quote_wrapper_fn;
use cs_bindgen::registry::Registry;
use cs_bindgen::schema::{Enum, Field, Schema, Struct, StructKind, TypeName, Variant};
use cs_bindgen::strukt::quote_struct_binding;
use cs_bindgen::text::{write_fields, write_params, write_return_type};
use cs_bindgen::types::CsType;

fn name(name: &str) -> TypeName {
    TypeName::new(name.to_string(), "game".to_string())
}

fn typed(ty: CsType, ident: &str) -> TypedIdent {
    TypedIdent { ty, ident: ident.to_string() }
}

fn point() -> Struct {
    Struct {
        name: name("Point"),
        kind: StructKind::Named,
        fields: vec![
            Field { name: Some("x".to_string()), schema: Schema::I32 },
            Field { name: Some("y".to_string()), schema: Schema::I32 },
        ],
    }
}

fn named(identity: TypeName, binding_style: BindingStyle, schema: Schema) -> NamedType {
    NamedType {
        name: identity,
        binding_style,
        schema,
        index_fn: "index_point".to_string(),
        convert_list_fn: "convert_points".to_string(),
        drop_vec_fn: "drop_points".to_string(),
    }
}

fn registry() -> Registry {
    let mut types = Registry::new();
    let entry = named(
        name("Point"),
        BindingStyle::Value(Schema::Struct(point())),
        Schema::Struct(point()),
    );
    assert!(types.insert(entry).is_ok());
    types
}

fn described(ident: &str, output: Option<&str>) -> BindgenFn {
    BindgenFn::from_signature(&Signature {
        asyncness: false,
        ident: ident.to_string(),
        inputs: vec![],
        output: output.map(|o| o.to_string()),
    })
    .unwrap()
}

#[test]
fn parameters_are_separated_by_commas() {
    assert_eq!(write_params(&vec![]), "");
    assert_eq!(write_params(&vec![typed(CsType::Int, "a")]), "int a");
    assert_eq!(
        write_params(&vec![
            typed(CsType::Int, "a"),
            typed(CsType::RawSlice, "b"),
            typed(CsType::List(Box::new(CsType::Text)), "c"),
        ]),
        "int a, RawSlice b, List<string> c"
    );
    assert_eq!(typed(CsType::HandlePtr, "self").text(), "void* self");
    assert_eq!(write_fields(&vec![], "public"), "");
    assert_eq!(
        write_fields(&vec![typed(CsType::Int, "x"), typed(CsType::Byte, "y")], "internal"),
        "    internal int x;\n    internal byte y;\n"
    );
    assert_eq!(write_return_type(&None), "void");
    assert_eq!(write_return_type(&Some(CsType::Double)), "double");
}

#[test]
fn a_struct_is_written_as_a_type_and_a_raw_record() {
    let types = registry();
    let export = types.get(&name("Point")).unwrap();
    let binding = quote_struct_binding(export, &point(), &types).unwrap();
    assert_eq!(
        binding.text(),
        "public struct Point\n\
         {\n\
         \x20   public int x;\n\
         \x20   public int y;\n\
         }\n\
         [StructLayout(LayoutKind.Sequential)]\n\
         internal struct __Point__Raw\n\
         {\n\
         \x20   internal int x;\n\
         \x20   internal int y;\n\
         }\n"
    );
}

#[test]
fn records_and_unions_are_written_with_their_layout() {
    let record = RawRecord { name: "Empty__RawArg".to_string(), fields: vec![] };
    assert_eq!(
        record.text(),
        "[StructLayout(LayoutKind.Sequential)]\ninternal struct Empty__RawArg\n{\n}\n"
    );
    let value = ValueType {
        name: "Circle".to_string(),
        marker: Some("IShape".to_string()),
        fields: vec![typed(CsType::Double, "Element0")],
    };
    assert_eq!(
        value.text(),
        "public struct Circle : IShape\n{\n    public double Element0;\n}\n"
    );
    let union = OverlayUnion {
        name: "Shape__RawArg".to_string(),
        members: vec![
            OverlayMember {
                offset: 0,
                record: "Empty__RawArg".to_string(),
                ident: "Empty".to_string(),
            },
            OverlayMember {
                offset: 0,
                record: "Circle__RawArg".to_string(),
                ident: "Circle".to_string(),
            },
        ],
    };
    assert_eq!(
        union.text(),
        "[StructLayout(LayoutKind.Explicit)]\n\
         internal struct Shape__RawArg\n\
         {\n\
         \x20   [FieldOffset(0)]\n\
         \x20   internal Empty__RawArg Empty;\n\
         \x20   [FieldOffset(0)]\n\
         \x20   internal Circle__RawArg Circle;\n\
         }\n"
    );
}

#[test]
fn an_enum_is_written_with_its_declared_values() {
    let simple = SimpleEnum {
        name: "Letter".to_string(),
        members: vec![
            EnumMember { name: "A".to_string(), literal: None },
            EnumMember { name: "B".to_string(), literal: Some("5".to_string()) },
            EnumMember { name: "C".to_string(), literal: None },
        ],
        discriminant: CsType::IntPtr,
    };
    assert_eq!(simple.text(), "public enum Letter\n{\n    A,\n    B = 5,\n    C,\n}\n");
}

#[test]
fn an_enum_with_data_is_written_in_full() {
    let shape = Enum {
        name: name("Shape"),
        variants: vec![
            Variant::Unit { name: "Empty".to_string(), discriminant: None },
            Variant::Tuple {
                name: "Circle".to_string(),
                fields: vec![Field { name: None, schema: Schema::F64 }],
            },
        ],
        repr: None,
    };
    let types = registry();
    let export = named(name("Shape"), BindingStyle::Value(Schema::Unit), Schema::Unit);
    let binding = quote_enum_binding(&export, &shape, &types).unwrap();
    assert_eq!(
        binding.text(),
        "public interface IShape { }\n\
         public struct Empty : IShape\n{\n}\n\
         [StructLayout(LayoutKind.Sequential)]\ninternal struct Empty__RawArg\n{\n}\n\
         [StructLayout(LayoutKind.Sequential)]\ninternal struct Empty__RawReturn\n{\n}\n\
         public struct Circle : IShape\n{\n    public double Element0;\n}\n\
         [StructLayout(LayoutKind.Sequential)]\ninternal struct Circle__RawArg\n{\n    internal double Element0;\n}\n\
         [StructLayout(LayoutKind.Sequential)]\ninternal struct Circle__RawReturn\n{\n    internal double Element0;\n}\n\
         [StructLayout(LayoutKind.Explicit)]\ninternal struct Shape__RawArg\n{\n\
         \x20   [FieldOffset(0)]\n    internal Empty__RawArg Empty;\n\
         \x20   [FieldOffset(0)]\n    internal Circle__RawArg Circle;\n}\n\
         [StructLayout(LayoutKind.Explicit)]\ninternal struct Shape__RawReturn\n{\n\
         \x20   [FieldOffset(0)]\n    internal Empty__RawReturn Empty;\n\
         \x20   [FieldOffset(0)]\n    internal Circle__RawReturn Circle;\n}\n"
    );
}

#[test]
fn raw_bindings_are_written_inside_their_class() {
    let types = registry();
    let func = Export::Fn(Func {
        name: "f".to_string(),
        binding: "__cs_bindgen_generated__f".to_string(),
        inputs: vec![
            FnArg { name: "name".to_string(), schema: Schema::Str },
            FnArg { name: "at".to_string(), schema: Schema::Struct(point()) },
        ],
        output: Some(Schema::String),
    });
    let binding = quote_raw_binding(&func, "mahjong", &types).unwrap();
    let declaration = "[DllImport(\"mahjong\", EntryPoint = \"__cs_bindgen_generated__f\", \
                       CallingConvention = CallingConvention.Cdecl)]\n\
                       internal static extern RawVec __cs_bindgen_generated__f(RawSlice name, \
                       global::__Point__Raw at);\n";
    assert_eq!(binding.text(), declaration);
    let class = wrap_bindings(vec![binding]);
    assert_eq!(
        class.text(),
        format!("internal unsafe static partial class __bindings\n{{\n{}}}\n", declaration)
    );
    assert_eq!(
        wrap_bindings(vec![]).text(),
        "internal unsafe static partial class __bindings\n{\n}\n"
    );
}

#[test]
fn sequence_helpers_are_written_with_the_list_conversions() {
    let types = registry();
    let export = Export::Named(named(
        name("Point"),
        BindingStyle::Value(Schema::Struct(point())),
        Schema::Struct(point()),
    ));
    let text = quote_raw_binding(&export, "mahjong", &types).unwrap().text();
    let import = |entry: &str| {
        format!(
            "[DllImport(\"mahjong\", EntryPoint = \"{}\", CallingConvention = CallingConvention.Cdecl)]\n",
            entry
        )
    };
    let expected = [
        import("index_point"),
        "internal static extern global::__Point__Raw index_point(RawSlice slice, UIntPtr index);\n"
            .to_string(),
        import("convert_points"),
        "internal static extern RawVec convert_points(RawSlice raw);\n".to_string(),
        import("drop_points"),
        "internal static extern void drop_points(RawVec vec);\n".to_string(),
        "internal static void __FromRaw(RawVec raw, out List<Point> result)\n{\n".to_string(),
        "    result = raw.ToList<global::__Point__Raw, Point>(index_point, __FromRaw);\n"
            .to_string(),
        "    drop_points(raw);\n}\n".to_string(),
        "internal static void __IntoRaw(List<Point> items, out RawVec result)\n{\n".to_string(),
        "    result = RawVec.FromList(items, item => { __IntoRaw(item, out global::__Point__Raw raw); return raw; }, convert_points);\n}\n"
            .to_string(),
    ]
    .concat();
    assert_eq!(text, expected);
}

#[test]
fn a_wrapper_returns_after_the_pin_is_released() {
    let types = registry();
    let inputs = vec![FnArg { name: "name".to_string(), schema: Schema::Str }];
    let wrapper = quote_wrapper_fn(
        "f",
        "__cs_bindgen_generated__f",
        None,
        &inputs,
        Some(&Schema::String),
        &types,
    )
    .unwrap();
    assert_eq!(
        wrapper.text(),
        "public static string F(string name)\n\
         {\n\
         \x20   string __ret;\n\
         \x20   unsafe\n\
         \x20   {\n\
         fixed (char* __fixed_name = name)\n\
         {\n\
         __ret = __bindings.__FromRaw(__bindings.__cs_bindgen_generated__f(__bindings.__IntoRaw(name)));\n\
         }\n\
         \x20   }\n\
         \x20   return __ret;\n\
         }\n"
    );
}

#[test]
fn a_wrapper_without_output_declares_and_returns_nothing() {
    let types = registry();
    let inputs = vec![
        FnArg { name: "first".to_string(), schema: Schema::Str },
        FnArg { name: "n".to_string(), schema: Schema::U8 },
        FnArg { name: "rest".to_string(), schema: Schema::Slice(Box::new(Schema::U8)) },
    ];
    let wrapper =
        quote_wrapper_fn("send_all", "send", Some("_handle"), &inputs, None, &types).unwrap();
    assert_eq!(
        wrapper.text(),
        "public void SendAll(string first, byte n, List<byte> rest)\n\
         {\n\
         \x20   unsafe\n\
         \x20   {\n\
         fixed (char* __fixed_first = first)\n\
         {\n\
         fixed (void* __fixed_rest = rest)\n\
         {\n\
         __bindings.send(_handle, __bindings.__IntoRaw(first), __bindings.__IntoRaw(n), __bindings.__IntoRaw(rest));\n\
         }\n\
         }\n\
         \x20   }\n\
         }\n"
    );
}

#[test]
fn basic_types_map_to_their_return_types() {
    let table = vec![
        (BasicType::String, CsType::IntPtr, CsType::Text),
        (BasicType::Char, CsType::UInt, CsType::UInt),
        (BasicType::I8, CsType::SByte, CsType::SByte),
        (BasicType::I16, CsType::Short, CsType::Short),
        (BasicType::I32, CsType::Int, CsType::Int),
        (BasicType::I64, CsType::Long, CsType::Long),
        (BasicType::U8, CsType::Byte, CsType::Byte),
        (BasicType::U16, CsType::UShort, CsType::UShort),
        (BasicType::U32, CsType::UInt, CsType::UInt),
        (BasicType::U64, CsType::ULong, CsType::ULong),
        (BasicType::F32, CsType::Float, CsType::Float),
        (BasicType::F64, CsType::Double, CsType::Double),
        (BasicType::Bool, CsType::Byte, CsType::Bool),
    ];
    for (basic, raw, idiomatic) in table {
        assert_eq!(quote_binding_return_type(&Some(basic)), Some(raw));
        assert_eq!(quote_return_type(&Some(basic)), Some(idiomatic));
    }
    assert_eq!(quote_binding_return_type(&None), None);
    assert_eq!(quote_return_type(&None), None);
}

#[test]
fn the_wrapper_of_a_described_function_converts_its_result() {
    let tileset = described("generate_tileset_json", Some("String"));
    let wrapper = quote_basic_wrapper_fn(&tileset, "__GenerateTilesetJson");
    assert_eq!(wrapper.name, "GenerateTilesetJson");
    assert_eq!(wrapper.return_ty, Some(CsType::Text));
    assert_eq!(wrapper.raw_binding, "__GenerateTilesetJson");
    assert_eq!(wrapper.conversion, ResultConversion::Text);
    assert_eq!(
        quote_basic_wrapper_fn(&described("is_done", Some("bool")), "b").conversion,
        ResultConversion::Flag
    );
    assert_eq!(
        quote_basic_wrapper_fn(&described("count", Some("u32")), "b").conversion,
        ResultConversion::Plain
    );
    let nothing = quote_basic_wrapper_fn(&described("reset", None), "b");
    assert_eq!(nothing.conversion, ResultConversion::Nothing);
    assert_eq!(nothing.return_ty, None);
    assert_eq!(basic_wrapper("W".to_string(), &Some(BasicType::F32), "raw"), {
        let mut expected = quote_basic_wrapper_fn(&described("w", Some("f32")), "raw");
        expected.name = "W".to_string();
        expected
    });
}

#[test]
fn a_described_function_is_written_as_a_class() {
    let tileset = described("generate_tileset_json", Some("String"));
    let class = quote_class(&tileset, "mahjong");
    assert_eq!(class.name, "Mahjong");
    assert_eq!(class.entry_point, "__cs_bindgen_generated_generate_tileset_json");
    assert_eq!(class.raw_binding, "__GenerateTilesetJson");
    assert_eq!(class.binding_return_ty, Some(CsType::IntPtr));
    assert!(class.returns_length);
    assert_eq!(
        class.text(),
        "using System;\n\
         using System.Runtime.InteropServices;\n\
         using System.Text;\n\
         \n\
         public class Mahjong\n\
         {\n\
         \x20   [DllImport(\"mahjong\", EntryPoint = \"__cs_bindgen_generated_generate_tileset_json\", CallingConvention = CallingConvention.Cdecl)]\n\
         \x20   private static extern IntPtr __GenerateTilesetJson(out int length);\n\
         \n\
         \x20   [DllImport(\"mahjong\", EntryPoint = \"__cs_bindgen_drop_string\", CallingConvention = CallingConvention.Cdecl)]\n\
         \x20   private static extern void DropString(IntPtr raw);\n\
         \n\
         \x20   public static string GenerateTilesetJson()\n\
         \x20   {\n\
         \x20       var rawResult = __GenerateTilesetJson(out var length);\n\
         \x20       string result;\n\
         \x20       unsafe\n\
         \x20       {\n\
         \x20           result = Encoding.UTF8.GetString((byte*)rawResult, length);\n\
         \x20       }\n\
         \x20       DropString(rawResult);\n\
         \x20       return result;\n\
         \x20   }\n\
         }\n"
    );
    let count = basic_class(
        &described("count", Some("u32")),
        "lib",
        "Lib".to_string(),
        "Count".to_string(),
    );
    assert!(!count.returns_length);
    assert!(count.text().contains("    private static extern uint __Count();\n"));
    assert!(count.text().contains(
        "    public static uint Count()\n    {\n        var rawResult = __Count();\n        return rawResult;\n    }\n"
    ));
    let flag = quote_class(&described("is_done", Some("bool")), "lib");
    assert!(flag.text().contains("    private static extern byte __IsDone();\n"));
    assert!(flag.text().contains(
        "    public static bool IsDone()\n    {\n        var rawResult = __IsDone();\n        return rawResult != 0;\n    }\n"
    ));
    let reset = quote_class(&described("reset", None), "lib");
    assert!(reset.text().contains("    private static extern void __Reset();\n"));
    assert!(reset.text().contains("    public static void Reset()\n    {\n        __Reset();\n    }\n"));
}
