//! Declarations for exported enums.

use vstd::prelude::*;
use crate::collect::{
    lemma_try_map_empty, lemma_try_map_error_stays, lemma_try_map_ok, lemma_try_map_step, try_map,
};
use crate::decl::{
    clone_typed_idents, OverlayMember, OverlayMemberView, OverlayUnion, OverlayUnionView,
    RawRecord, RawRecordView, ValueType, ValueTypeView,
};
use crate::error::{result_view, FieldErrorView, GenError, GenErrorView, Place};
use crate::export::{BindingStyle, NamedType, NamedTypeView};
use crate::literal::{discriminant_literal, discriminant_of};
use crate::naming::{prefixed, suffixed};
use crate::registry::Registry;
use crate::schema::{
    fields_view, text_view, variants_view, Enum, EnumView, Field, Primitive,
    TypeNameView, Variant, VariantView,
};
use crate::strukt::{
    cs_fields_of, lemma_typed_fields, raw_fields_of, raw_struct_fields, struct_fields,
};
use crate::types::{CsType, CsTypeView};

verus! {

/// The C# integer type of the same width and signedness.
pub open spec fn primitive_type(primitive: Primitive) -> CsTypeView {
    match primitive {
        Primitive::I8 => CsTypeView::SByte,
        Primitive::I16 => CsTypeView::Short,
        Primitive::I32 => CsTypeView::Int,
        Primitive::I64 => CsTypeView::Long,
        Primitive::ISize => CsTypeView::IntPtr,
        Primitive::U8 => CsTypeView::Byte,
        Primitive::U16 => CsTypeView::UShort,
        Primitive::U32 => CsTypeView::UInt,
        Primitive::U64 => CsTypeView::ULong,
        Primitive::USize => CsTypeView::UIntPtr,
    }
}

/// The type in which the discriminant of an enum crosses the boundary: the
/// representation that the enum declares, and a pointer-sized integer where
/// it declares none.
pub open spec fn discriminant_type(schema: EnumView) -> CsTypeView {
    match schema.repr {
        Some(primitive) => primitive_type(primitive),
        None => CsTypeView::IntPtr,
    }
}

/// The C# integer type of the same width and signedness.
pub fn quote_primitive_type(primitive: Primitive) -> (r: CsType)
    ensures
        r@ == primitive_type(primitive),
{
    match primitive {
        Primitive::I8 => CsType::SByte,
        Primitive::I16 => CsType::Short,
        Primitive::I32 => CsType::Int,
        Primitive::I64 => CsType::Long,
        Primitive::ISize => CsType::IntPtr,
        Primitive::U8 => CsType::Byte,
        Primitive::U16 => CsType::UShort,
        Primitive::U32 => CsType::UInt,
        Primitive::U64 => CsType::ULong,
        Primitive::USize => CsType::UIntPtr,
    }
}

/// The type of the raw discriminant of the given enum.
pub fn quote_discriminant_type(schema: &Enum) -> (r: CsType)
    ensures
        r@ == discriminant_type(schema@),
{
    match schema.repr {
        Some(primitive) => quote_primitive_type(primitive),
        None => CsType::IntPtr,
    }
}

/// The name of the interface that stands for "any variant" of the enum of
/// the given name.
pub open spec fn marker_name(name: Seq<char>) -> Seq<char> {
    "I"@ + name
}

/// The name of the overlay union that `RawEnum` is applied to for the enum
/// of the given name.
pub open spec fn raw_union_name(name: Seq<char>) -> Seq<char> {
    name + "__Raw"@
}

/// The idiomatic type of a value of the given enum: its marker interface
/// where the enum carries data and is marshaled by value, and the type
/// declared under the enum's own name otherwise.
pub open spec fn enum_type_reference(export: NamedTypeView, schema: EnumView) -> CsTypeView {
    if export.binding_style is Value && schema.has_data() {
        CsTypeView::Named(marker_name(export.name.name))
    } else {
        CsTypeView::Named(export.name.name)
    }
}

/// The raw type of a value of the given enum: the handle pointer for a
/// handle, the discriminant type for a plain list of discriminants, and the
/// tagged overlay union for an enum that carries data.
pub open spec fn enum_raw_type_reference(export: NamedTypeView, schema: EnumView) -> CsTypeView {
    if export.binding_style is Handle {
        CsTypeView::HandlePtr
    } else if schema.has_data() {
        CsTypeView::RawEnum(raw_union_name(export.name.name))
    } else {
        discriminant_type(schema)
    }
}

/// The idiomatic type of a value of the exported enum.
pub fn quote_type_reference(export: &NamedType, schema: &Enum) -> (r: CsType)
    ensures
        r@ == enum_type_reference(export@, schema@),
{
    let by_value = match export.binding_style {
        BindingStyle::Value(_) => true,
        BindingStyle::Handle => false,
    };
    if by_value && schema.has_data() {
        CsType::Named(prefixed("I", export.name.name.as_str()))
    } else {
        CsType::Named(export.name.name.clone())
    }
}

/// The raw type of a value of the exported enum.
pub fn quote_raw_type_reference(export: &NamedType, schema: &Enum) -> (r: CsType)
    ensures
        r@ == enum_raw_type_reference(export@, schema@),
{
    match export.binding_style {
        BindingStyle::Value(_) => {
            if schema.has_data() {
                CsType::RawEnum(suffixed(export.name.name.as_str(), "__Raw"))
            } else {
                quote_discriminant_type(schema)
            }
        },
        BindingStyle::Handle => CsType::HandlePtr,
    }
}

/// The declarations generated for one variant of an enum that carries
/// data: the idiomatic type of its values and the raw records in which they
/// are passed to and returned from the native side.
#[derive(Debug, PartialEq, Eq, Hash)]
pub struct VariantBinding {
    pub idiomatic: ValueType,
    pub arg_record: RawRecord,
    pub return_record: RawRecord,
}

/// The view of [`VariantBinding`].
pub struct VariantBindingView {
    pub idiomatic: ValueTypeView,
    pub arg_record: RawRecordView,
    pub return_record: RawRecordView,
}

impl View for VariantBinding {
    type V = VariantBindingView;

    open spec fn view(&self) -> VariantBindingView {
        VariantBindingView {
            idiomatic: self.idiomatic@,
            arg_record: self.arg_record@,
            return_record: self.return_record@,
        }
    }
}

/// The declarations generated for an enum that carries data.
#[derive(Debug, PartialEq, Eq, Hash)]
pub struct ComplexEnum {
    /// The interface that every variant's type implements.
    pub marker: String,
    pub variants: Vec<VariantBinding>,
    /// The union of the variants' records for arguments.
    pub arg_union: OverlayUnion,
    /// The union of the variants' records for return values.
    pub return_union: OverlayUnion,
}

/// The view of [`ComplexEnum`].
pub struct ComplexEnumView {
    pub marker: Seq<char>,
    pub variants: Seq<VariantBindingView>,
    pub arg_union: OverlayUnionView,
    pub return_union: OverlayUnionView,
}

impl View for ComplexEnum {
    type V = ComplexEnumView;

    open spec fn view(&self) -> ComplexEnumView {
        ComplexEnumView {
            marker: self.marker@,
            variants: variant_bindings_view(self.variants@),
            arg_union: self.arg_union@,
            return_union: self.return_union@,
        }
    }
}

/// The views of the items of a list, in order.
pub open spec fn variant_bindings_view(variants: Seq<VariantBinding>) -> Seq<VariantBindingView> {
    Seq::new(variants.len(), |i: int| variants[i]@)
}

/// What is appended to a name for the record, or the union, of the
/// argument direction.
pub open spec fn arg_suffix() -> Seq<char> {
    "__RawArg"@
}

/// What is appended to a name for the record, or the union, of the return
/// direction.
pub open spec fn return_suffix() -> Seq<char> {
    "__RawReturn"@
}

/// A failure at a field of the variant at position `variant`, as the
/// failure of the enum.
pub open spec fn at_variant_field<T>(variant: int, result: Result<T, FieldErrorView>) -> Result<
    T,
    GenErrorView,
> {
    match result {
        Ok(value) => Ok(value),
        Err(error) => Err(
            GenErrorView::Resolve {
                place: Place::VariantField { variant: variant as usize, field: error.index },
                cause: error.cause,
            },
        ),
    }
}

/// The declarations of one variant: a value type under the variant's name
/// that implements `marker`, and the two raw records, all three with one
/// field for each field of the variant.
pub open spec fn variant_binding_of(
    marker: Seq<char>,
    variant: VariantView,
    index: int,
    types: Map<TypeNameView, NamedTypeView>,
) -> Result<VariantBindingView, GenErrorView> {
    match at_variant_field(index, cs_fields_of(variant.fields(), types)) {
        Err(error) => Err(error),
        Ok(fields) => match at_variant_field(index, raw_fields_of(variant.fields(), types)) {
            Err(error) => Err(error),
            Ok(raw_fields) => Ok(
                VariantBindingView {
                    idiomatic: ValueTypeView {
                        name: variant.name(),
                        marker: Some(marker),
                        fields,
                    },
                    arg_record: RawRecordView {
                        name: variant.name() + arg_suffix(),
                        fields: raw_fields,
                    },
                    return_record: RawRecordView {
                        name: variant.name() + return_suffix(),
                        fields: raw_fields,
                    },
                },
            ),
        },
    }
}

/// `variant_binding_of`, as a function of the position and the variant.
pub open spec fn variant_binding_fn(
    marker: Seq<char>,
    types: Map<TypeNameView, NamedTypeView>,
) -> spec_fn(int, VariantView) -> Result<VariantBindingView, GenErrorView> {
    |index: int, variant: VariantView| variant_binding_of(marker, variant, index, types)
}

/// The union that overlays the records of all variants: one member for
/// each variant, in declaration order, every one at offset 0.
pub open spec fn overlay_of(name: Seq<char>, variants: Seq<VariantView>, suffix: Seq<char>)
    -> OverlayUnionView {
    OverlayUnionView {
        name: name + suffix,
        members: Seq::new(
            variants.len(),
            |i: int|
                OverlayMemberView {
                    offset: 0,
                    record: variants[i].name() + suffix,
                    ident: variants[i].name(),
                },
        ),
    }
}

/// The declarations of the enum `schema`, exported as `export`. An enum
/// that is marshaled as a handle has none; otherwise the first variant with
/// a field whose type does not resolve decides the error.
pub open spec fn complex_enum_of(
    export: NamedTypeView,
    schema: EnumView,
    types: Map<TypeNameView, NamedTypeView>,
) -> Result<ComplexEnumView, GenErrorView> {
    if export.binding_style is Handle {
        Err(GenErrorView::HandleWithData(export.name))
    } else {
        match try_map(
            schema.variants,
            variant_binding_fn(marker_name(export.name.name), types),
        ) {
            Err(error) => Err(error),
            Ok(variants) => Ok(
                ComplexEnumView {
                    marker: marker_name(export.name.name),
                    variants,
                    arg_union: overlay_of(export.name.name, schema.variants, arg_suffix()),
                    return_union: overlay_of(export.name.name, schema.variants, return_suffix()),
                },
            ),
        }
    }
}

/// For an enum with any number of variants that has declarations, each of
/// the two unions has one member for each variant, in declaration order,
/// every member lies at offset 0 and is the record of its variant for that
/// direction; and there is one value type for each variant, in declaration
/// order, each of which implements the enum's marker interface.
pub proof fn lemma_overlay_unions(
    export: NamedTypeView,
    schema: EnumView,
    types: Map<TypeNameView, NamedTypeView>,
)
    requires
        complex_enum_of(export, schema, types) is Ok,
    ensures
        ({
            let binding = complex_enum_of(export, schema, types)->Ok_0;
            let n = schema.variants.len();
            &&& binding.variants.len() == n
            &&& binding.arg_union.members.len() == n
            &&& binding.return_union.members.len() == n
            &&& binding.arg_union.all_at_base()
            &&& binding.return_union.all_at_base()
            &&& forall|i: int|
                0 <= i < n ==> {
                    let variant = #[trigger] binding.variants[i];
                    &&& variant.idiomatic.name == schema.variants[i].name()
                    &&& variant.idiomatic.marker == Some(binding.marker)
                    &&& variant.idiomatic.fields.len() == schema.variants[i].fields().len()
                    &&& variant.arg_record.fields.len() == schema.variants[i].fields().len()
                    &&& variant.return_record.fields == variant.arg_record.fields
                    &&& variant.arg_record.is_raw()
                    &&& binding.arg_union.members[i].record == variant.arg_record.name
                    &&& binding.arg_union.members[i].ident == variant.idiomatic.name
                    &&& binding.return_union.members[i].record == variant.return_record.name
                    &&& binding.return_union.members[i].ident == variant.idiomatic.name
                }
        }),
{
    let marker = marker_name(export.name.name);
    let f = variant_binding_fn(marker, types);
    lemma_try_map_ok(schema.variants, f);
    let binding = complex_enum_of(export, schema, types)->Ok_0;
    assert forall|i: int| 0 <= i < schema.variants.len() implies {
        let variant = #[trigger] binding.variants[i];
        &&& variant.idiomatic.name == schema.variants[i].name()
        &&& variant.idiomatic.marker == Some(binding.marker)
        &&& variant.idiomatic.fields.len() == schema.variants[i].fields().len()
        &&& variant.arg_record.fields.len() == schema.variants[i].fields().len()
        &&& variant.return_record.fields == variant.arg_record.fields
        &&& variant.arg_record.is_raw()
        &&& binding.arg_union.members[i].record == variant.arg_record.name
        &&& binding.arg_union.members[i].ident == variant.idiomatic.name
        &&& binding.return_union.members[i].record == variant.return_record.name
        &&& binding.return_union.members[i].ident == variant.idiomatic.name
    } by {
        assert(f(i, schema.variants[i]) == Ok::<VariantBindingView, GenErrorView>(
            binding.variants[i],
        ));
        let fields = schema.variants[i].fields();
        lemma_typed_fields(fields, types, true);
        lemma_typed_fields(fields, types, false);
    }
}

fn variant_binding(marker: &String, variant: &Variant, index: usize, types: &Registry) -> (r:
    Result<VariantBinding, GenError>)
    ensures
        result_view(r) == variant_binding_of(marker@, variant@, index as int, types@),
{
    let none: Vec<Field> = Vec::new();
    let declared = match variant.fields() {
        Some(fields) => fields,
        None => {
            assert(fields_view(none) =~= variant@.fields());
            &none
        },
    };
    let fields = match struct_fields(declared, types) {
        Ok(fields) => fields,
        Err(error) => {
            return Err(
                GenError::Resolve {
                    place: Place::VariantField { variant: index, field: error.index },
                    cause: error.cause,
                },
            );
        },
    };
    let arg_fields = match raw_struct_fields(declared, types) {
        Ok(fields) => fields,
        Err(error) => {
            return Err(
                GenError::Resolve {
                    place: Place::VariantField { variant: index, field: error.index },
                    cause: error.cause,
                },
            );
        },
    };
    let return_fields = clone_typed_idents(&arg_fields);
    let name = variant.name();
    Ok(
        VariantBinding {
            idiomatic: ValueType { name: name.clone(), marker: Some(marker.clone()), fields },
            arg_record: RawRecord { name: suffixed(name.as_str(), "__RawArg"), fields: arg_fields },
            return_record: RawRecord {
                name: suffixed(name.as_str(), "__RawReturn"),
                fields: return_fields,
            },
        },
    )
}

fn overlay_union(name: &String, variants: &Vec<Variant>, suffix: &str) -> (r: OverlayUnion)
    ensures
        r@ == overlay_of(name@, variants_view(*variants), suffix@),
{
    let mut members: Vec<OverlayMember> = Vec::new();
    let mut i: usize = 0;
    while i < variants.len()
        invariant
            i <= variants.len(),
            members.len() == i,
            forall|j: int|
                0 <= j < i ==> (#[trigger] members@[j])@ == (OverlayMemberView {
                    offset: 0,
                    record: variants@[j]@.name() + suffix@,
                    ident: variants@[j]@.name(),
                }),
        decreases variants.len() - i,
    {
        let variant_name = variants[i].name();
        members.push(
            OverlayMember {
                offset: 0,
                record: suffixed(variant_name.as_str(), suffix),
                ident: variant_name.clone(),
            },
        );
        i += 1;
    }
    let r = OverlayUnion { name: suffixed(name.as_str(), suffix), members };
    assert(r@.members =~= overlay_of(name@, variants_view(*variants), suffix@).members);
    r
}

/// Generates the declarations of an enum whose variants carry data.
///
/// There is an interface for the enum as a whole, a value type and two raw
/// records for each variant, and two unions that overlay the variants'
/// records, one for each direction. Such an enum can only be marshaled by
/// value.
pub fn quote_complex_enum_binding(export: &NamedType, schema: &Enum, types: &Registry) -> (r:
    Result<ComplexEnum, GenError>)
    ensures
        result_view(r) == complex_enum_of(export@, schema@, types@),
{
    match export.binding_style {
        BindingStyle::Handle => {
            return Err(GenError::HandleWithData(export.name.clone()));
        },
        BindingStyle::Value(_) => {},
    }
    let marker = prefixed("I", export.name.name.as_str());
    let ghost all = variants_view(schema.variants);
    let ghost f = variant_binding_fn(marker@, types@);
    let mut variants: Vec<VariantBinding> = Vec::new();
    let mut i: usize = 0;
    proof {
        lemma_try_map_empty(all.take(0), f);
        assert(variant_bindings_view(variants@) =~= Seq::<VariantBindingView>::empty());
    }
    while i < schema.variants.len()
        invariant
            i <= schema.variants.len(),
            variants.len() == i,
            all == variants_view(schema.variants),
            f == variant_binding_fn(marker@, types@),
            marker@ == marker_name(export@.name.name),
            export@.binding_style is Value,
            try_map(all.take(i as int), f) == Ok::<Seq<VariantBindingView>, GenErrorView>(
                variant_bindings_view(variants@),
            ),
        decreases schema.variants.len() - i,
    {
        proof {
            lemma_try_map_step(all, f, i as int);
        }
        match variant_binding(&marker, &schema.variants[i], i, types) {
            Err(error) => {
                proof {
                    lemma_try_map_error_stays(all, f, i + 1);
                }
                return Err(error);
            },
            Ok(binding) => {
                let ghost before = variant_bindings_view(variants@);
                variants.push(binding);
                assert(variant_bindings_view(variants@) =~= before.push(variants@[i as int]@));
            },
        }
        i += 1;
    }
    assert(all.take(i as int) =~= all);
    let arg_union = overlay_union(&export.name.name, &schema.variants, "__RawArg");
    let return_union = overlay_union(&export.name.name, &schema.variants, "__RawReturn");
    Ok(ComplexEnum { marker, variants, arg_union, return_union })
}

/// One member of a C# enum. `literal` is the value it is declared with;
/// a member without one continues from the member before it, and the first
/// member from zero.
#[derive(Debug, PartialEq, Eq, Hash)]
pub struct EnumMember {
    pub name: String,
    pub literal: Option<String>,
}

/// The view of [`EnumMember`].
pub struct EnumMemberView {
    pub name: Seq<char>,
    pub literal: Option<Seq<char>>,
}

impl View for EnumMember {
    type V = EnumMemberView;

    open spec fn view(&self) -> EnumMemberView {
        EnumMemberView { name: self.name@, literal: text_view(self.literal) }
    }
}

/// The C# enum generated for an enum without data.
#[derive(Debug, PartialEq, Eq, Hash)]
pub struct SimpleEnum {
    pub name: String,
    pub members: Vec<EnumMember>,
    /// The integer type in which a value of the enum crosses the boundary.
    pub discriminant: CsType,
}

/// The view of [`SimpleEnum`].
pub struct SimpleEnumView {
    pub name: Seq<char>,
    pub members: Seq<EnumMemberView>,
    pub discriminant: CsTypeView,
}

/// The views of the items of a list, in order.
pub open spec fn enum_members_view(members: Seq<EnumMember>) -> Seq<EnumMemberView> {
    Seq::new(members.len(), |i: int| members[i]@)
}

impl View for SimpleEnum {
    type V = SimpleEnumView;

    open spec fn view(&self) -> SimpleEnumView {
        SimpleEnumView {
            name: self.name@,
            members: enum_members_view(self.members@),
            discriminant: self.discriminant@,
        }
    }
}

/// The member for a variant declared with the discriminant `declared`,
/// where `parsed` is the literal that was read from it.
pub open spec fn explicit_member(
    name: Seq<char>,
    declared: Seq<char>,
    index: int,
    parsed: Option<Seq<char>>,
) -> Result<EnumMemberView, GenErrorView> {
    match parsed {
        Some(literal) => Ok(EnumMemberView { name, literal: Some(literal) }),
        None => Err(GenErrorView::MalformedDiscriminant { variant: index as usize, text: declared }),
    }
}

/// The member for the variant at position `index`. A variant with fields
/// has none, nor has one whose discriminant is not an integer literal.
pub open spec fn simple_member_of(variant: VariantView, index: int) -> Result<
    EnumMemberView,
    GenErrorView,
> {
    match variant {
        VariantView::Unit { name, discriminant: None } => Ok(
            EnumMemberView { name, literal: None },
        ),
        VariantView::Unit { name, discriminant: Some(declared) } => explicit_member(
            name,
            declared,
            index,
            discriminant_of(declared),
        ),
        _ => Err(GenErrorView::NonUnitVariant(index as usize)),
    }
}

/// `simple_member_of`, as a function of the position and the variant.
pub open spec fn simple_member_fn() -> spec_fn(int, VariantView) -> Result<
    EnumMemberView,
    GenErrorView,
> {
    |index: int, variant: VariantView| simple_member_of(variant, index)
}

/// The C# enum for the enum `schema`, exported as `export`: one member for
/// each variant, in declaration order, and the type of the discriminant.
/// The first variant that has no member decides the error.
pub open spec fn simple_enum_of(export: NamedTypeView, schema: EnumView) -> Result<
    SimpleEnumView,
    GenErrorView,
> {
    match try_map(schema.variants, simple_member_fn()) {
        Err(error) => Err(error),
        Ok(members) => Ok(
            SimpleEnumView {
                name: export.name.name,
                members,
                discriminant: discriminant_type(schema),
            },
        ),
    }
}

/// The member for a variant named `name` that was declared with the
/// discriminant `declared`, given the literal that was read from it.
pub fn member_with_literal(name: &String, declared: &String, index: usize, parsed: Option<String>)
    -> (r: Result<EnumMember, GenError>)
    ensures
        result_view(r) == explicit_member(name@, declared@, index as int, text_view(parsed)),
{
    match parsed {
        Some(literal) => Ok(EnumMember { name: name.clone(), literal: Some(literal) }),
        None => Err(GenError::MalformedDiscriminant { variant: index, text: declared.clone() }),
    }
}

/// The member for the variant at position `index`.
pub fn simple_enum_member(variant: &Variant, index: usize) -> (r: Result<EnumMember, GenError>)
    ensures
        result_view(r) == simple_member_of(variant@, index as int),
{
    match variant {
        Variant::Unit { name, discriminant } => {
            match discriminant {
                None => Ok(EnumMember { name: name.clone(), literal: None }),
                Some(declared) => {
                    let parsed = discriminant_literal(declared.as_str());
                    member_with_literal(name, declared, index, parsed)
                },
            }
        },
        _ => Err(GenError::NonUnitVariant(index)),
    }
}

/// Generates the C# enum for an enum without data.
///
/// Explicit discriminants are carried over as literals; the other members
/// are left to C#'s numbering, which continues from the member before.
pub fn quote_simple_enum_binding(export: &NamedType, schema: &Enum) -> (r: Result<
    SimpleEnum,
    GenError,
>)
    ensures
        result_view(r) == simple_enum_of(export@, schema@),
{
    let ghost all = variants_view(schema.variants);
    let ghost f = simple_member_fn();
    let mut members: Vec<EnumMember> = Vec::new();
    let mut i: usize = 0;
    proof {
        lemma_try_map_empty(all.take(0), f);
        assert(enum_members_view(members@) =~= Seq::<EnumMemberView>::empty());
    }
    while i < schema.variants.len()
        invariant
            i <= schema.variants.len(),
            members.len() == i,
            all == variants_view(schema.variants),
            f == simple_member_fn(),
            try_map(all.take(i as int), f) == Ok::<Seq<EnumMemberView>, GenErrorView>(
                enum_members_view(members@),
            ),
        decreases schema.variants.len() - i,
    {
        proof {
            lemma_try_map_step(all, f, i as int);
        }
        match simple_enum_member(&schema.variants[i], i) {
            Err(error) => {
                proof {
                    lemma_try_map_error_stays(all, f, i + 1);
                }
                return Err(error);
            },
            Ok(member) => {
                let ghost before = enum_members_view(members@);
                members.push(member);
                assert(enum_members_view(members@) =~= before.push(members@[i as int]@));
            },
        }
        i += 1;
    }
    assert(all.take(i as int) =~= all);
    Ok(
        SimpleEnum {
            name: export.name.name.clone(),
            members,
            discriminant: quote_discriminant_type(schema),
        },
    )
}

/// The declarations generated for an exported enum.
#[derive(Debug, PartialEq, Eq, Hash)]
pub enum EnumBinding {
    Simple(SimpleEnum),
    Complex(ComplexEnum),
}

/// The view of [`EnumBinding`].
pub enum EnumBindingView {
    Simple(SimpleEnumView),
    Complex(ComplexEnumView),
}

impl View for EnumBinding {
    type V = EnumBindingView;

    open spec fn view(&self) -> EnumBindingView {
        match self {
            EnumBinding::Simple(simple) => EnumBindingView::Simple(simple@),
            EnumBinding::Complex(complex) => EnumBindingView::Complex(complex@),
        }
    }
}

/// The declarations of an exported enum: those of `complex_enum_of` where
/// some variant carries data, those of `simple_enum_of` where none does.
pub open spec fn enum_binding_of(
    export: NamedTypeView,
    schema: EnumView,
    types: Map<TypeNameView, NamedTypeView>,
) -> Result<EnumBindingView, GenErrorView> {
    if schema.has_data() {
        match complex_enum_of(export, schema, types) {
            Ok(complex) => Ok(EnumBindingView::Complex(complex)),
            Err(error) => Err(error),
        }
    } else {
        match simple_enum_of(export, schema) {
            Ok(simple) => Ok(EnumBindingView::Simple(simple)),
            Err(error) => Err(error),
        }
    }
}

/// Generates the declarations of an exported enum.
pub fn quote_enum_binding(export: &NamedType, schema: &Enum, types: &Registry) -> (r: Result<
    EnumBinding,
    GenError,
>)
    ensures
        result_view(r) == enum_binding_of(export@, schema@, types@),
{
    if schema.has_data() {
        match quote_complex_enum_binding(export, schema, types) {
            Ok(complex) => Ok(EnumBinding::Complex(complex)),
            Err(error) => Err(error),
        }
    } else {
        match quote_simple_enum_binding(export, schema) {
            Ok(simple) => Ok(EnumBinding::Simple(simple)),
            Err(error) => Err(error),
        }
    }
}

} // verus!
