//! From a type's description to the C# type that user-facing code sees.

use vstd::prelude::*;
use crate::enumeration::{enum_type_reference, quote_type_reference};
use crate::error::{result_view, ResolveError, ResolveErrorView, UnsupportedKind};
use crate::export::NamedTypeView;
use crate::registry::Registry;
use crate::resolve::is_std_vec;
use crate::schema::{Schema, SchemaView, TypeNameView};
use crate::types::{CsType, CsTypeView};

verus! {

/// The list type of a resolved element type.
pub open spec fn list_of(element: Result<CsTypeView, ResolveErrorView>) -> Result<
    CsTypeView,
    ResolveErrorView,
> {
    match element {
        Ok(ty) => Ok(CsTypeView::List(Box::new(ty))),
        Err(error) => Err(error),
    }
}

/// The idiomatic type of a value described by `schema`, or the reason it
/// has none.
///
/// `()` is `void`, which is only meaningful for a return value. Text of
/// either kind is a `string`; a vector or a slice is a `List` of the
/// idiomatic type of its elements. A named type must be registered and is
/// referred to by name, an enum that carries data by its marker interface.
pub open spec fn cs_type_of_schema(
    schema: SchemaView,
    types: Map<TypeNameView, NamedTypeView>,
) -> Result<CsTypeView, ResolveErrorView>
    decreases schema,
{
    match schema {
        SchemaView::Unit => Ok(CsTypeView::Void),
        SchemaView::Bool => Ok(CsTypeView::Bool),
        SchemaView::Char => Ok(CsTypeView::UInt),
        SchemaView::I8 => Ok(CsTypeView::SByte),
        SchemaView::I16 => Ok(CsTypeView::Short),
        SchemaView::I32 => Ok(CsTypeView::Int),
        SchemaView::I64 => Ok(CsTypeView::Long),
        SchemaView::ISize => Ok(CsTypeView::IntPtr),
        SchemaView::U8 => Ok(CsTypeView::Byte),
        SchemaView::U16 => Ok(CsTypeView::UShort),
        SchemaView::U32 => Ok(CsTypeView::UInt),
        SchemaView::U64 => Ok(CsTypeView::ULong),
        SchemaView::USize => Ok(CsTypeView::UIntPtr),
        SchemaView::F32 => Ok(CsTypeView::Float),
        SchemaView::F64 => Ok(CsTypeView::Double),
        SchemaView::I128 => Err(ResolveErrorView::Unsupported(UnsupportedKind::WideInteger)),
        SchemaView::U128 => Err(ResolveErrorView::Unsupported(UnsupportedKind::WideInteger)),
        SchemaView::String => Ok(CsTypeView::Text),
        SchemaView::Str => Ok(CsTypeView::Text),
        SchemaView::Slice(element) => list_of(cs_type_of_schema(*element, types)),
        SchemaView::Sequence(sequence) => if is_std_vec(sequence.name) {
            list_of(cs_type_of_schema(sequence.element, types))
        } else {
            Err(ResolveErrorView::Unsupported(UnsupportedKind::Sequence))
        },
        SchemaView::Struct(s) => if types.dom().contains(s.name) {
            Ok(CsTypeView::Named(s.name.name))
        } else {
            Err(ResolveErrorView::UnresolvedType(s.name))
        },
        SchemaView::Enum(e) => if types.dom().contains(e.name) {
            Ok(enum_type_reference(types[e.name], e))
        } else {
            Err(ResolveErrorView::UnresolvedType(e.name))
        },
        SchemaView::Array(_) => Err(ResolveErrorView::Unsupported(UnsupportedKind::Array)),
        SchemaView::Option(_) => Err(ResolveErrorView::Unsupported(UnsupportedKind::Optional)),
        SchemaView::Tuple(_) => Err(ResolveErrorView::Unsupported(UnsupportedKind::Tuple)),
        SchemaView::Mapping { .. } => Err(ResolveErrorView::Unsupported(UnsupportedKind::Mapping)),
    }
}

/// Whether the schema is that of a struct or an enum that is not
/// registered, or of a sequence or a slice of such values, however deep.
pub open spec fn mentions_unregistered(
    schema: SchemaView,
    types: Map<TypeNameView, NamedTypeView>,
) -> bool
    decreases schema,
{
    match schema {
        SchemaView::Struct(s) => !types.dom().contains(s.name),
        SchemaView::Enum(e) => !types.dom().contains(e.name),
        SchemaView::Slice(element) => mentions_unregistered(*element, types),
        SchemaView::Sequence(sequence) => mentions_unregistered(sequence.element, types),
        _ => false,
    }
}

/// A type that mentions a struct or an enum that is not registered has no
/// idiomatic type.
pub proof fn lemma_unregistered_has_no_cs_type(
    schema: SchemaView,
    types: Map<TypeNameView, NamedTypeView>,
)
    requires
        mentions_unregistered(schema, types),
    ensures
        cs_type_of_schema(schema, types) is Err,
    decreases schema,
{
    match schema {
        SchemaView::Slice(element) => {
            lemma_unregistered_has_no_cs_type(*element, types);
        },
        SchemaView::Sequence(sequence) => {
            lemma_unregistered_has_no_cs_type(sequence.element, types);
        },
        _ => {},
    }
}

/// The idiomatic type of a value described by `schema`.
pub fn quote_cs_type(schema: &Schema, types: &Registry) -> (r: Result<CsType, ResolveError>)
    ensures
        result_view(r) == cs_type_of_schema(schema@, types@),
    decreases schema,
{
    match schema {
        Schema::Unit => Ok(CsType::Void),
        Schema::Bool => Ok(CsType::Bool),
        Schema::Char => Ok(CsType::UInt),
        Schema::I8 => Ok(CsType::SByte),
        Schema::I16 => Ok(CsType::Short),
        Schema::I32 => Ok(CsType::Int),
        Schema::I64 => Ok(CsType::Long),
        Schema::ISize => Ok(CsType::IntPtr),
        Schema::U8 => Ok(CsType::Byte),
        Schema::U16 => Ok(CsType::UShort),
        Schema::U32 => Ok(CsType::UInt),
        Schema::U64 => Ok(CsType::ULong),
        Schema::USize => Ok(CsType::UIntPtr),
        Schema::F32 => Ok(CsType::Float),
        Schema::F64 => Ok(CsType::Double),
        Schema::I128 | Schema::U128 => Err(ResolveError::Unsupported(UnsupportedKind::WideInteger)),
        Schema::String => Ok(CsType::Text),
        Schema::Str => Ok(CsType::Text),
        Schema::Slice(element) => {
            match quote_cs_type(element, types) {
                Ok(ty) => Ok(CsType::List(Box::new(ty))),
                Err(error) => Err(error),
            }
        },
        Schema::Sequence(sequence) => {
            if sequence.name.is_std_vec() {
                match quote_cs_type(&sequence.element, types) {
                    Ok(ty) => Ok(CsType::List(Box::new(ty))),
                    Err(error) => Err(error),
                }
            } else {
                Err(ResolveError::Unsupported(UnsupportedKind::Sequence))
            }
        },
        Schema::Struct(s) => {
            if types.contains(&s.name) {
                Ok(CsType::Named(s.name.name.clone()))
            } else {
                Err(ResolveError::UnresolvedType(s.name.clone()))
            }
        },
        Schema::Enum(e) => {
            match types.get(&e.name) {
                Some(export) => Ok(quote_type_reference(export, e)),
                None => Err(ResolveError::UnresolvedType(e.name.clone())),
            }
        },
        Schema::Array(_) => Err(ResolveError::Unsupported(UnsupportedKind::Array)),
        Schema::Option(_) => Err(ResolveError::Unsupported(UnsupportedKind::Optional)),
        Schema::Tuple(_) => Err(ResolveError::Unsupported(UnsupportedKind::Tuple)),
        Schema::Mapping { .. } => Err(ResolveError::Unsupported(UnsupportedKind::Mapping)),
    }
}

} // verus!
