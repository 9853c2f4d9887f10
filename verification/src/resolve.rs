//! From a type's description to the type that stands for it at the boundary.
//!
//! The raw type of a value is what the foreign function's signature names:
//! an integer of fixed width, one of the two buffer records, the handle
//! pointer, or the raw record generated for a named type.

use vstd::prelude::*;
use crate::enumeration::{discriminant_type, quote_discriminant_type};
use crate::error::{result_view, ResolveError, ResolveErrorView, UnsupportedKind};
use crate::export::{BindingStyle, BindingStyleView, NamedTypeView};
use crate::naming::{raw_ident, raw_name};
use crate::registry::Registry;
use crate::schema::{Schema, SchemaView, TypeName, TypeNameView};
use crate::types::{CsType, CsTypeView};

verus! {

/// A type as a function's signature spells it, before any named type in it
/// has been looked up.
#[derive(Debug, PartialEq, Eq, Hash)]
pub enum Repr {
    Unit,
    Bool,
    Char,
    I8,
    I16,
    I32,
    I64,
    ISize,
    U8,
    U16,
    U32,
    U64,
    USize,
    F32,
    F64,
    Named(TypeName),
    Boxed(Box<Repr>),
    Ref(Box<Repr>),
    Vector(Box<Repr>),
    Slice(Box<Repr>),
    String,
    Str,
    Array { element: Box<Repr>, len: usize },
    Optional(Box<Repr>),
    Fallible { ok: Box<Repr>, err: Box<Repr> },
}

/// The view of [`Repr`].
pub enum ReprView {
    Unit,
    Bool,
    Char,
    I8,
    I16,
    I32,
    I64,
    ISize,
    U8,
    U16,
    U32,
    U64,
    USize,
    F32,
    F64,
    Named(TypeNameView),
    Boxed(Box<ReprView>),
    Ref(Box<ReprView>),
    Vector(Box<ReprView>),
    Slice(Box<ReprView>),
    String,
    Str,
    Array { element: Box<ReprView>, len: usize },
    Optional(Box<ReprView>),
    Fallible { ok: Box<ReprView>, err: Box<ReprView> },
}

/// The view of a signature type.
pub open spec fn repr_view(repr: Repr) -> ReprView
    decreases repr,
{
    match repr {
        Repr::Unit => ReprView::Unit,
        Repr::Bool => ReprView::Bool,
        Repr::Char => ReprView::Char,
        Repr::I8 => ReprView::I8,
        Repr::I16 => ReprView::I16,
        Repr::I32 => ReprView::I32,
        Repr::I64 => ReprView::I64,
        Repr::ISize => ReprView::ISize,
        Repr::U8 => ReprView::U8,
        Repr::U16 => ReprView::U16,
        Repr::U32 => ReprView::U32,
        Repr::U64 => ReprView::U64,
        Repr::USize => ReprView::USize,
        Repr::F32 => ReprView::F32,
        Repr::F64 => ReprView::F64,
        Repr::Named(name) => ReprView::Named(name@),
        Repr::Boxed(inner) => ReprView::Boxed(Box::new(repr_view(*inner))),
        Repr::Ref(inner) => ReprView::Ref(Box::new(repr_view(*inner))),
        Repr::Vector(inner) => ReprView::Vector(Box::new(repr_view(*inner))),
        Repr::Slice(inner) => ReprView::Slice(Box::new(repr_view(*inner))),
        Repr::String => ReprView::String,
        Repr::Str => ReprView::Str,
        Repr::Array { element, len } => ReprView::Array {
            element: Box::new(repr_view(*element)),
            len,
        },
        Repr::Optional(inner) => ReprView::Optional(Box::new(repr_view(*inner))),
        Repr::Fallible { ok, err } => ReprView::Fallible {
            ok: Box::new(repr_view(*ok)),
            err: Box::new(repr_view(*err)),
        },
    }
}

impl Repr {
    fn copy(&self) -> (r: Repr)
        ensures
            repr_view(r) == repr_view(*self),
        decreases self,
    {
        match self {
            Repr::Unit => Repr::Unit,
            Repr::Bool => Repr::Bool,
            Repr::Char => Repr::Char,
            Repr::I8 => Repr::I8,
            Repr::I16 => Repr::I16,
            Repr::I32 => Repr::I32,
            Repr::I64 => Repr::I64,
            Repr::ISize => Repr::ISize,
            Repr::U8 => Repr::U8,
            Repr::U16 => Repr::U16,
            Repr::U32 => Repr::U32,
            Repr::U64 => Repr::U64,
            Repr::USize => Repr::USize,
            Repr::F32 => Repr::F32,
            Repr::F64 => Repr::F64,
            Repr::Named(name) => Repr::Named(name.clone()),
            Repr::Boxed(inner) => Repr::Boxed(Box::new(inner.copy())),
            Repr::Ref(inner) => Repr::Ref(Box::new(inner.copy())),
            Repr::Vector(inner) => Repr::Vector(Box::new(inner.copy())),
            Repr::Slice(inner) => Repr::Slice(Box::new(inner.copy())),
            Repr::String => Repr::String,
            Repr::Str => Repr::Str,
            Repr::Array { element, len } => Repr::Array {
                element: Box::new(element.copy()),
                len: *len,
            },
            Repr::Optional(inner) => Repr::Optional(Box::new(inner.copy())),
            Repr::Fallible { ok, err } => Repr::Fallible {
                ok: Box::new(ok.copy()),
                err: Box::new(err.copy()),
            },
        }
    }
}

impl Clone for Repr {
    fn clone(&self) -> (r: Repr)
        ensures
            r@ == self@,
    {
        self.copy()
    }
}

impl View for Repr {
    type V = ReprView;

    open spec fn view(&self) -> ReprView {
        repr_view(*self)
    }
}

/// Whether the name is that of the standard library's vector, the one
/// growable sequence that has a raw representation.
pub open spec fn is_std_vec(name: TypeNameView) -> bool {
    name.name == "Vec"@ && name.module == "alloc::vec"@
}

/// The raw type of a value of a registered named type whose schema is not
/// that of a plain list of discriminants.
pub open spec fn named_raw_type(name: TypeNameView, entry: NamedTypeView) -> CsTypeView {
    if entry.binding_style is Handle {
        CsTypeView::HandlePtr
    } else {
        raw_record_type(name)
    }
}

/// The reference to the raw record generated for the given type.
pub open spec fn raw_record_type(name: TypeNameView) -> CsTypeView {
    CsTypeView::Global(raw_name(name.name))
}

/// The raw type of a value described by `schema`, or the reason it has none.
pub open spec fn raw_type_of_schema(
    schema: SchemaView,
    types: Map<TypeNameView, NamedTypeView>,
) -> Result<CsTypeView, ResolveErrorView> {
    match schema {
        SchemaView::Unit => Ok(CsTypeView::Byte),
        SchemaView::Bool => Ok(CsTypeView::Byte),
        SchemaView::Char => Ok(CsTypeView::UInt),
        SchemaView::I8 => Ok(CsTypeView::SByte),
        SchemaView::I16 => Ok(CsTypeView::Short),
        SchemaView::I32 => Ok(CsTypeView::Int),
        SchemaView::I64 => Ok(CsTypeView::Long),
        SchemaView::ISize => Ok(CsTypeView::IntPtr),
        SchemaView::U8 => Ok(CsTypeView::Byte),
        SchemaView::U16 => Ok(CsTypeView::UShort),
        SchemaView::U32 => Ok(CsTypeView::UInt),
        SchemaView::U64 => Ok(CsTypeView::ULong),
        SchemaView::USize => Ok(CsTypeView::UIntPtr),
        SchemaView::F32 => Ok(CsTypeView::Float),
        SchemaView::F64 => Ok(CsTypeView::Double),
        SchemaView::I128 => Err(ResolveErrorView::Unsupported(UnsupportedKind::WideInteger)),
        SchemaView::U128 => Err(ResolveErrorView::Unsupported(UnsupportedKind::WideInteger)),
        SchemaView::String => Ok(CsTypeView::RawVec),
        SchemaView::Str => Ok(CsTypeView::RawSlice),
        SchemaView::Slice(_) => Ok(CsTypeView::RawSlice),
        SchemaView::Sequence(sequence) => if is_std_vec(sequence.name) {
            Ok(CsTypeView::RawVec)
        } else {
            Err(ResolveErrorView::Unsupported(UnsupportedKind::Sequence))
        },
        SchemaView::Struct(s) => if types.dom().contains(s.name) {
            Ok(named_raw_type(s.name, types[s.name]))
        } else {
            Err(ResolveErrorView::UnresolvedType(s.name))
        },
        SchemaView::Enum(e) => if !types.dom().contains(e.name) {
            Err(ResolveErrorView::UnresolvedType(e.name))
        } else if types[e.name].binding_style is Handle || e.has_data() {
            Ok(named_raw_type(e.name, types[e.name]))
        } else {
            Ok(discriminant_type(e))
        },
        SchemaView::Array(_) => Err(ResolveErrorView::Unsupported(UnsupportedKind::Array)),
        SchemaView::Option(_) => Err(ResolveErrorView::Unsupported(UnsupportedKind::Optional)),
        SchemaView::Tuple(_) => Err(ResolveErrorView::Unsupported(UnsupportedKind::Tuple)),
        SchemaView::Mapping { .. } => Err(ResolveErrorView::Unsupported(UnsupportedKind::Mapping)),
    }
}

/// The raw type of a value whose type a signature spells as `repr`, or the
/// reason it has none.
pub open spec fn raw_type_of_repr(
    repr: ReprView,
    types: Map<TypeNameView, NamedTypeView>,
) -> Result<CsTypeView, ResolveErrorView> {
    match repr {
        ReprView::Unit => Ok(CsTypeView::Byte),
        ReprView::Bool => Ok(CsTypeView::Byte),
        ReprView::Char => Ok(CsTypeView::UInt),
        ReprView::I8 => Ok(CsTypeView::SByte),
        ReprView::I16 => Ok(CsTypeView::Short),
        ReprView::I32 => Ok(CsTypeView::Int),
        ReprView::I64 => Ok(CsTypeView::Long),
        ReprView::ISize => Ok(CsTypeView::IntPtr),
        ReprView::U8 => Ok(CsTypeView::Byte),
        ReprView::U16 => Ok(CsTypeView::UShort),
        ReprView::U32 => Ok(CsTypeView::UInt),
        ReprView::U64 => Ok(CsTypeView::ULong),
        ReprView::USize => Ok(CsTypeView::UIntPtr),
        ReprView::F32 => Ok(CsTypeView::Float),
        ReprView::F64 => Ok(CsTypeView::Double),
        ReprView::Named(name) => if !types.dom().contains(name) {
            Err(ResolveErrorView::UnresolvedType(name))
        } else {
            match types[name].binding_style {
                BindingStyleView::Handle => Ok(CsTypeView::HandlePtr),
                BindingStyleView::Value(schema) => raw_type_of_schema(schema, types),
            }
        },
        ReprView::Boxed(_) => Ok(CsTypeView::IntPtr),
        ReprView::Ref(_) => Ok(CsTypeView::IntPtr),
        ReprView::Vector(_) => Ok(CsTypeView::RawVec),
        ReprView::Slice(_) => Ok(CsTypeView::RawSlice),
        ReprView::String => Ok(CsTypeView::RawVec),
        ReprView::Str => Ok(CsTypeView::RawSlice),
        ReprView::Array { .. } => Err(ResolveErrorView::Unsupported(UnsupportedKind::Array)),
        ReprView::Optional(_) => Err(ResolveErrorView::Unsupported(UnsupportedKind::Optional)),
        ReprView::Fallible { .. } => Err(ResolveErrorView::Unsupported(UnsupportedKind::Fallible)),
    }
}

impl SchemaView {
    /// Whether the schema is that of a primitive: `()`, `bool`, `char`, an
    /// integer of up to 64 bits or of the width of a pointer, or a
    /// floating-point number.
    pub open spec fn is_primitive(self) -> bool {
        match self {
            SchemaView::Unit => true,
            SchemaView::Bool => true,
            SchemaView::Char => true,
            SchemaView::I8 => true,
            SchemaView::I16 => true,
            SchemaView::I32 => true,
            SchemaView::I64 => true,
            SchemaView::ISize => true,
            SchemaView::U8 => true,
            SchemaView::U16 => true,
            SchemaView::U32 => true,
            SchemaView::U64 => true,
            SchemaView::USize => true,
            SchemaView::F32 => true,
            SchemaView::F64 => true,
            _ => false,
        }
    }

    /// Whether the schema is that of a text or of a sequence that has a raw
    /// representation.
    pub open spec fn is_buffer(self) -> bool {
        match self {
            SchemaView::String => true,
            SchemaView::Str => true,
            SchemaView::Slice(_) => true,
            SchemaView::Sequence(sequence) => is_std_vec(sequence.name),
            _ => false,
        }
    }
}

impl ReprView {
    /// Whether the type is spelled without the name of a declared type and
    /// is of a kind that has a raw representation.
    pub open spec fn is_builtin(self) -> bool {
        match self {
            ReprView::Named(_) => false,
            ReprView::Array { .. } => false,
            ReprView::Optional(_) => false,
            ReprView::Fallible { .. } => false,
            _ => true,
        }
    }
}

/// Every primitive, every text and every supported sequence has a raw type.
/// It does not depend on what is registered, and its layout is fixed.
pub proof fn lemma_builtin_schema_mapping(
    schema: SchemaView,
    first: Map<TypeNameView, NamedTypeView>,
    second: Map<TypeNameView, NamedTypeView>,
)
    requires
        schema.is_primitive() || schema.is_buffer(),
    ensures
        raw_type_of_schema(schema, first) is Ok,
        raw_type_of_schema(schema, first) == raw_type_of_schema(schema, second),
        raw_type_of_schema(schema, first)->Ok_0.is_raw(),
{
}

/// Every type that a signature spells without a declared name, and that is
/// of a supported kind, has a raw type. It does not depend on what is
/// registered, and its layout is fixed.
pub proof fn lemma_builtin_repr_mapping(
    repr: ReprView,
    first: Map<TypeNameView, NamedTypeView>,
    second: Map<TypeNameView, NamedTypeView>,
)
    requires
        repr.is_builtin(),
    ensures
        raw_type_of_repr(repr, first) is Ok,
        raw_type_of_repr(repr, first) == raw_type_of_repr(repr, second),
        raw_type_of_repr(repr, first)->Ok_0.is_raw(),
{
}

/// Whatever resolves, resolves to a type with a fixed layout.
pub proof fn lemma_raw_type_is_raw(schema: SchemaView, types: Map<TypeNameView, NamedTypeView>)
    ensures
        raw_type_of_schema(schema, types) matches Ok(ty) ==> ty.is_raw(),
{
}

/// Whether the schema is that of a struct or an enum that is not
/// registered.
pub open spec fn is_unregistered(schema: SchemaView, types: Map<TypeNameView, NamedTypeView>)
    -> bool {
    (schema is Struct || schema is Enum) && !types.dom().contains(schema.declared_name()->0)
}

/// A struct or an enum that is not registered does not resolve, and the
/// error names it.
pub proof fn lemma_unregistered_type_is_unresolved(
    schema: SchemaView,
    types: Map<TypeNameView, NamedTypeView>,
)
    requires
        is_unregistered(schema, types),
    ensures
        raw_type_of_schema(schema, types) == Err::<CsTypeView, ResolveErrorView>(
            ResolveErrorView::UnresolvedType(schema.declared_name()->0),
        ),
{
}

impl TypeName {
    /// Whether this is the standard library's vector.
    pub fn is_std_vec(&self) -> (b: bool)
        ensures
            b == is_std_vec(self@),
    {
        let name = String::from_str("Vec");
        let module = String::from_str("alloc::vec");
        self.name == name && self.module == module
    }
}

/// The pointer type that every handle is passed as.
pub fn quote_handle_ptr() -> (r: CsType)
    ensures
        r@ == CsTypeView::HandlePtr,
{
    CsType::HandlePtr
}

/// The reference to the raw record generated for the given type.
pub fn named_type_raw_reference(name: &TypeName) -> (r: CsType)
    ensures
        r@ == raw_record_type(name@),
{
    CsType::Global(raw_ident(name))
}

/// The raw type of a value described by `schema`.
///
/// Primitives map to the C# integer or floating-point type of the same
/// width, `()` and `bool` to one byte, `char` to its scalar value in four.
/// Owned text and vectors are a `RawVec`, borrowed text and slices a
/// `RawSlice`. A named type is looked up in `types`: a handle is the handle
/// pointer, a plain list of discriminants is its discriminant type, and any
/// other type marshaled by value is its raw record. A type that is not
/// registered, and every kind without a representation, is an error.
pub fn raw_type_from_schema(schema: &Schema, types: &Registry) -> (r: Result<
    CsType,
    ResolveError,
>)
    ensures
        result_view(r) == raw_type_of_schema(schema@, types@),
{
    match schema {
        Schema::Unit => Ok(CsType::Byte),
        Schema::Bool => Ok(CsType::Byte),
        Schema::Char => Ok(CsType::UInt),
        Schema::I8 => Ok(CsType::SByte),
        Schema::I16 => Ok(CsType::Short),
        Schema::I32 => Ok(CsType::Int),
        Schema::I64 => Ok(CsType::Long),
        Schema::ISize => Ok(CsType::IntPtr),
        Schema::U8 => Ok(CsType::Byte),
        Schema::U16 => Ok(CsType::UShort),
        Schema::U32 => Ok(CsType::UInt),
        Schema::U64 => Ok(CsType::ULong),
        Schema::USize => Ok(CsType::UIntPtr),
        Schema::F32 => Ok(CsType::Float),
        Schema::F64 => Ok(CsType::Double),
        Schema::I128 | Schema::U128 => Err(ResolveError::Unsupported(UnsupportedKind::WideInteger)),
        Schema::String => Ok(CsType::RawVec),
        Schema::Str => Ok(CsType::RawSlice),
        Schema::Slice(_) => Ok(CsType::RawSlice),
        Schema::Sequence(sequence) => {
            if sequence.name.is_std_vec() {
                Ok(CsType::RawVec)
            } else {
                Err(ResolveError::Unsupported(UnsupportedKind::Sequence))
            }
        },
        Schema::Struct(s) => {
            match types.get(&s.name) {
                None => Err(ResolveError::UnresolvedType(s.name.clone())),
                Some(export) => {
                    match export.binding_style {
                        BindingStyle::Handle => Ok(quote_handle_ptr()),
                        BindingStyle::Value(_) => Ok(named_type_raw_reference(&s.name)),
                    }
                },
            }
        },
        Schema::Enum(e) => {
            match types.get(&e.name) {
                None => Err(ResolveError::UnresolvedType(e.name.clone())),
                Some(export) => {
                    match export.binding_style {
                        BindingStyle::Handle => Ok(quote_handle_ptr()),
                        BindingStyle::Value(_) => {
                            if e.has_data() {
                                Ok(named_type_raw_reference(&e.name))
                            } else {
                                Ok(quote_discriminant_type(e))
                            }
                        },
                    }
                },
            }
        },
        Schema::Array(_) => Err(ResolveError::Unsupported(UnsupportedKind::Array)),
        Schema::Option(_) => Err(ResolveError::Unsupported(UnsupportedKind::Optional)),
        Schema::Tuple(_) => Err(ResolveError::Unsupported(UnsupportedKind::Tuple)),
        Schema::Mapping { .. } => Err(ResolveError::Unsupported(UnsupportedKind::Mapping)),
    }
}

/// The raw type of a value whose type a signature spells as `repr`.
///
/// As `raw_type_from_schema`, with two additions: a boxed or borrowed value
/// is passed as a pointer, and a named type that is marshaled by value has
/// the raw type of the schema it is registered with.
pub fn raw_type_from_repr(repr: &Repr, types: &Registry) -> (r: Result<CsType, ResolveError>)
    ensures
        result_view(r) == raw_type_of_repr(repr@, types@),
{
    match repr {
        Repr::Unit => Ok(CsType::Byte),
        Repr::Bool => Ok(CsType::Byte),
        Repr::Char => Ok(CsType::UInt),
        Repr::I8 => Ok(CsType::SByte),
        Repr::I16 => Ok(CsType::Short),
        Repr::I32 => Ok(CsType::Int),
        Repr::I64 => Ok(CsType::Long),
        Repr::ISize => Ok(CsType::IntPtr),
        Repr::U8 => Ok(CsType::Byte),
        Repr::U16 => Ok(CsType::UShort),
        Repr::U32 => Ok(CsType::UInt),
        Repr::U64 => Ok(CsType::ULong),
        Repr::USize => Ok(CsType::UIntPtr),
        Repr::F32 => Ok(CsType::Float),
        Repr::F64 => Ok(CsType::Double),
        Repr::Named(name) => {
            match types.get(name) {
                None => Err(ResolveError::UnresolvedType(name.clone())),
                Some(export) => {
                    match &export.binding_style {
                        BindingStyle::Handle => Ok(quote_handle_ptr()),
                        BindingStyle::Value(schema) => raw_type_from_schema(schema, types),
                    }
                },
            }
        },
        Repr::Boxed(_) | Repr::Ref(_) => Ok(CsType::IntPtr),
        Repr::Vector(_) => Ok(CsType::RawVec),
        Repr::Slice(_) => Ok(CsType::RawSlice),
        Repr::String => Ok(CsType::RawVec),
        Repr::Str => Ok(CsType::RawSlice),
        Repr::Array { .. } => Err(ResolveError::Unsupported(UnsupportedKind::Array)),
        Repr::Optional(_) => Err(ResolveError::Unsupported(UnsupportedKind::Optional)),
        Repr::Fallible { .. } => Err(ResolveError::Unsupported(UnsupportedKind::Fallible)),
    }
}

} // verus!
